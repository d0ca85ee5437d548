//! The percentage bar: a title, a bar of fixed width split among items in
//! proportion to their use, and a legend of the items, two per line.
use crate::colors::{bold_colored, bold_colored_of, colored, colored_of, on_colored, on_colored_of};
use crate::colors::default_color;
use crate::text::{decimal, decimal_string, push_char, space_string, spaces};
use owo_colors::{AnsiColors, DynColors};
use vstd::prelude::*;

verus! {

/// Width of a bar in character cells when none is chosen.
pub const DEFAULT_BAR_WIDTH: usize = 30;

/// A bar over `total` units. Each item is a label, the units it uses, and
/// its own use in tenths of a percent (1000 is full); items take the colours
/// of `colors` in turn.
pub struct PercentBar {
    pub title: String,
    pub total: u64,
    pub items: Vec<(String, u64, u64)>,
    pub colors: Vec<DynColors>,
    pub width: usize,
}

/// `used * width / total`, rounded to the nearest integer (halves up); 0 for
/// an empty total.
pub open spec fn rounded_share(used: nat, total: nat, width: nat) -> nat {
    if total == 0 {
        0
    } else {
        let p = used * width;
        if 2 * (p % total) >= total {
            p / total + 1
        } else {
            p / total
        }
    }
}

/// The cells that an item asks for: its rounded share, or one cell when the
/// share rounds to nothing but is over 1 % of the total.
pub open spec fn wanted(used: nat, total: nat, width: nat) -> nat {
    let w = rounded_share(used, total, width);
    if w == 0 && used * 100 > total {
        1
    } else {
        w
    }
}

/// The cells given to each item, in order: what it asks for, limited to what
/// the items before it left of the bar.
pub open spec fn allocation(items: Seq<(nat, nat)>, total: nat, width: nat) -> Seq<nat>
    decreases items.len(),
{
    if items.len() == 0 {
        Seq::empty()
    } else {
        let before = allocation(items.drop_last(), total, width);
        let left = width - sum(before);
        let w = wanted(items.last().0, total, width);
        before.push(
            if w <= left {
                w
            } else {
                left as nat
            },
        )
    }
}

/// Sum of a sequence of naturals.
pub open spec fn sum(s: Seq<nat>) -> int
    decreases s.len(),
{
    if s.len() == 0 {
        0
    } else {
        sum(s.drop_last()) + s.last()
    }
}

/// Sum of the cells that the items ask for.
pub open spec fn wanted_total(items: Seq<(nat, nat)>, total: nat, width: nat) -> int
    decreases items.len(),
{
    if items.len() == 0 {
        0
    } else {
        wanted_total(items.drop_last(), total, width) + wanted(items.last().0, total, width)
    }
}

/// The items of a bar as (units used, use in tenths of a percent).
pub open spec fn item_uses(items: Seq<(String, u64, u64)>) -> Seq<(nat, nat)> {
    items.map_values(|it: (String, u64, u64)| (it.1 as nat, it.2 as nat))
}

proof fn lemma_allocation_fits(items: Seq<(nat, nat)>, total: nat, width: nat)
    ensures
        allocation(items, total, width).len() == items.len(),
        0 <= sum(allocation(items, total, width)) <= width,
    decreases items.len(),
{
    if items.len() > 0 {
        lemma_allocation_fits(items.drop_last(), total, width);
        let before = allocation(items.drop_last(), total, width);
        let a = allocation(items, total, width);
        assert(a.drop_last() =~= before);
    }
}

proof fn lemma_allocation_exact(items: Seq<(nat, nat)>, total: nat, width: nat)
    requires
        wanted_total(items, total, width) <= width,
    ensures
        sum(allocation(items, total, width)) == wanted_total(items, total, width),
        forall|i: int|
            0 <= i < items.len() ==> #[trigger] allocation(items, total, width)[i] == wanted(items[i].0, total, width),
    decreases items.len(),
{
    lemma_allocation_fits(items, total, width);
    if items.len() > 0 {
        let w = wanted(items.last().0, total, width);
        assert(wanted_total(items.drop_last(), total, width) <= width);
        lemma_allocation_exact(items.drop_last(), total, width);
        let before = allocation(items.drop_last(), total, width);
        let a = allocation(items, total, width);
        assert(a.drop_last() =~= before);
        assert forall|i: int| 0 <= i < items.len() implies #[trigger] a[i] == wanted(items[i].0, total, width) by {
            if i < items.len() - 1 {
                assert(a[i] == before[i]);
                assert(items.drop_last()[i] == items[i]);
            }
        }
    }
}

/// The bar is always filled exactly: the cells given to the items plus the
/// filler left after them make up the bar's width, whatever the items.
pub proof fn lemma_bar_fills_width(items: Seq<(nat, nat)>, total: nat, width: nat)
    ensures
        allocation(items, total, width).len() == items.len(),
        sum(allocation(items, total, width)) + (width - sum(allocation(items, total, width)))
            == width,
        0 <= width - sum(allocation(items, total, width)),
{
    lemma_allocation_fits(items, total, width);
}

/// When the items' requests fit in the bar, every item that uses over 1 % of
/// the total is visible: it gets at least one cell, as each item gets exactly
/// the cells it asks for.
pub proof fn lemma_visible_items(items: Seq<(nat, nat)>, total: nat, width: nat)
    requires
        wanted_total(items, total, width) <= width,
    ensures
        forall|i: int|
            0 <= i < items.len() && items[i].0 * 100 > total ==> #[trigger] allocation(
                items,
                total,
                width,
            )[i] >= 1,
{
    lemma_allocation_exact(items, total, width);
}

/// `rounded_share` on machine integers.
fn share(used: u64, total: u64, width: usize) -> (r: usize)
    ensures
        r == rounded_share(used as nat, total as nat, width as nat) || (r == width
            && rounded_share(used as nat, total as nat, width as nat) > width),
{
    if total == 0 {
        return 0;
    }
    proof {
        assert((used as int) * (width as int) <= 0xffff_ffff_ffff_ffffint * 0xffff_ffff_ffff_ffffint)
            by (nonlinear_arith)
            requires
                used <= 0xffff_ffff_ffff_ffffint,
                width <= 0xffff_ffff_ffff_ffffint,
                0 <= used,
                0 <= width,
        ;
    }
    let p: u128 = (used as u128) * (width as u128);
    let q: u128 = p / (total as u128);
    let rem: u128 = p % (total as u128);
    proof {
        assert(q <= p) by (nonlinear_arith)
            requires
                total >= 1,
                q == p / (total as u128),
        ;
    }
    let rounded: u128 = if 2 * rem >= total as u128 {
        q + 1
    } else {
        q
    };
    if rounded > width as u128 {
        width
    } else {
        rounded as usize
    }
}

/// The colour of the `i`-th item: the palette taken in turn, or the default
/// colour for an empty palette.
pub open spec fn cell_color(colors: Seq<DynColors>, i: int) -> DynColors {
    if colors.len() > 0 {
        colors[i % (colors.len() as int)]
    } else {
        default_color()
    }
}

/// A use in tenths of a percent, written with one decimal: `130` is `13.0`.
pub open spec fn percent_text(per_mille: nat) -> Seq<char> {
    decimal(per_mille / 10) + seq!['.'] + decimal(per_mille % 10)
}

/// A use in tenths of a percent, written with one decimal.
pub fn percent_string(per_mille: u128) -> (r: String)
    ensures
        r@ == percent_text(per_mille as nat),
{
    let mut out = decimal_string(per_mille / 10);
    push_char(&mut out, '.');
    let tenth = decimal_string(per_mille % 10);
    out.append(tenth.as_str());
    out
}

/// The legend entry of one item: a coloured dot, the label and its use.
pub open spec fn legend(name: Seq<char>, per_mille: nat, c: DynColors) -> Seq<char> {
    seq![' '] + colored_of(seq!['\u{25cf}'], c) + seq![' '] + name + seq![' ', '('] + percent_text(
        per_mille,
    ) + seq![' ', '%', ')', ' ']
}

/// The coloured cells of the first `n` items of the bar.
pub open spec fn segments(widths: Seq<nat>, colors: Seq<DynColors>, n: nat) -> Seq<char>
    decreases n,
{
    if n == 0 {
        Seq::empty()
    } else {
        segments(widths, colors, (n - 1) as nat) + on_colored_of(
            spaces(widths[n - 1]),
            cell_color(colors, n - 1),
        )
    }
}

impl PercentBar {
    /// The items' cells, in order.
    pub open spec fn cells(&self) -> Seq<nat> {
        allocation(item_uses(self.items@), self.total as nat, self.width as nat)
    }

    /// The bar line: the title in bold, then the items' cells, then the
    /// filler on black.
    pub open spec fn bar_line(&self, color: DynColors) -> Seq<char> {
        bold_colored_of(self.title@, color) + seq![':', ' '] + segments(
            self.cells(),
            self.colors@,
            self.items@.len(),
        ) + on_colored_of(
            spaces((self.width - sum(self.cells())) as nat),
            DynColors::Ansi(AnsiColors::Black),
        )
    }

    /// The legend of item `i`.
    pub open spec fn legend_of(&self, i: int) -> Seq<char> {
        legend(self.items@[i].0@, self.items@[i].2 as nat, cell_color(self.colors@, i))
    }

    /// Legend line `j`: items `2j` and `2j + 1`, after padding as wide as the
    /// title and its colon.
    pub open spec fn legend_line(&self, j: int) -> Seq<char> {
        spaces(self.title@.len() + 1) + self.legend_of(2 * j) + if 2 * j + 1 < self.items@.len() {
            self.legend_of(2 * j + 1)
        } else {
            Seq::empty()
        }
    }

    /// The lines of the bar: the bar line, then the legend, two items a line.
    pub open spec fn lines_spec(&self, color: DynColors) -> Seq<Seq<char>> {
        seq![self.bar_line(color)] + Seq::new(
            ((self.items@.len() + 1) / 2) as nat,
            |j: int| self.legend_line(j),
        )
    }

    /// The legend entry of item `i`.
    fn legend_entry(&self, i: usize) -> (r: String)
        requires
            i < self.items.len(),
        ensures
            r@ == self.legend_of(i as int),
    {
        let c = if self.colors.len() > 0 {
            self.colors[i % self.colors.len()]
        } else {
            DynColors::Ansi(AnsiColors::Default)
        };
        let mut dot = String::new();
        push_char(&mut dot, '\u{25cf}');
        let mut out = String::new();
        push_char(&mut out, ' ');
        let painted = colored(dot.as_str(), c);
        out.append(painted.as_str());
        push_char(&mut out, ' ');
        out.append(self.items[i].0.as_str());
        push_char(&mut out, ' ');
        push_char(&mut out, '(');
        let pct = percent_string(self.items[i].2 as u128);
        out.append(pct.as_str());
        push_char(&mut out, ' ');
        push_char(&mut out, '%');
        push_char(&mut out, ')');
        push_char(&mut out, ' ');
        proof {
            assert(dot@ =~= seq!['\u{25cf}']);
            assert(out@ =~= self.legend_of(i as int));
        }
        out
    }

    /// The lines of the bar for text colour `color`: the title and the bar,
    /// then a legend of the items, two per line.
    pub fn render(&self, color: DynColors) -> (r: Vec<String>)
        ensures
            r@.map_values(|l: String| l@) == self.lines_spec(color),
    {
        let (widths, filler) = self.allocate();
        let mut line = bold_colored(self.title.as_str(), color);
        push_char(&mut line, ':');
        push_char(&mut line, ' ');
        let mut i: usize = 0;
        while i < widths.len()
            invariant
                i <= widths.len(),
                widths@.len() == self.items@.len(),
                forall|k: int| 0 <= k < widths@.len() ==> widths@[k] as nat == #[trigger] self.cells()[k],
                line@ == bold_colored_of(self.title@, color) + seq![':', ' '] + segments(
                    self.cells(),
                    self.colors@,
                    i as nat,
                ),
            decreases widths.len() - i,
        {
            let c = if self.colors.len() > 0 {
                self.colors[i % self.colors.len()]
            } else {
                DynColors::Ansi(AnsiColors::Default)
            };
            let cells = space_string(widths[i]);
            let seg = on_colored(cells.as_str(), c);
            line.append(seg.as_str());
            proof {
                assert(segments(self.cells(), self.colors@, (i + 1) as nat) == segments(
                    self.cells(),
                    self.colors@,
                    i as nat,
                ) + on_colored_of(spaces(self.cells()[i as int]), cell_color(self.colors@, i as int)));
            }
            i = i + 1;
        }
        let fill = space_string(filler);
        let tail = on_colored(fill.as_str(), DynColors::Ansi(AnsiColors::Black));
        line.append(tail.as_str());
        let mut lines: Vec<String> = Vec::new();
        lines.push(line);
        let n = self.items.len();
        let tlen = self.title.as_str().unicode_len();
        let mut i: usize = 0;
        let mut j: usize = 0;
        while i < n
            invariant
                n == self.items@.len(),
                tlen == self.title@.len(),
                i <= n,
                i == 2 * j || (i == n && i + 1 == 2 * j),
                lines@.len() == 1 + j,
                lines@[0]@ == self.bar_line(color),
                forall|k: int| 1 <= k < 1 + j ==> (#[trigger] lines@[k])@ == self.legend_line(k - 1),
            decreases n - i,
        {
            let mut l = space_string(tlen);
            push_char(&mut l, ' ');
            let first = self.legend_entry(i);
            l.append(first.as_str());
            if n - i > 1 {
                let second = self.legend_entry(i + 1);
                l.append(second.as_str());
            }
            proof {
                assert(spaces(tlen as nat).push(' ') =~= spaces(self.title@.len() + 1));
                assert(l@ =~= self.legend_line(j as int));
            }
            lines.push(l);
            i = if n - i > 1 {
                i + 2
            } else {
                n
            };
            j = j + 1;
        }
        proof {
            assert(j == (n + 1) / 2);
            assert(lines@.map_values(|l: String| l@) =~= self.lines_spec(color));
        }
        lines
    }
}

impl PercentBar {
    /// The cells of the bar given to each item, and the filler cells left
    /// after them.
    pub fn allocate(&self) -> (r: (Vec<usize>, usize))
        ensures
            r.0@.len() == self.items@.len(),
            forall|i: int|
                0 <= i < r.0@.len() ==> r.0@[i] as nat == #[trigger] allocation(
                    item_uses(self.items@),
                    self.total as nat,
                    self.width as nat,
                )[i],
            r.1 as nat == self.width - sum(
                allocation(item_uses(self.items@), self.total as nat, self.width as nat),
            ),
    {
        let ghost uses = item_uses(self.items@);
        let ghost total = self.total as nat;
        let ghost width = self.width as nat;
        let mut widths: Vec<usize> = Vec::new();
        let mut remainder: usize = self.width;
        let mut i: usize = 0;
        while i < self.items.len()
            invariant
                i <= self.items.len(),
                uses == item_uses(self.items@),
                total == self.total as nat,
                width == self.width as nat,
                widths@.len() == i,
                forall|k: int|
                    0 <= k < i ==> widths@[k] as nat == #[trigger] allocation(
                        uses.take(i as int),
                        total,
                        width,
                    )[k],
                remainder as nat == width - sum(allocation(uses.take(i as int), total, width)),
            decreases self.items.len() - i,
        {
            proof {
                lemma_allocation_fits(uses.take(i + 1), total, width);
                lemma_allocation_fits(uses.take(i as int), total, width);
                assert(uses.take(i + 1).drop_last() =~= uses.take(i as int));
            }
            proof {
                assert(uses.take(i + 1).last() == (self.items@[i as int].1 as nat, self.items@[i as int].2 as nat));
            }
            let used = self.items[i].1;
            let s = share(used, self.total, self.width);
            let w0 = if s == 0 && (used as u128) * 100 > self.total as u128 {
                1
            } else {
                s
            };
            let w = if w0 <= remainder {
                w0
            } else {
                remainder
            };
            proof {
                let wt = wanted(used as nat, total, width);
                let rs = rounded_share(used as nat, total, width);
                if s as nat == rs {
                    assert(w0 as nat == wt);
                } else {
                    assert(s == self.width && rs > width);
                    assert(wt == rs);
                    assert(remainder <= self.width);
                }
            }
            widths.push(w);
            remainder = remainder - w;
            proof {
                let a = allocation(uses.take(i + 1), total, width);
                assert(a.drop_last() =~= allocation(uses.take(i as int), total, width));
                assert forall|k: int| 0 <= k < i + 1 implies widths@[k] as nat == #[trigger] a[k] by {
                    if k < i {
                        assert(a[k] == allocation(uses.take(i as int), total, width)[k]);
                    }
                }
            }
            i = i + 1;
        }
        proof {
            assert(uses.take(self.items.len() as int) =~= uses);
        }
        (widths, remainder)
    }
}

/// The facts of one disk that the disk bar reads: device name, mount point,
/// and total and available space in bytes.
pub struct DiskUsage {
    pub name: String,
    pub mount_point: String,
    pub total: u64,
    pub available: u64,
}

/// Bytes used on a disk (none when more is available than its total).
pub open spec fn disk_used(d: DiskUsage) -> nat {
    if d.available <= d.total {
        (d.total - d.available) as nat
    } else {
        0
    }
}

/// `part / whole` in tenths of a percent, rounded to the nearest (halves
/// up); 0 for an empty whole.
pub open spec fn rounded_per_mille(part: nat, whole: nat) -> nat {
    if whole == 0 {
        0
    } else {
        (part * 2000 + whole) / (2 * whole)
    }
}

/// `rounded_per_mille` on machine integers.
pub fn per_mille_of(part: u64, whole: u64) -> (r: u128)
    ensures
        r as nat == rounded_per_mille(part as nat, whole as nat),
{
    if whole == 0 {
        0
    } else {
        ((part as u128) * 2000 + (whole as u128)) / (2 * (whole as u128))
    }
}

/// Use of a disk in tenths of a percent, rounded to the nearest.
pub open spec fn disk_per_mille(d: DiskUsage) -> nat {
    rounded_per_mille(disk_used(d), d.total as nat)
}

/// True when no disk before position `i` has the name of disk `i`.
pub open spec fn first_of_name(disks: Seq<DiskUsage>, i: int) -> bool {
    forall|k: int| 0 <= k < i ==> (#[trigger] disks[k]).name@ != disks[i].name@
}

/// The disks kept in the bar: the first of each name, in order, each as
/// (mount point, bytes used, use in tenths of a percent).
pub open spec fn disk_items(disks: Seq<DiskUsage>) -> Seq<(Seq<char>, nat, nat)>
    decreases disks.len(),
{
    if disks.len() == 0 {
        Seq::empty()
    } else {
        let before = disk_items(disks.drop_last());
        let d = disks.last();
        if first_of_name(disks, disks.len() - 1) {
            before.push((d.mount_point@, disk_used(d), disk_per_mille(d)))
        } else {
            before
        }
    }
}

/// Total bytes of the kept disks, held at `u64::MAX` once it would pass it.
pub open spec fn disks_total(disks: Seq<DiskUsage>) -> nat
    decreases disks.len(),
{
    if disks.len() == 0 {
        0
    } else {
        let before = disks_total(disks.drop_last());
        if first_of_name(disks, disks.len() - 1) {
            let t = before + disks.last().total;
            if t > u64::MAX {
                u64::MAX as nat
            } else {
                t as nat
            }
        } else {
            before
        }
    }
}

/// The views of a bar's items.
pub open spec fn item_views(items: Seq<(String, u64, u64)>) -> Seq<(Seq<char>, nat, nat)> {
    items.map_values(|it: (String, u64, u64)| (it.0@, it.1 as nat, it.2 as nat))
}

/// The default colours of a bar's items: the ANSI colours from red to white.
pub open spec fn bar_colors() -> Seq<DynColors> {
    seq![
        DynColors::Ansi(AnsiColors::Red),
        DynColors::Ansi(AnsiColors::Green),
        DynColors::Ansi(AnsiColors::Yellow),
        DynColors::Ansi(AnsiColors::Blue),
        DynColors::Ansi(AnsiColors::Magenta),
        DynColors::Ansi(AnsiColors::Cyan),
        DynColors::Ansi(AnsiColors::White),
    ]
}

/// The default colours of a bar's items.
pub fn default_bar_colors() -> (r: Vec<DynColors>)
    ensures
        r@ == bar_colors(),
{
    let v = vec![
        DynColors::Ansi(AnsiColors::Red),
        DynColors::Ansi(AnsiColors::Green),
        DynColors::Ansi(AnsiColors::Yellow),
        DynColors::Ansi(AnsiColors::Blue),
        DynColors::Ansi(AnsiColors::Magenta),
        DynColors::Ansi(AnsiColors::Cyan),
        DynColors::Ansi(AnsiColors::White),
    ];
    assert(v@ =~= bar_colors());
    v
}

fn seen_before(disks: &Vec<DiskUsage>, i: usize) -> (r: bool)
    requires
        i < disks.len(),
    ensures
        r == !first_of_name(disks@, i as int),
{
    let mut k: usize = 0;
    while k < i
        invariant
            i < disks.len(),
            k <= i,
            forall|j: int| 0 <= j < k ==> (#[trigger] disks@[j]).name@ != disks@[i as int].name@,
        decreases i - k,
    {
        if disks[k].name == disks[i].name {
            return true;
        }
        k = k + 1;
    }
    false
}

impl PercentBar {
    /// The disk bar: titled `Disks`, over the total space of the disks, with
    /// one item per disk name (the first disk of each name), in the default
    /// colours and width.
    pub fn from_disks(disks: &Vec<DiskUsage>) -> (r: PercentBar)
        ensures
            r.title@ == "Disks"@,
            r.total as nat == disks_total(disks@),
            item_views(r.items@) == disk_items(disks@),
            r.colors@ == bar_colors(),
            r.width == DEFAULT_BAR_WIDTH,
    {
        let mut items: Vec<(String, u64, u64)> = Vec::new();
        let mut total: u64 = 0;
        let mut i: usize = 0;
        while i < disks.len()
            invariant
                i <= disks.len(),
                item_views(items@) == disk_items(disks@.take(i as int)),
                total as nat == disks_total(disks@.take(i as int)),
            decreases disks.len() - i,
        {
            let ghost t = disks@.take(i + 1);
            proof {
                assert(t.drop_last() =~= disks@.take(i as int));
                if first_of_name(disks@, i as int) {
                    assert forall|k: int| 0 <= k < i implies (#[trigger] t[k]).name@ != t[i as int].name@ by {
                        assert(disks@[k].name@ != disks@[i as int].name@);
                    }
                } else {
                    let k = choose|k: int| 0 <= k < i && (#[trigger] disks@[k]).name@ == disks@[i as int].name@;
                    assert(t[k] == disks@[k]);
                }
                assert(first_of_name(t, i as int) == first_of_name(disks@, i as int));
            }
            if !seen_before(disks, i) {
                let d = &disks[i];
                let used: u64 = if d.available <= d.total {
                    d.total - d.available
                } else {
                    0
                };
                proof {
                    assert(rounded_per_mille(used as nat, d.total as nat) <= 1000) by (nonlinear_arith)
                        requires
                            used <= d.total,
                            d.total > 0 ==> rounded_per_mille(used as nat, d.total as nat) == (used
                                * 2000 + d.total) / (2 * d.total as int),
                            d.total == 0 ==> rounded_per_mille(used as nat, d.total as nat) == 0,
                    ;
                }
                let per_mille: u64 = per_mille_of(used, d.total) as u64;
                total = total.saturating_add(d.total);
                let item = (d.mount_point.clone(), used, per_mille);
                proof {
                    assert(item_views(items@.push(item)) =~= item_views(items@).push(
                        (item.0@, used as nat, per_mille as nat),
                    ));
                }
                items.push(item);
            }
            i = i + 1;
        }
        proof {
            assert(disks@.take(disks.len() as int) =~= disks@);
        }
        PercentBar {
            title: String::from_str("Disks"),
            total,
            items,
            colors: default_bar_colors(),
            width: DEFAULT_BAR_WIDTH,
        }
    }
}

} // verus!
