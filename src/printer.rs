//! The compositor: art (or nothing) side by side with the text lines of the
//! queued line items, written out as one buffer.
use crate::bar::PercentBar;
use crate::catalog::Art;
use crate::colors::{art_lines_of, default_color};
use crate::distros::Distro;
use crate::info::{ColorBar, HostInfo, SystemInfo, UserInfo};
use crate::text::{push_char, space_string, spaces, template_width};
use image::DynamicImage;
use owo_colors::{AnsiColors, DynColors};
use vstd::prelude::*;

verus! {

/// The margin before the art and between the art and the text.
pub open spec fn margin() -> Seq<char> {
    seq![' ', ' ']
}

/// Row `i` of art beside text: art line and text line when both exist, the
/// art line alone past the text, and blank cells as wide as the art before
/// the text past the art.
pub open spec fn row(art: Seq<Seq<char>>, info: Seq<Seq<char>>, width: nat, i: int) -> Seq<char> {
    if i < art.len() && i < info.len() {
        margin() + art[i] + margin() + info[i]
    } else if i < art.len() {
        margin() + art[i]
    } else {
        margin() + spaces(width) + margin() + info[i]
    }
}

/// All rows of art beside text: as many as the longer of the two.
pub open spec fn rows(art: Seq<Seq<char>>, info: Seq<Seq<char>>, width: nat) -> Seq<Seq<char>> {
    let n = if art.len() >= info.len() {
        art.len()
    } else {
        info.len()
    };
    Seq::new(n, |i: int| row(art, info, width, i))
}

/// Lines written out one after another, each ended by a newline.
pub open spec fn joined(lines: Seq<Seq<char>>) -> Seq<char>
    decreases lines.len(),
{
    if lines.len() == 0 {
        Seq::empty()
    } else {
        joined(lines.drop_last()) + lines.last().push('\n')
    }
}

/// The views of a list of strings.
pub open spec fn line_views(v: Seq<String>) -> Seq<Seq<char>> {
    v.map_values(|l: String| l@)
}

/// Places `art` beside `info`, row by row (see `row`); `width` is the art's
/// width on screen.
pub fn interleave(art: &Vec<String>, width: usize, info: &Vec<String>) -> (r: Vec<String>)
    ensures
        r.len() == if art.len() >= info.len() {
            art.len()
        } else {
            info.len()
        },
        line_views(r@) == rows(line_views(art@), line_views(info@), width as nat),
{
    let ghost a = line_views(art@);
    let ghost b = line_views(info@);
    let n = if art.len() >= info.len() {
        art.len()
    } else {
        info.len()
    };
    let blank = space_string(width);
    let mut out: Vec<String> = Vec::new();
    let mut i: usize = 0;
    while i < n
        invariant
            a == line_views(art@),
            b == line_views(info@),
            n == (if art.len() >= info.len() {
                art.len()
            } else {
                info.len()
            }),
            blank@ == spaces(width as nat),
            i <= n,
            out@.len() == i,
            forall|k: int| 0 <= k < i ==> (#[trigger] out@[k])@ == row(a, b, width as nat, k),
        decreases n - i,
    {
        let mut line = String::new();
        push_char(&mut line, ' ');
        push_char(&mut line, ' ');
        if i < art.len() {
            line.append(art[i].as_str());
            if i < info.len() {
                push_char(&mut line, ' ');
                push_char(&mut line, ' ');
                line.append(info[i].as_str());
            }
        } else {
            line.append(blank.as_str());
            push_char(&mut line, ' ');
            push_char(&mut line, ' ');
            line.append(info[i].as_str());
        }
        assert(line@ =~= row(a, b, width as nat, i as int));
        out.push(line);
        i = i + 1;
    }
    assert(line_views(out@) =~= rows(a, b, width as nat));
    out
}

/// Writes `lines` out, each followed by a newline.
pub fn join_lines(lines: &Vec<String>) -> (r: String)
    ensures
        r@ == joined(line_views(lines@)),
{
    let mut out = String::new();
    let mut i: usize = 0;
    while i < lines.len()
        invariant
            i <= lines.len(),
            out@ == joined(line_views(lines@).take(i as int)),
        decreases lines.len() - i,
    {
        out.append(lines[i].as_str());
        push_char(&mut out, '\n');
        proof {
            let t = line_views(lines@).take(i + 1);
            assert(t.drop_last() =~= line_views(lines@).take(i as int));
        }
        i = i + 1;
    }
    assert(line_views(lines@).take(lines.len() as int) =~= line_views(lines@));
    out
}

/// Beside any art there are exactly as many rows as the longer of the art
/// and the text, and each row starts, after the margin, with either its own
/// art line or blank cells exactly as wide as the art.
pub proof fn lemma_rows_aligned(art: Seq<Seq<char>>, info: Seq<Seq<char>>, width: nat)
    ensures
        rows(art, info, width).len() == if art.len() >= info.len() {
            art.len()
        } else {
            info.len()
        },
        forall|i: int|
            0 <= i < art.len() ==> (#[trigger] rows(art, info, width)[i]).subrange(
                0,
                2 + art[i].len() as int,
            ) == margin() + art[i],
        forall|i: int|
            art.len() <= i < info.len() ==> (#[trigger] rows(art, info, width)[i]).subrange(
                0,
                2 + width as int,
            ) == margin() + spaces(width),
        forall|i: int|
            art.len() <= i < info.len() ==> (#[trigger] rows(art, info, width)[i]).subrange(
                4 + width as int,
                4 + width as int + info[i].len() as int,
            ) == info[i],
{
    assert forall|i: int| 0 <= i < art.len() implies (#[trigger] rows(art, info, width)[i]).subrange(
        0,
        2 + art[i].len() as int,
    ) == margin() + art[i] by {
        assert(rows(art, info, width)[i].subrange(0, 2 + art[i].len() as int) =~= margin() + art[i]);
    }
    assert forall|i: int| art.len() <= i < info.len() implies (#[trigger] rows(
        art,
        info,
        width,
    )[i]).subrange(0, 2 + width as int) == margin() + spaces(width) by {
        assert(rows(art, info, width)[i].subrange(0, 2 + width as int) =~= margin() + spaces(width));
    }
    assert forall|i: int| art.len() <= i < info.len() implies (#[trigger] rows(
        art,
        info,
        width,
    )[i]).subrange(4 + width as int, 4 + width as int + info[i].len() as int) == info[i] by {
        assert(rows(art, info, width)[i].subrange(4 + width as int, 4 + width as int + info[i].len() as int) =~= info[i]);
    }
}

/// A block of text lines shown beside the art.
pub enum Info {
    User(UserInfo),
    Host(HostInfo),
    System(SystemInfo),
    Bar(PercentBar),
    Colors(ColorBar),
    /// Lines rendered elsewhere, shown as they are.
    Lines(Vec<String>),
}

impl Info {
    /// The lines of the block in text colour `color`.
    pub open spec fn lines_spec(&self, color: DynColors) -> Seq<Seq<char>> {
        match self {
            Info::User(u) => u.lines_spec(color),
            Info::Host(h) => h.lines_spec(color),
            Info::System(s) => s.lines_spec(color),
            Info::Bar(b) => b.lines_spec(color),
            Info::Colors(c) => c.lines_spec(),
            Info::Lines(l) => line_views(l@),
        }
    }

    /// The lines of the block in text colour `color`.
    pub fn render(&self, color: DynColors) -> (r: Vec<String>)
        ensures
            line_views(r@) == self.lines_spec(color),
    {
        match self {
            Info::User(u) => u.render(color),
            Info::Host(h) => h.render(color),
            Info::System(s) => s.render(color),
            Info::Bar(b) => b.render(color),
            Info::Colors(c) => c.render(color),
            Info::Lines(l) => copy_lines(l),
        }
    }
}

fn copy_lines(v: &Vec<String>) -> (r: Vec<String>)
    ensures
        line_views(r@) == line_views(v@),
{
    let mut out: Vec<String> = Vec::new();
    let mut i: usize = 0;
    while i < v.len()
        invariant
            i <= v.len(),
            line_views(out@) =~= line_views(v@).take(i as int),
        decreases v.len() - i,
    {
        let l = v[i].clone();
        proof {
            assert(line_views(out@.push(l)) =~= line_views(out@).push(l@));
            assert(line_views(v@).take(i + 1) =~= line_views(v@).take(i as int).push(v@[i as int]@));
        }
        out.push(l);
        i = i + 1;
    }
    assert(line_views(v@).take(v.len() as int) =~= line_views(v@));
    out
}

/// The lines of all blocks, in order, each in text colour `color`.
pub open spec fn all_lines(info: Seq<Info>, color: DynColors) -> Seq<Seq<char>>
    decreases info.len(),
{
    if info.len() == 0 {
        Seq::empty()
    } else {
        all_lines(info.drop_last(), color) + info.last().lines_spec(color)
    }
}

/// `image::DynamicImage`, carried through opaquely: a decoded picture that a
/// terminal image protocol may show in place of the art.
#[verifier::external_type_specification]
#[verifier::external_body]
pub struct ExDynamicImage(DynamicImage);

/// A fetch printer: blocks of text, an optional distribution or art to show
/// beside them, an optional picture to show in their place where the
/// terminal can, a colour mode for the art and an optional text colour.
pub struct Printer {
    pub color: Option<DynColors>,
    pub color_mode: Option<bool>,
    pub info: Vec<Info>,
    pub distro: Option<Distro>,
    pub ascii: Option<Art>,
    pub image: Option<DynamicImage>,
}

impl Default for Printer {
    /// A printer with nothing queued and no colour mode.
    fn default() -> (r: Printer)
        ensures
            r.color_mode is None,
            r.color is None,
            r.info@.len() == 0,
            r.distro is None,
            r.ascii is None,
            r.image is None,
    {
        Printer::new(None)
    }
}

impl Printer {
    /// A printer with nothing queued yet.
    pub fn new(color_mode: Option<bool>) -> (r: Printer)
        ensures
            r.color_mode == color_mode,
            r.color is None,
            r.info@.len() == 0,
            r.distro is None,
            r.ascii is None,
            r.image is None,
    {
        Printer { color: None, color_mode, info: Vec::new(), distro: None, ascii: None, image: None }
    }

    /// Shows `image` in place of the art where the terminal can show
    /// pictures.
    pub fn with_image(&mut self, image: DynamicImage)
        ensures
            final(self).image == Some(image),
            final(self).distro == old(self).distro,
            final(self).color == old(self).color,
            final(self).color_mode == old(self).color_mode,
            final(self).info@ == old(self).info@,
            final(self).ascii == old(self).ascii,
    {
        self.image = Some(image);
    }

    /// Shows the art of `distro` beside the text.
    pub fn with_distro(&mut self, distro: Distro)
        ensures
            final(self).distro == Some(distro),
            final(self).color == old(self).color,
            final(self).color_mode == old(self).color_mode,
            final(self).info@ == old(self).info@,
            final(self).ascii == old(self).ascii,
            final(self).image == old(self).image,
    {
        self.distro = Some(distro);
    }

    /// Shows `art` beside the text, in place of a distribution's art.
    pub fn with_ascii(&mut self, art: Art)
        ensures
            final(self).ascii == Some(art),
            final(self).distro == old(self).distro,
            final(self).color == old(self).color,
            final(self).color_mode == old(self).color_mode,
            final(self).info@ == old(self).info@,
            final(self).image == old(self).image,
    {
        self.ascii = Some(art);
    }

    /// Sets the text colour.
    pub fn with_color(&mut self, color: DynColors)
        ensures
            final(self).color == Some(color),
            final(self).distro == old(self).distro,
            final(self).color_mode == old(self).color_mode,
            final(self).info@ == old(self).info@,
            final(self).ascii == old(self).ascii,
            final(self).image == old(self).image,
    {
        self.color = Some(color);
    }

    /// Queues a block of text after the ones already queued.
    pub fn with_info(&mut self, info: Info)
        ensures
            final(self).info@ == old(self).info@.push(info),
            final(self).color == old(self).color,
            final(self).distro == old(self).distro,
            final(self).color_mode == old(self).color_mode,
            final(self).ascii == old(self).ascii,
            final(self).image == old(self).image,
    {
        self.info.push(info);
    }

    /// The text colour: the one set, else the distribution's primary colour
    /// in the printer's colour mode, else the default colour.
    pub open spec fn main_color_spec(&self) -> DynColors {
        match self.color {
            Some(c) => c,
            None => match self.distro {
                Some(d) => crate::catalog::primary(d.palette_spec(self.color_mode)),
                None => default_color(),
            },
        }
    }

    /// The text colour (see `main_color_spec`).
    pub fn main_color(&self) -> (r: DynColors)
        ensures
            r == self.main_color_spec(),
    {
        match self.color {
            Some(c) => c,
            None => match self.distro {
                Some(d) => d.color(self.color_mode),
                None => DynColors::Ansi(AnsiColors::Default),
            },
        }
    }

    /// The lines of every queued block in order, all in the text colour.
    pub fn info_lines(&self) -> (r: Vec<String>)
        ensures
            line_views(r@) == all_lines(self.info@, self.main_color_spec()),
    {
        let color = self.main_color();
        let mut out: Vec<String> = Vec::new();
        let mut i: usize = 0;
        while i < self.info.len()
            invariant
                i <= self.info.len(),
                color == self.main_color_spec(),
                line_views(out@) == all_lines(self.info@.take(i as int), color),
            decreases self.info.len() - i,
        {
            let mut lines = self.info[i].render(color);
            let ghost before = line_views(out@);
            out.append(&mut lines);
            proof {
                assert(self.info@.take(i + 1).drop_last() =~= self.info@.take(i as int));
                assert(line_views(out@) =~= before + self.info@[i as int].lines_spec(color));
            }
            i = i + 1;
        }
        assert(self.info@.take(self.info.len() as int) =~= self.info@);
        out
    }

    /// The whole output: with art (the one given, else the distribution's in
    /// the printer's colour mode), the art beside the text lines, row by row;
    /// without, the text lines alone. Every row ends with a newline.
    pub open spec fn output_spec(&self, art: Option<(Seq<Seq<char>>, nat)>) -> Seq<char> {
        let text = all_lines(self.info@, self.main_color_spec());
        match art {
            Some((lines, width)) => joined(rows(lines, text, width)),
            None => joined(text),
        }
    }

    /// The art that the printer shows, as lines and width, if any.
    pub open spec fn art_spec(&self) -> Option<(Seq<Seq<char>>, nat)> {
        match self.ascii {
            Some(a) => Some((line_views(a.lines@), a.width as nat)),
            None => match self.distro {
                Some(d) => Some(
                    (
                        art_lines_of(
                            d.template_spec(),
                            d.palette_spec(self.color_mode),
                            d.palette_spec(self.color_mode).len() > 0,
                        ),
                        template_width(d.template_spec()),
                    ),
                ),
                None => None,
            },
        }
    }

    /// The text to print without a picture: the art beside the text lines,
    /// or the text lines alone (see `output_spec`).
    pub fn render(&self) -> (r: String)
        ensures
            r@ == self.output_spec(self.art_spec()),
    {
        let lines = self.info_lines();
        match &self.ascii {
            Some(a) => {
                let rows = interleave(&a.lines, a.width, &lines);
                join_lines(&rows)
            },
            None => match self.distro {
                Some(d) => {
                    let a = d.ascii(self.color_mode);
                    let rows = interleave(&a.lines, a.width, &lines);
                    join_lines(&rows)
                },
                None => join_lines(&lines),
            },
        }
    }
}

} // verus!
