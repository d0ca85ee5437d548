//! Line items: blocks of text lines shown beside the art, each rendered in
//! one text colour.
use crate::bar::PercentBar;
use crate::colors::{bold_colored, bold_colored_of, colored, colored_of, default_color, on_colored, on_colored_of};
use crate::text::{push_char, repeat_char, repeated, spaces, space_string};
use owo_colors::{AnsiColors, DynColors};
use vstd::prelude::*;

verus! {

/// The number of seconds in a minute.
pub const SECONDS_PER_MINUTE: u64 = 60;

/// The text that `humantime` gives for a number of seconds.
pub uninterp spec fn duration_text_of(secs: nat) -> Seq<char>;

/// The text that `byte_unit` gives for a number of bytes, in binary units.
pub uninterp spec fn byte_text_of(bytes: nat) -> Seq<char>;

/// Relies on `humantime::format_duration`: the text depends on the number of
/// seconds alone.
#[verifier::external_body]
fn duration_text(secs: u64) -> (r: String)
    ensures
        r@ == duration_text_of(secs as nat),
{
    humantime::format_duration(std::time::Duration::from_secs(secs)).to_string()
}

/// Relies on `byte_unit::Byte::get_appropriate_unit` with binary multiples:
/// the text depends on the number of bytes alone.
#[verifier::external_body]
fn byte_text(bytes: u64) -> (r: String)
    ensures
        r@ == byte_text_of(bytes as nat),
{
    byte_unit::Byte::from_bytes(bytes as u128).get_appropriate_unit(true).to_string()
}

/// A labelled line: the label in bold and in colour, a colon, the value.
pub open spec fn labelled(label: Seq<char>, value: Seq<char>, color: DynColors) -> Seq<char> {
    bold_colored_of(label, color) + seq![':', ' '] + value
}

fn labelled_line(label: &str, value: &str, color: DynColors) -> (r: String)
    ensures
        r@ == labelled(label@, value@, color),
{
    let mut out = bold_colored(label, color);
    push_char(&mut out, ':');
    push_char(&mut out, ' ');
    out.append(value);
    out
}

/// The labelled line of an optional value: one line when present, none when
/// absent.
pub open spec fn optional_line(label: Seq<char>, value: Option<String>, color: DynColors) -> Seq<
    Seq<char>,
> {
    match value {
        Some(v) => seq![labelled(label, v@, color)],
        None => Seq::empty(),
    }
}

fn push_optional(lines: &mut Vec<String>, label: &str, value: &Option<String>, color: DynColors)
    ensures
        final(lines)@.map_values(|l: String| l@) == old(lines)@.map_values(|l: String| l@)
            + optional_line(label@, *value, color),
{
    let ghost before = lines@.map_values(|l: String| l@);
    match value {
        Some(v) => {
            let l = labelled_line(label, v.as_str(), color);
            lines.push(l);
            assert(lines@.map_values(|l: String| l@) =~= before + optional_line(label@, *value, color));
        },
        None => {
            assert(lines@.map_values(|l: String| l@) =~= before + optional_line(label@, *value, color));
        },
    }
}

/// User and host name, with a rule underneath.
pub struct UserInfo {
    pub user: String,
    pub host: String,
}

impl UserInfo {
    /// Picks the user and host names: the user of the process, else the
    /// user of the environment, else `unknown`; the host name, else
    /// `localhost`.
    pub fn new(process_user: Option<String>, env_user: Option<String>, host: Option<String>) -> (r:
        UserInfo)
        ensures
            r.user@ == match process_user {
                Some(u) => u@,
                None => match env_user {
                    Some(u) => u@,
                    None => "unknown"@,
                },
            },
            r.host@ == match host {
                Some(h) => h@,
                None => "localhost"@,
            },
    {
        let user = match process_user {
            Some(u) => u,
            None => match env_user {
                Some(u) => u,
                None => String::from_str("unknown"),
            },
        };
        let host = match host {
            Some(h) => h,
            None => String::from_str("localhost"),
        };
        UserInfo { user, host }
    }

    /// `user ~ host` in bold, then a rule of dashes as long as that line.
    pub open spec fn lines_spec(&self, color: DynColors) -> Seq<Seq<char>> {
        seq![
            bold_colored_of(self.user@, color) + seq![' ', '~', ' '] + bold_colored_of(self.host@, color),
            colored_of(repeated('-', self.user@.len() + self.host@.len() + 3), default_color()),
        ]
    }

    /// The lines of the block in text colour `color`.
    pub fn render(&self, color: DynColors) -> (r: Vec<String>)
        ensures
            r@.map_values(|l: String| l@) == self.lines_spec(color),
    {
        let mut first = bold_colored(self.user.as_str(), color);
        push_char(&mut first, ' ');
        push_char(&mut first, '~');
        push_char(&mut first, ' ');
        let host = bold_colored(self.host.as_str(), color);
        first.append(host.as_str());
        assert(first@ =~= bold_colored_of(self.user@, color) + seq![' ', '~', ' '] + bold_colored_of(
            self.host@,
            color,
        ));
        let mut dashes = repeat_char('-', self.user.as_str().unicode_len());
        let more = repeat_char('-', self.host.as_str().unicode_len());
        dashes.append(more.as_str());
        let last = repeat_char('-', 3);
        dashes.append(last.as_str());
        assert(dashes@ =~= repeated('-', self.user@.len() + self.host@.len() + 3));
        let second = colored(dashes.as_str(), DynColors::Ansi(AnsiColors::Default));
        let mut r: Vec<String> = Vec::new();
        r.push(first);
        r.push(second);
        assert(r@.map_values(|l: String| l@) =~= self.lines_spec(color));
        r
    }
}

/// Distribution name, kernel version and terminal type.
pub struct HostInfo {
    pub distro: String,
    pub kernel: Option<String>,
    pub terminal: Option<String>,
}

impl HostInfo {
    /// The host facts: the distribution's name, else its identifier.
    pub fn new(
        name: Option<String>,
        distribution_id: String,
        kernel: Option<String>,
        terminal: Option<String>,
    ) -> (r: HostInfo)
        ensures
            r.distro@ == match name {
                Some(n) => n@,
                None => distribution_id@,
            },
            r.kernel == kernel,
            r.terminal == terminal,
    {
        let distro = match name {
            Some(n) => n,
            None => distribution_id,
        };
        HostInfo { distro, kernel, terminal }
    }

    /// One labelled line per fact; absent facts give no line.
    pub open spec fn lines_spec(&self, color: DynColors) -> Seq<Seq<char>> {
        seq![labelled("Distro"@, self.distro@, color)] + optional_line("Kernel"@, self.kernel, color)
            + optional_line("Terminal"@, self.terminal, color)
    }

    /// The lines of the block in text colour `color`.
    pub fn render(&self, color: DynColors) -> (r: Vec<String>)
        ensures
            r@.map_values(|l: String| l@) == self.lines_spec(color),
    {
        let mut lines: Vec<String> = Vec::new();
        lines.push(labelled_line("Distro", self.distro.as_str(), color));
        assert(lines@.map_values(|l: String| l@) =~= seq![labelled("Distro"@, self.distro@, color)]);
        push_optional(&mut lines, "Kernel", &self.kernel, color);
        push_optional(&mut lines, "Terminal", &self.terminal, color);
        lines
    }
}

/// Time since boot, processor, load average and memory use.
pub struct SystemInfo {
    pub last_boot: String,
    pub cpu: Option<String>,
    pub avg_load: String,
    pub memory: Option<String>,
}

/// When the machine booted, from its uptime rounded down to whole minutes:
/// `less than one minute ago` up to a minute, else the duration and `ago`.
pub open spec fn last_boot_text(uptime: nat) -> Seq<char> {
    let rounded = uptime - uptime % 60;
    if rounded > 60 {
        duration_text_of(rounded as nat) + " ago"@
    } else {
        "less than one minute ago"@
    }
}

/// Memory use in tenths of a percent, rounded to the nearest.
pub open spec fn memory_per_mille(used: nat, total: nat) -> nat {
    crate::bar::rounded_per_mille(used, total)
}

/// Memory use as `used / total (p %)`; absent when nothing is used or the
/// total is unknown.
pub open spec fn memory_text(used: nat, total: nat) -> Option<Seq<char>> {
    if used == 0 || total == 0 {
        None
    } else {
        Some(
            byte_text_of(used) + " / "@ + byte_text_of(total) + seq![' ', '('] + crate::bar::percent_text(
                memory_per_mille(used, total),
            ) + seq![' ', '%', ')'],
        )
    }
}

impl SystemInfo {
    /// The system facts from plain values: uptime in seconds, the brands of
    /// the processors (the first is shown), the load average already written
    /// out, and the memory used and available in bytes.
    pub fn new(uptime: u64, cpu_brands: Vec<String>, avg_load: String, used_mem: u64, total_mem: u64) -> (r:
        SystemInfo)
        ensures
            r.last_boot@ == last_boot_text(uptime as nat),
            r.cpu == (if cpu_brands.len() > 0 {
                Some(cpu_brands[0])
            } else {
                None
            }),
            r.avg_load == avg_load,
            match memory_text(used_mem as nat, total_mem as nat) {
                Some(t) => r.memory matches Some(m) && m@ == t,
                None => r.memory is None,
            },
    {
        let rounded = uptime - uptime % SECONDS_PER_MINUTE;
        let last_boot = if rounded > SECONDS_PER_MINUTE {
            let mut t = duration_text(rounded);
            t.append(" ago");
            t
        } else {
            String::from_str("less than one minute ago")
        };
        let cpu = if cpu_brands.len() > 0 {
            Some(cpu_brands[0].clone())
        } else {
            None
        };
        let memory = if used_mem == 0 || total_mem == 0 {
            None
        } else {
            let per_mille: u128 = crate::bar::per_mille_of(used_mem, total_mem);
            let mut t = byte_text(used_mem);
            t.append(" / ");
            let total_text = byte_text(total_mem);
            t.append(total_text.as_str());
            push_char(&mut t, ' ');
            push_char(&mut t, '(');
            let p = crate::bar::percent_string(per_mille);
            t.append(p.as_str());
            push_char(&mut t, ' ');
            push_char(&mut t, '%');
            push_char(&mut t, ')');
            Some(t)
        };
        SystemInfo { last_boot, cpu, avg_load, memory }
    }

    /// One labelled line per fact; absent facts give no line.
    pub open spec fn lines_spec(&self, color: DynColors) -> Seq<Seq<char>> {
        seq![labelled("Last boot"@, self.last_boot@, color)] + optional_line("Cpu"@, self.cpu, color)
            + seq![labelled("Avg load"@, self.avg_load@, color)] + optional_line(
            "Memory"@,
            self.memory,
            color,
        )
    }

    /// The lines of the block in text colour `color`.
    pub fn render(&self, color: DynColors) -> (r: Vec<String>)
        ensures
            r@.map_values(|l: String| l@) == self.lines_spec(color),
    {
        let mut lines: Vec<String> = Vec::new();
        lines.push(labelled_line("Last boot", self.last_boot.as_str(), color));
        let ghost first = lines@.map_values(|l: String| l@);
        assert(first =~= seq![labelled("Last boot"@, self.last_boot@, color)]);
        push_optional(&mut lines, "Cpu", &self.cpu, color);
        let ghost second = lines@.map_values(|l: String| l@);
        let l = labelled_line("Avg load", self.avg_load.as_str(), color);
        lines.push(l);
        assert(lines@.map_values(|l: String| l@) =~= second + seq![
            labelled("Avg load"@, self.avg_load@, color),
        ]);
        push_optional(&mut lines, "Memory", &self.memory, color);
        lines
    }
}

/// A row of colour swatches.
pub struct ColorBar(pub Vec<DynColors>);

/// The swatches of the default colour bar: black, then the seven colours of
/// the ANSI palette from red to white.
pub open spec fn swatch_colors() -> Seq<DynColors> {
    seq![
        DynColors::Ansi(AnsiColors::Black),
        DynColors::Ansi(AnsiColors::Red),
        DynColors::Ansi(AnsiColors::Green),
        DynColors::Ansi(AnsiColors::Yellow),
        DynColors::Ansi(AnsiColors::Blue),
        DynColors::Ansi(AnsiColors::Magenta),
        DynColors::Ansi(AnsiColors::Cyan),
        DynColors::Ansi(AnsiColors::White),
    ]
}

/// The swatches of the first `n` colours, three cells each.
pub open spec fn swatches(colors: Seq<DynColors>, n: nat) -> Seq<char>
    decreases n,
{
    if n == 0 {
        Seq::empty()
    } else {
        swatches(colors, (n - 1) as nat) + on_colored_of(spaces(3), colors[n - 1])
    }
}

impl Default for ColorBar {
    /// The default colour bar: black and the seven ANSI colours.
    fn default() -> (r: ColorBar)
        ensures
            r.0@ == swatch_colors(),
    {
        ColorBar::default_bar()
    }
}

impl ColorBar {
    /// The default colour bar.
    pub fn default_bar() -> (r: ColorBar)
        ensures
            r.0@ == swatch_colors(),
    {
        let v = vec![
            DynColors::Ansi(AnsiColors::Black),
            DynColors::Ansi(AnsiColors::Red),
            DynColors::Ansi(AnsiColors::Green),
            DynColors::Ansi(AnsiColors::Yellow),
            DynColors::Ansi(AnsiColors::Blue),
            DynColors::Ansi(AnsiColors::Magenta),
            DynColors::Ansi(AnsiColors::Cyan),
            DynColors::Ansi(AnsiColors::White),
        ];
        assert(v@ =~= swatch_colors());
        ColorBar(v)
    }

    /// An empty line, then one swatch per colour.
    pub open spec fn lines_spec(&self) -> Seq<Seq<char>> {
        seq![Seq::empty(), swatches(self.0@, self.0@.len())]
    }

    /// The lines of the bar; it keeps its own colours whatever the text
    /// colour.
    pub fn render(&self, color: DynColors) -> (r: Vec<String>)
        ensures
            r@.map_values(|l: String| l@) == self.lines_spec(),
    {
        let mut buf = String::new();
        let cell = space_string(3);
        let mut i: usize = 0;
        while i < self.0.len()
            invariant
                i <= self.0@.len(),
                cell@ == spaces(3),
                buf@ == swatches(self.0@, i as nat),
            decreases self.0@.len() - i,
        {
            let s = on_colored(cell.as_str(), self.0[i]);
            buf.append(s.as_str());
            i = i + 1;
        }
        let mut r: Vec<String> = Vec::new();
        r.push(String::new());
        r.push(buf);
        assert(r@.map_values(|l: String| l@) =~= self.lines_spec());
        r
    }
}

} // verus!
