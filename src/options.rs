//! Choices made on the command line: colour mode, when to show the logo, and
//! an explicit text colour.
use owo_colors::{AnsiColors, DynColors};
use vstd::prelude::*;

verus! {

/// How the art is coloured.
#[derive(Clone, Copy, Debug, PartialEq, Eq, Structural)]
pub enum ColorMode {
    HEX,
    ANSI,
    NONE,
}

impl ColorMode {
    /// The colour-mode flag of the renderer: true colour, ANSI, or none.
    pub fn mode(&self) -> (r: Option<bool>)
        ensures
            r == match self {
                ColorMode::HEX => Some(true),
                ColorMode::ANSI => Some(false),
                ColorMode::NONE => None::<bool>,
            },
    {
        match self {
            ColorMode::HEX => Some(true),
            ColorMode::ANSI => Some(false),
            ColorMode::NONE => None,
        }
    }
}

/// When the logo is shown.
#[derive(Clone, Copy, Debug, PartialEq, Eq, Structural)]
pub enum ShowLogo {
    Always,
    Never,
    Auto,
}

/// Terminal width in columns above which `Auto` shows the logo.
pub const AUTO_LOGO_MIN_WIDTH: usize = 95;

impl ShowLogo {
    /// Whether to show the logo, given the terminal's width when known:
    /// `Auto` shows it only on a terminal wider than the threshold.
    pub fn should_show(&self, term_width: Option<usize>) -> (r: bool)
        ensures
            r == match self {
                ShowLogo::Always => true,
                ShowLogo::Never => false,
                ShowLogo::Auto => term_width matches Some(w) && w > AUTO_LOGO_MIN_WIDTH,
            },
    {
        match self {
            ShowLogo::Always => true,
            ShowLogo::Never => false,
            ShowLogo::Auto => match term_width {
                Some(w) => w > AUTO_LOGO_MIN_WIDTH,
                None => false,
            },
        }
    }
}

/// The value of a hexadecimal digit of either case.
pub open spec fn hex_value(c: char) -> Option<nat> {
    if '0' <= c && c <= '9' {
        Some((c as nat - '0' as nat) as nat)
    } else if 'a' <= c && c <= 'f' {
        Some((c as nat - 'a' as nat + 10) as nat)
    } else if 'A' <= c && c <= 'F' {
        Some((c as nat - 'A' as nat + 10) as nat)
    } else {
        None
    }
}

/// A two-character field read as a base-16 byte, as `u8::from_str_radix`
/// reads it: two digits, or a plus sign and one digit.
pub open spec fn hex_field(a: char, b: char) -> Option<u8> {
    if a == '+' {
        match hex_value(b) {
            Some(v) => Some(v as u8),
            None => None,
        }
    } else {
        match (hex_value(a), hex_value(b)) {
            (Some(x), Some(y)) => Some((16 * x + y) as u8),
            _ => None,
        }
    }
}

/// The ANSI colour that a colour name stands for.
pub open spec fn named_color(s: Seq<char>) -> Option<AnsiColors> {
    if s == "black"@ {
        Some(AnsiColors::Black)
    } else if s == "red"@ {
        Some(AnsiColors::Red)
    } else if s == "green"@ {
        Some(AnsiColors::Green)
    } else if s == "yellow"@ {
        Some(AnsiColors::Yellow)
    } else if s == "blue"@ {
        Some(AnsiColors::Blue)
    } else if s == "magenta"@ || s == "purple"@ {
        Some(AnsiColors::Magenta)
    } else if s == "cyan"@ {
        Some(AnsiColors::Cyan)
    } else if s == "white"@ {
        Some(AnsiColors::White)
    } else if s == "bright black"@ {
        Some(AnsiColors::BrightBlack)
    } else if s == "bright red"@ {
        Some(AnsiColors::BrightRed)
    } else if s == "bright green"@ {
        Some(AnsiColors::BrightGreen)
    } else if s == "bright yellow"@ {
        Some(AnsiColors::BrightYellow)
    } else if s == "bright blue"@ {
        Some(AnsiColors::BrightBlue)
    } else if s == "bright magenta"@ {
        Some(AnsiColors::BrightMagenta)
    } else if s == "bright cyan"@ {
        Some(AnsiColors::BrightCyan)
    } else if s == "bright white"@ {
        Some(AnsiColors::BrightWhite)
    } else {
        None
    }
}

/// The colour that an ASCII colour string stands for: `#rrggbb` for a
/// true colour, or the name of an ANSI colour.
pub open spec fn color_from_text(s: Seq<char>) -> Option<DynColors> {
    if s.len() == 0 {
        None
    } else if s[0] == '#' {
        if s.len() == 7 {
            match (hex_field(s[1], s[2]), hex_field(s[3], s[4]), hex_field(s[5], s[6])) {
                (Some(r), Some(g), Some(b)) => Some(DynColors::Rgb(r, g, b)),
                _ => None,
            }
        } else {
            None
        }
    } else {
        match named_color(s) {
            Some(c) => Some(DynColors::Ansi(c)),
            None => None,
        }
    }
}

/// Relies on `FromStr for owo_colors::DynColors`: `#` and six hexadecimal
/// digits give an RGB colour, the sixteen ANSI names (and `purple`) give an
/// ANSI colour, anything else fails. Only for ASCII text, which the parser
/// slices by bytes.
#[verifier::external_body]
fn parse_dyn_color(s: &str) -> (r: Option<DynColors>)
    requires
        s.is_ascii(),
    ensures
        r == color_from_text(s@),
{
    s.parse::<DynColors>().ok()
}

/// The text colour that the user asked for: `#rrggbb` or an ANSI colour
/// name; `None` for anything else, which the caller reports as a usage
/// error.
pub fn parse_color(s: &str) -> (r: Option<DynColors>)
    ensures
        r == (if s.is_ascii() {
            color_from_text(s@)
        } else {
            None
        }),
{
    if s.is_ascii() {
        parse_dyn_color(s)
    } else {
        None
    }
}

} // verus!
