//! The colour types of `owo_colors`, and the few styling calls the renderers
//! make through that crate and `onefetch_ascii`.
use owo_colors::{AnsiColors, CssColors, DynColors, OwoColorize, XtermColors};
use vstd::prelude::*;

verus! {

/// `owo_colors::DynColors`, with its variants visible: a palette entry is
/// either one of the sixteen ANSI colours (or the terminal default), a CSS
/// colour, an xterm colour or a 24-bit RGB triple.
#[verifier::external_type_specification]
pub struct ExDynColors(DynColors);

/// `owo_colors::AnsiColors`, with its variants visible.
#[verifier::external_type_specification]
pub struct ExAnsiColors(AnsiColors);

/// `owo_colors::CssColors`, carried through opaquely.
#[verifier::external_type_specification]
#[verifier::external_body]
pub struct ExCssColors(CssColors);

/// `owo_colors::XtermColors`, carried through opaquely.
#[verifier::external_type_specification]
#[verifier::external_body]
pub struct ExXtermColors(XtermColors);

/// The text `s` in bold and in colour `c`, with its escape sequences.
pub uninterp spec fn bold_colored_of(s: Seq<char>, c: DynColors) -> Seq<char>;

/// The text `s` in colour `c`, with its escape sequences.
pub uninterp spec fn colored_of(s: Seq<char>, c: DynColors) -> Seq<char>;

/// The text `s` on a background of colour `c`, with its escape sequences.
pub uninterp spec fn on_colored_of(s: Seq<char>, c: DynColors) -> Seq<char>;

/// The lines that `onefetch_ascii` renders from a template, a palette and the
/// bold flag.
pub uninterp spec fn art_lines_of(template: Seq<char>, palette: Seq<DynColors>, bold: bool) -> Seq<
    Seq<char>,
>;

/// Relies on `OwoColorize::bold` and `OwoColorize::color` of `owo_colors`: the
/// displayed result depends on the text and the colour alone.
#[verifier::external_body]
pub(crate) fn bold_colored(s: &str, c: DynColors) -> (r: String)
    ensures
        r@ == bold_colored_of(s@, c),
{
    format!("{}", s.bold().color(c))
}

/// Relies on `OwoColorize::color` of `owo_colors`: the displayed result
/// depends on the text and the colour alone.
#[verifier::external_body]
pub(crate) fn colored(s: &str, c: DynColors) -> (r: String)
    ensures
        r@ == colored_of(s@, c),
{
    format!("{}", s.color(c))
}

/// Relies on `OwoColorize::on_color` of `owo_colors`: the displayed result
/// depends on the text and the colour alone.
#[verifier::external_body]
pub(crate) fn on_colored(s: &str, c: DynColors) -> (r: String)
    ensures
        r@ == on_colored_of(s@, c),
{
    format!("{}", s.on_color(c))
}

/// Relies on `onefetch_ascii::AsciiArt::new` and its iterator: the template
/// is expanded line by line, each `{N}` switching to `palette[N]` (or the
/// default colour past its end); the lines depend on the arguments alone.
#[verifier::external_body]
pub(crate) fn render_template(template: &str, palette: &Vec<DynColors>, bold: bool) -> (r: Vec<
    String,
>)
    ensures
        r@.map_values(|l: String| l@) == art_lines_of(template@, palette@, bold),
{
    onefetch_ascii::AsciiArt::new(template, palette.as_slice(), bold).collect()
}

/// The terminal's default colour, used where no colour is chosen.
pub open spec fn default_color() -> DynColors {
    DynColors::Ansi(AnsiColors::Default)
}

} // verus!
