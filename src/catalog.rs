//! Catalog records: a distribution's art template, palettes and pattern, and
//! a catalog that classifies names against its records.
use crate::colors::{art_lines_of, default_color, render_template};
use crate::matcher::{
    all_plain, classify, is_last_match, is_last_occurrence, none_matches, none_occurs, normalize,
    normalized, views,
};
use crate::text::{aligned, indices_below, is_aligned, stripped_width, template_width, tokens_below};
use owo_colors::{AnsiColors, DynColors};
use vstd::prelude::*;

verus! {

/// One distribution: display name, art template with `{N}` colour tokens,
/// ANSI and true-colour palettes, the pattern matched against normalised
/// names, and the template's width on screen, computed once when the record
/// is built.
pub struct DistroRecord {
    pub name: String,
    pub template: String,
    pub ansi: Vec<DynColors>,
    pub hex: Vec<DynColors>,
    pub pattern: String,
    pub stripped_width: usize,
}

/// Rendered art: its lines, each already coloured, and its width on screen.
pub struct Art {
    pub lines: Vec<String>,
    pub width: usize,
}

/// What makes a catalog record unusable.
#[derive(Clone, Copy, Debug, PartialEq, Eq, Structural)]
pub enum CatalogError {
    /// The art template is empty.
    MissingTemplate,
    /// A token names a colour past the end of a palette.
    PaletteIndex,
    /// The art has a margin: no line starts at the left edge, or a line
    /// ends with a space, so the art would not fill its width on screen.
    Misaligned,
}

/// The fault of a record with this template and palettes, if any: an empty
/// template, a token past the end of the ANSI palette or of a non-empty
/// true-colour palette, or art drawn with a margin.
pub open spec fn record_fault(template: Seq<char>, ansi_len: nat, hex_len: nat) -> Option<
    CatalogError,
> {
    if template.len() == 0 {
        Some(CatalogError::MissingTemplate)
    } else if !indices_below(template, ansi_len) || (hex_len > 0 && !indices_below(
        template,
        hex_len,
    )) {
        Some(CatalogError::PaletteIndex)
    } else if !is_aligned(template) {
        Some(CatalogError::Misaligned)
    } else {
        None
    }
}

/// The palette that a colour mode selects: none without colour, the ANSI one
/// for `Some(false)`, the true-colour one for `Some(true)` (the ANSI one when
/// the record has no true colours).
pub open spec fn select_palette(ansi: Seq<DynColors>, hex: Seq<DynColors>, mode: Option<bool>) -> Seq<
    DynColors,
> {
    match mode {
        None => Seq::empty(),
        Some(false) => ansi,
        Some(true) => if hex.len() > 0 {
            hex
        } else {
            ansi
        },
    }
}

/// The first colour of a palette, or the default colour for an empty one.
pub open spec fn primary(palette: Seq<DynColors>) -> DynColors {
    if palette.len() > 0 {
        palette[0]
    } else {
        default_color()
    }
}

impl DistroRecord {
    /// True when the stored width is the template's width.
    pub open spec fn wf(&self) -> bool {
        self.stripped_width == template_width(self.template@)
    }

    /// The palette of this record for a colour mode.
    pub open spec fn palette_spec(&self, mode: Option<bool>) -> Seq<DynColors> {
        select_palette(self.ansi@, self.hex@, mode)
    }

    /// Builds a record. Without an explicit pattern, the pattern is the
    /// normal form of the name; without ANSI colours, the ANSI palette is the
    /// default colour alone.
    pub fn new(
        name: &str,
        template: &str,
        ansi: Vec<DynColors>,
        hex: Vec<DynColors>,
        pattern: Option<&str>,
    ) -> (r: DistroRecord)
        ensures
            r.wf(),
            r.name@ == name@,
            r.template@ == template@,
            r.hex@ == hex@,
            ansi.len() > 0 ==> r.ansi@ == ansi@,
            ansi.len() == 0 ==> r.ansi@ == seq![default_color()],
            r.pattern@ == match pattern {
                Some(p) => p@,
                None => normalized(name@),
            },
    {
        let ansi = if ansi.len() == 0 {
            vec![DynColors::Ansi(AnsiColors::Default)]
        } else {
            ansi
        };
        let pattern = match pattern {
            Some(p) => String::from_str(p),
            None => normalize(name),
        };
        DistroRecord {
            name: String::from_str(name),
            template: String::from_str(template),
            ansi,
            hex,
            pattern,
            stripped_width: stripped_width(template),
        }
    }

    /// The fault of this record, if any (see `record_fault`).
    pub open spec fn fault(&self) -> Option<CatalogError> {
        record_fault(self.template@, self.ansi@.len(), self.hex@.len())
    }

    /// Checks the record: `Err` with its fault when the template is empty, a
    /// token names a colour that a palette lacks, or the art has a margin.
    pub fn validate(&self) -> (r: Result<(), CatalogError>)
        ensures
            r == match self.fault() {
                Some(e) => Err(e),
                None => Ok::<(), CatalogError>(()),
            },
    {
        if self.template.as_str().unicode_len() == 0 {
            return Err(CatalogError::MissingTemplate);
        }
        if !tokens_below(self.template.as_str(), self.ansi.len()) {
            return Err(CatalogError::PaletteIndex);
        }
        if self.hex.len() > 0 && !tokens_below(self.template.as_str(), self.hex.len()) {
            return Err(CatalogError::PaletteIndex);
        }
        if !aligned(self.template.as_str()) {
            return Err(CatalogError::Misaligned);
        }
        Ok(())
    }

    /// The palette for a colour mode (see `select_palette`).
    pub fn colors(&self, mode: Option<bool>) -> (r: Vec<DynColors>)
        ensures
            r@ == self.palette_spec(mode),
    {
        match mode {
            None => {
                let v = Vec::new();
                assert(v@ =~= Seq::<DynColors>::empty());
                v
            },
            Some(false) => copy_palette(&self.ansi),
            Some(true) => if self.hex.len() > 0 {
                copy_palette(&self.hex)
            } else {
                copy_palette(&self.ansi)
            },
        }
    }

    /// The primary colour for a colour mode: the first palette entry, or the
    /// default colour when the palette is empty.
    pub fn color(&self, mode: Option<bool>) -> (r: DynColors)
        ensures
            r == primary(self.palette_spec(mode)),
    {
        let palette = self.colors(mode);
        if palette.len() > 0 {
            palette[0]
        } else {
            DynColors::Ansi(AnsiColors::Default)
        }
    }

    /// The art of this record for a colour mode: the template rendered with
    /// the mode's palette, bold when that palette has colours, and the width
    /// stored in the record.
    pub fn ascii(&self, mode: Option<bool>) -> (r: Art)
        ensures
            r.lines@.map_values(|l: String| l@) == art_lines_of(
                self.template@,
                self.palette_spec(mode),
                self.palette_spec(mode).len() > 0,
            ),
            r.width == self.stripped_width,
    {
        let palette = self.colors(mode);
        let bold = palette.len() > 0;
        let lines = render_template(self.template.as_str(), &palette, bold);
        Art { lines, width: self.stripped_width }
    }
}

/// A copy of a palette.
fn copy_palette(v: &Vec<DynColors>) -> (r: Vec<DynColors>)
    ensures
        r@ == v@,
{
    let mut out: Vec<DynColors> = Vec::new();
    let mut i: usize = 0;
    while i < v.len()
        invariant
            i <= v.len(),
            out@ =~= v@.take(i as int),
        decreases v.len() - i,
    {
        out.push(v[i]);
        proof {
            assert(v@.take(i + 1) =~= v@.take(i as int).push(v@[i as int]));
        }
        i = i + 1;
    }
    proof {
        assert(v@.take(v.len() as int) =~= v@);
    }
    out
}

/// Rendering is repeatable: two renderings of the same record in the same
/// colour mode give the same lines, character for character, and the same
/// width.
pub proof fn lemma_render_repeatable(rec: DistroRecord, mode: Option<bool>, first: Art, second: Art)
    requires
        first.lines@.map_values(|l: String| l@) == art_lines_of(
            rec.template@,
            rec.palette_spec(mode),
            rec.palette_spec(mode).len() > 0,
        ),
        first.width == rec.stripped_width,
        second.lines@.map_values(|l: String| l@) == art_lines_of(
            rec.template@,
            rec.palette_spec(mode),
            rec.palette_spec(mode).len() > 0,
        ),
        second.width == rec.stripped_width,
    ensures
        first.lines@.map_values(|l: String| l@) == second.lines@.map_values(|l: String| l@),
        first.width == second.width,
{
}

/// A list of records, tried in order, and the record used when none matches.
pub struct Catalog {
    pub records: Vec<DistroRecord>,
    pub fallback: DistroRecord,
}

impl Catalog {
    /// The patterns of the records, in order.
    pub open spec fn patterns(&self) -> Seq<Seq<char>> {
        self.records@.map_values(|r: DistroRecord| r.pattern@)
    }

    /// The patterns of the records, in order.
    pub fn pattern_list(&self) -> (r: Vec<String>)
        ensures
            views(r@) == self.patterns(),
    {
        let mut out: Vec<String> = Vec::new();
        let mut i: usize = 0;
        while i < self.records.len()
            invariant
                i <= self.records.len(),
                views(out@) =~= self.patterns().take(i as int),
            decreases self.records.len() - i,
        {
            let p = self.records[i].pattern.clone();
            proof {
                assert(views(out@.push(p)) =~= views(out@).push(p@));
                assert(self.patterns().take(i + 1) =~= self.patterns().take(i as int).push(
                    self.records@[i as int].pattern@,
                ));
            }
            out.push(p);
            i = i + 1;
        }
        proof {
            assert(self.patterns().take(self.records.len() as int) =~= self.patterns());
        }
        out
    }

    /// Checks every record and then the fallback: `Ok` when none has a
    /// fault, else the fault of the first faulty record with its position
    /// (`None` for the fallback).
    pub fn validate(&self) -> (r: Result<(), (Option<usize>, CatalogError)>)
        ensures
            r is Ok <==> (forall|i: int| 0 <= i < self.records@.len() ==> (#[trigger] self.records@[i]).fault() is None) && self.fallback.fault() is None,
            r matches Err((Some(i), e)) ==> i < self.records@.len() && self.records@[i as int].fault() == Some(e)
                && forall|k: int| 0 <= k < i ==> (#[trigger] self.records@[k]).fault() is None,
            r matches Err((None, e)) ==> self.fallback.fault() == Some(e) && forall|k: int| 0 <= k < self.records@.len() ==> (#[trigger] self.records@[k]).fault() is None,
    {
        let mut i: usize = 0;
        while i < self.records.len()
            invariant
                i <= self.records@.len(),
                forall|k: int| 0 <= k < i ==> (#[trigger] self.records@[k]).fault() is None,
            decreases self.records.len() - i,
        {
            match self.records[i].validate() {
                Err(e) => {
                    return Err((Some(i), e));
                },
                Ok(()) => {},
            }
            i = i + 1;
        }
        match self.fallback.validate() {
            Err(e) => Err((None, e)),
            Ok(()) => Ok(()),
        }
    }

    /// The index of the record that `raw` names: the last record whose
    /// pattern matches the normal form of `raw`.
    pub fn classify(&self, raw: &str) -> (r: Option<usize>)
        ensures
            r matches Some(i) ==> is_last_match(self.patterns(), normalized(raw@), i as int),
            all_plain(self.patterns()) ==> (r is None <==> none_matches(
                self.patterns(),
                normalized(raw@),
            )),
            all_plain(self.patterns()) ==> match r {
                Some(i) => is_last_occurrence(self.patterns(), normalized(raw@), i as int),
                None => none_occurs(self.patterns(), normalized(raw@)),
            },
    {
        let patterns = self.pattern_list();
        classify(&patterns, raw)
    }

    /// The record that `raw` names, or the fallback record when none does.
    pub fn search(&self, raw: &str) -> (r: &DistroRecord)
        ensures
            r == self.fallback || exists|i: int|
                is_last_match(self.patterns(), normalized(raw@), i) && r == self.records@[i],
            all_plain(self.patterns()) && none_occurs(self.patterns(), normalized(raw@)) ==> r
                == self.fallback,
            all_plain(self.patterns()) && !none_occurs(self.patterns(), normalized(raw@)) ==> exists|
                i: int,
            |
                is_last_occurrence(self.patterns(), normalized(raw@), i) && r == self.records@[i],
    {
        match self.classify(raw) {
            Some(i) => &self.records[i],
            None => &self.fallback,
        }
    }
}

} // verus!
