//! Normalisation of free-form distribution names and classification of a
//! name against a list of regex patterns.
use crate::text::{chars_of, push_char};
use vstd::prelude::*;

verus! {

/// Unicode white space, as the `\s` class of the `regex` crate reads it.
pub open spec fn is_space(c: char) -> bool {
    ('\t' <= c && c <= '\r') || c == ' ' || c == '\u{85}' || c == '\u{a0}' || c == '\u{1680}'
        || ('\u{2000}' <= c && c <= '\u{200a}') || c == '\u{2028}' || c == '\u{2029}' || c
        == '\u{202f}' || c == '\u{205f}' || c == '\u{3000}'
}

/// Characters dropped from a name before matching: white space and `_-./!@`.
pub open spec fn is_separator(c: char) -> bool {
    is_space(c) || c == '_' || c == '-' || c == '.' || c == '/' || c == '!' || c == '@'
}

/// `s` without its separator characters.
pub open spec fn strip_separators_spec(s: Seq<char>) -> Seq<char> {
    s.filter(|c: char| !is_separator(c))
}

/// ASCII lower case of one character; other characters are kept.
pub open spec fn lower_char(c: char) -> char {
    if 'A' <= c && c <= 'Z' {
        ((c as u8) + 32) as char
    } else {
        c
    }
}

/// ASCII lower case of a string.
pub open spec fn ascii_lower(s: Seq<char>) -> Seq<char> {
    s.map_values(|c: char| lower_char(c))
}

/// True when `s` starts with the word `linux`.
pub open spec fn starts_with_linux(s: Seq<char>) -> bool {
    s.len() >= 5 && s[0] == 'l' && s[1] == 'i' && s[2] == 'n' && s[3] == 'u' && s[4] == 'x'
}

/// `s` with every occurrence of `linux` removed, scanning from the left.
pub open spec fn remove_linux(s: Seq<char>) -> Seq<char>
    decreases s.len(),
{
    if s.len() == 0 {
        Seq::empty()
    } else if starts_with_linux(s) {
        remove_linux(s.skip(5))
    } else {
        seq![s[0]].add(remove_linux(s.skip(1)))
    }
}

/// The normal form of a name: separators stripped, ASCII lower-cased, and
/// every `linux` removed, in that order.
pub open spec fn normalized(s: Seq<char>) -> Seq<char> {
    remove_linux(ascii_lower(strip_separators_spec(s)))
}

/// Relies on `regex::Regex::replace_all` with the class `[\s_\-\./!@]` and an
/// empty replacement: every character of the class is deleted.
#[verifier::external_body]
fn strip_separators(s: &str) -> (r: String)
    ensures
        r@ == strip_separators_spec(s@),
{
    let re = regex::Regex::new(r"[\s_\-\./!@]").unwrap();
    re.replace_all(s, "").into_owned()
}

/// The ASCII lower case of `s`.
pub fn to_ascii_lower(s: &str) -> (r: String)
    ensures
        r@ == ascii_lower(s@),
{
    let cs = chars_of(s);
    let mut out = String::new();
    let mut i: usize = 0;
    while i < cs.len()
        invariant
            cs@ == s@,
            i <= cs.len(),
            out@ == ascii_lower(s@.take(i as int)),
        decreases cs.len() - i,
    {
        let c = cs[i];
        let l = if 'A' <= c && c <= 'Z' {
            ((c as u8) + 32) as char
        } else {
            c
        };
        push_char(&mut out, l);
        proof {
            assert(s@.take(i + 1) =~= s@.take(i as int).push(c));
            assert(ascii_lower(s@.take(i + 1)) =~= ascii_lower(s@.take(i as int)).push(l));
        }
        i = i + 1;
    }
    proof {
        assert(s@.take(cs.len() as int) =~= s@);
    }
    out
}

proof fn lemma_remove_linux_step(s: Seq<char>, i: int)
    requires
        0 <= i < s.len(),
    ensures
        starts_with_linux(s.skip(i)) && i + 5 <= s.len() ==> remove_linux(s.skip(i)) == remove_linux(
            s.skip(i + 5),
        ),
        !starts_with_linux(s.skip(i)) ==> remove_linux(s.skip(i)) == seq![s[i]].add(
            remove_linux(s.skip(i + 1)),
        ),
{
    assert(s.skip(i).skip(1) =~= s.skip(i + 1));
    if starts_with_linux(s.skip(i)) {
        assert(s.skip(i).skip(5) =~= s.skip(i + 5));
    }
}

/// `s` with every occurrence of `linux` removed, left to right.
pub fn without_linux(s: &str) -> (r: String)
    ensures
        r@ == remove_linux(s@),
{
    let cs = chars_of(s);
    let mut out = String::new();
    let mut i: usize = 0;
    proof {
        assert(s@.skip(0) =~= s@);
        assert(out@ + remove_linux(s@) =~= remove_linux(s@));
    }
    while i < cs.len()
        invariant
            cs@ == s@,
            i <= cs.len(),
            out@ + remove_linux(s@.skip(i as int)) == remove_linux(s@),
        decreases cs.len() - i,
    {
        proof {
            lemma_remove_linux_step(s@, i as int);
        }
        if cs.len() - i >= 5 && cs[i] == 'l' && cs[i + 1] == 'i' && cs[i + 2] == 'n' && cs[i + 3]
            == 'u' && cs[i + 4] == 'x' {
            i = i + 5;
        } else {
            let c = cs[i];
            proof {
                assert(out@.push(c) + remove_linux(s@.skip(i + 1)) =~= out@ + (seq![c].add(
                    remove_linux(s@.skip(i + 1)),
                )));
            }
            push_char(&mut out, c);
            i = i + 1;
        }
    }
    proof {
        assert(s@.skip(cs.len() as int) =~= Seq::<char>::empty());
        assert(out@ + Seq::<char>::empty() =~= out@);
    }
    out
}

/// The normal form of `raw`, the string that patterns are tested against.
pub fn normalize(raw: &str) -> (r: String)
    ensures
        r@ == normalized(raw@),
{
    let stripped = strip_separators(raw);
    let lowered = to_ascii_lower(stripped.as_str());
    without_linux(lowered.as_str())
}

/// True when the regular expression `pattern` matches somewhere in `text`.
pub uninterp spec fn pattern_matches(pattern: Seq<char>, text: Seq<char>) -> bool;

/// True for a pattern made of ASCII lower-case letters and digits only: such
/// a pattern has no regex syntax and stands for itself.
pub open spec fn is_plain(p: Seq<char>) -> bool {
    forall|k: int| 0 <= k < p.len() ==> (('a' <= #[trigger] p[k] && p[k] <= 'z') || is_digit_char(p[k]))
}

/// True for the ASCII digits.
pub open spec fn is_digit_char(c: char) -> bool {
    '0' <= c && c <= '9'
}

/// True when `p` occurs in `text` as a contiguous run.
pub open spec fn occurs_in(p: Seq<char>, text: Seq<char>) -> bool {
    exists|k: int| 0 <= k && k + p.len() <= text.len() && #[trigger] text.subrange(k, k + p.len()) == p
}

/// The views of a list of strings.
pub open spec fn views(ps: Seq<String>) -> Seq<Seq<char>> {
    ps.map_values(|p: String| p@)
}

/// True when `found` lists pattern indices in ascending order.
pub open spec fn lists_matches(found: Seq<usize>, patterns: Seq<Seq<char>>, text: Seq<char>) -> bool {
    &&& forall|a: int, b: int| 0 <= a < b < found.len() ==> found[a] < found[b]
    &&& forall|a: int| 0 <= a < found.len() ==> found[a] < patterns.len()
}

/// Longest plain pattern, and most patterns, that a set is promised to
/// compile with.
pub const PLAIN_LIMIT: usize = 256;

/// True for a list of at most `PLAIN_LIMIT` plain patterns, each of at most
/// `PLAIN_LIMIT` characters.
pub open spec fn all_plain(patterns: Seq<Seq<char>>) -> bool {
    &&& patterns.len() <= PLAIN_LIMIT
    &&& forall|i: int|
        0 <= i < patterns.len() ==> is_plain(#[trigger] patterns[i]) && patterns[i].len()
            <= PLAIN_LIMIT
}

/// Relies on `regex::RegexSet::new` and `regex::RegexSet::matches`: when the
/// set compiles, the indices of the patterns that match, in ascending order;
/// a pattern of letters and digits matches where it occurs as it is. A few
/// short literal patterns stay far within the set's default size limits, so
/// they always compile.
#[verifier::external_body]
fn set_matches(patterns: &Vec<String>, text: &str) -> (r: Option<Vec<usize>>)
    ensures
        all_plain(views(patterns@)) ==> r is Some,
        r matches Some(found) ==> lists_matches(found@, views(patterns@), text@),
        r matches Some(found) ==> forall|i: int|
            0 <= i < patterns.len() ==> (found@.contains(i as usize) <==> pattern_matches(
                #[trigger] patterns[i]@,
                text@,
            )),
        r matches Some(found) ==> forall|i: int|
            0 <= i < patterns.len() && is_plain(#[trigger] patterns[i]@) ==> (found@.contains(
                i as usize,
            ) <==> occurs_in(patterns[i]@, text@)),
{
    match regex::RegexSet::new(patterns) {
        Ok(set) => Some(set.matches(text).into_iter().collect()),
        Err(_) => None,
    }
}

/// True when pattern `i` is the last of `patterns` that matches `text`.
pub open spec fn is_last_match(patterns: Seq<Seq<char>>, text: Seq<char>, i: int) -> bool {
    &&& 0 <= i < patterns.len()
    &&& pattern_matches(patterns[i], text)
    &&& forall|j: int| i < j < patterns.len() ==> !pattern_matches(#[trigger] patterns[j], text)
}

/// True when plain pattern `i` is the last of `patterns` that occurs in
/// `text`.
pub open spec fn is_last_occurrence(patterns: Seq<Seq<char>>, text: Seq<char>, i: int) -> bool {
    &&& 0 <= i < patterns.len()
    &&& occurs_in(patterns[i], text)
    &&& forall|j: int| i < j < patterns.len() ==> !occurs_in(#[trigger] patterns[j], text)
}

/// True when no pattern of `patterns` occurs in `text`.
pub open spec fn none_occurs(patterns: Seq<Seq<char>>, text: Seq<char>) -> bool {
    forall|i: int| 0 <= i < patterns.len() ==> !occurs_in(#[trigger] patterns[i], text)
}

/// True when no pattern of `patterns` matches `text`.
pub open spec fn none_matches(patterns: Seq<Seq<char>>, text: Seq<char>) -> bool {
    forall|i: int| 0 <= i < patterns.len() ==> !pattern_matches(#[trigger] patterns[i], text)
}

/// The pattern chosen among the matching ones, given their indices in
/// ascending order: the last registered one wins.
pub fn last_match(found: &Vec<usize>) -> (r: Option<usize>)
    ensures
        found.len() == 0 ==> r is None,
        found.len() > 0 ==> r == Some(found[found.len() - 1]),
{
    if found.len() == 0 {
        None
    } else {
        Some(found[found.len() - 1])
    }
}

/// Classifies `raw` against `patterns`: its normal form is tested against
/// every pattern, and when several match, the last one in the list wins.
/// `None` when no pattern matches (or the patterns do not form a valid set,
/// which plain patterns always do).
pub fn classify(patterns: &Vec<String>, raw: &str) -> (r: Option<usize>)
    ensures
        r matches Some(i) ==> is_last_match(views(patterns@), normalized(raw@), i as int),
        all_plain(views(patterns@)) ==> (r is None <==> none_matches(
            views(patterns@),
            normalized(raw@),
        )),
        all_plain(views(patterns@)) ==> match r {
            Some(i) => is_last_occurrence(views(patterns@), normalized(raw@), i as int),
            None => none_occurs(views(patterns@), normalized(raw@)),
        },
{
    let text = normalize(raw);
    match set_matches(patterns, text.as_str()) {
        None => None,
        Some(found) => {
            let r = last_match(&found);
            proof {
                let ps = views(patterns@);
                assert(ps.len() == patterns@.len());
                if found.len() == 0 {
                    assert forall|j: int| 0 <= j < ps.len() implies !pattern_matches(
                        #[trigger] ps[j],
                        text@,
                    ) by {
                        assert(patterns@[j]@ == ps[j]);
                        if pattern_matches(ps[j], text@) {
                            assert(found@.contains(j as usize));
                        }
                    }
                    if all_plain(ps) {
                        assert forall|j: int| 0 <= j < ps.len() implies !occurs_in(
                            #[trigger] ps[j],
                            text@,
                        ) by {
                            assert(patterns@[j]@ == ps[j]);
                            assert(is_plain(ps[j]));
                            if occurs_in(ps[j], text@) {
                                assert(found@.contains(j as usize));
                            }
                        }
                    }
                }
                if found.len() > 0 {
                    let i = found@[found.len() - 1];
                    assert(found@.contains(i));
                    assert(patterns@[i as int]@ == ps[i as int]);
                    assert(pattern_matches(ps[i as int], text@));
                    assert forall|j: int| i < j < ps.len() implies !pattern_matches(
                        #[trigger] ps[j],
                        text@,
                    ) by {
                        assert(patterns@[j]@ == ps[j]);
                        if pattern_matches(ps[j], text@) {
                            assert(found@.contains(j as usize));
                            let k = choose|k: int| 0 <= k < found.len() && found@[k] == j as usize;
                            assert(k < found.len() - 1 ==> found@[k] < found@[found.len() - 1]);
                        }
                    }
                    if all_plain(ps) {
                        assert(patterns@[i as int]@ == ps[i as int]);
                        assert(is_plain(ps[i as int]));
                        assert(occurs_in(ps[i as int], text@));
                        assert forall|j: int| i < j < ps.len() implies !occurs_in(
                            #[trigger] ps[j],
                            text@,
                        ) by {
                            assert(patterns@[j]@ == ps[j]);
                            assert(is_plain(ps[j]));
                            if occurs_in(ps[j], text@) {
                                assert(found@.contains(j as usize));
                                let k = choose|k: int| 0 <= k < found.len() && found@[k] == j as usize;
                                assert(found@[k] < found@[found.len() - 1] || k == found.len() - 1);
                            }
                        }
                    }
                }
            }
            r
        },
    }
}

} // verus!
