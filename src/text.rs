//! Character-level helpers for art templates: placeholder tokens, line
//! splitting and the display width of a template.
use vstd::prelude::*;

verus! {

/// True for the ASCII digits `0` to `9`.
pub open spec fn is_digit(c: char) -> bool {
    '0' <= c && c <= '9'
}

/// Number of consecutive digits at the start of `s`.
pub open spec fn digit_run(s: Seq<char>) -> nat
    decreases s.len(),
{
    if s.len() > 0 && is_digit(s[0]) {
        1 + digit_run(s.skip(1))
    } else {
        0
    }
}

/// Length of the colour placeholder `{N}` (one or more digits between braces)
/// at the start of `s`, or 0 when `s` does not start with one.
pub open spec fn token_len(s: Seq<char>) -> nat {
    if s.len() > 0 && s[0] == '{' {
        let d = digit_run(s.skip(1));
        if d > 0 && d + 1 < s.len() && s[d + 1 as int] == '}' {
            d + 2
        } else {
            0
        }
    } else {
        0
    }
}

/// `s` with every placeholder token deleted, scanning from the left.
pub open spec fn strip_tokens(s: Seq<char>) -> Seq<char>
    decreases s.len(),
{
    if s.len() == 0 {
        Seq::empty()
    } else if token_len(s) > 0 {
        strip_tokens(s.skip(token_len(s) as int))
    } else {
        seq![s[0]].add(strip_tokens(s.skip(1)))
    }
}

/// The pieces of `s` between newline characters; always at least one piece.
pub open spec fn pieces(s: Seq<char>) -> Seq<Seq<char>>
    decreases s.len(),
{
    if s.len() == 0 {
        seq![Seq::empty()]
    } else {
        let p = pieces(s.drop_last());
        if s.last() == '\n' {
            p.push(Seq::empty())
        } else {
            p.update(p.len() - 1, p.last().push(s.last()))
        }
    }
}

/// A line without its trailing carriage return, if any.
pub open spec fn trim_cr(l: Seq<char>) -> Seq<char> {
    if l.len() > 0 && l.last() == '\r' {
        l.drop_last()
    } else {
        l
    }
}

/// The lines of `s`: the pieces between newlines, without a final empty piece
/// and with each trailing carriage return removed.
pub open spec fn lines_of(s: Seq<char>) -> Seq<Seq<char>> {
    let p = pieces(s);
    let kept = if p.last().len() == 0 {
        p.drop_last()
    } else {
        p
    };
    kept.map_values(|l: Seq<char>| trim_cr(l))
}

/// Largest length among `ls`, 0 for no lines.
pub open spec fn widest(ls: Seq<Seq<char>>) -> nat
    decreases ls.len(),
{
    if ls.len() == 0 {
        0
    } else {
        let w = widest(ls.drop_last());
        if ls.last().len() > w {
            ls.last().len()
        } else {
            w
        }
    }
}

/// The display width of a template: its widest line once every placeholder
/// token is deleted (tokens take no room on screen).
pub open spec fn template_width(t: Seq<char>) -> nat {
    widest(lines_of(strip_tokens(t)))
}

/// Largest trimmed length among `ls`.
pub open spec fn widest_trimmed(ls: Seq<Seq<char>>) -> nat
    decreases ls.len(),
{
    if ls.len() == 0 {
        0
    } else {
        let w = widest_trimmed(ls.drop_last());
        if trim_cr(ls.last()).len() > w {
            trim_cr(ls.last()).len()
        } else {
            w
        }
    }
}

proof fn lemma_widest_map(ls: Seq<Seq<char>>)
    ensures
        widest(ls.map_values(|l: Seq<char>| trim_cr(l))) == widest_trimmed(ls),
    decreases ls.len(),
{
    if ls.len() > 0 {
        lemma_widest_map(ls.drop_last());
        assert(ls.map_values(|l: Seq<char>| trim_cr(l)).drop_last() =~= ls.drop_last().map_values(
            |l: Seq<char>| trim_cr(l),
        ));
    }
}

proof fn lemma_lines_width(s: Seq<char>)
    ensures
        widest(lines_of(s)) == widest_trimmed(pieces(s)),
    decreases s.len(),
{
    let p = pieces(s);
    lemma_pieces_nonempty(s);
    if p.last().len() == 0 {
        lemma_widest_map(p.drop_last());
        assert(trim_cr(p.last()).len() == 0);
    } else {
        lemma_widest_map(p);
    }
}

proof fn lemma_pieces_nonempty(s: Seq<char>)
    ensures
        pieces(s).len() >= 1,
    decreases s.len(),
{
    if s.len() > 0 {
        lemma_pieces_nonempty(s.drop_last());
    }
}

/// Relies on `str::chars`: the characters of `s` in order.
#[verifier::external_body]
pub(crate) fn chars_of(s: &str) -> (r: Vec<char>)
    ensures
        r@ == s@,
{
    s.chars().collect()
}

/// Relies on `String::push`: appends one character.
#[verifier::external_body]
pub(crate) fn push_char(s: &mut String, c: char)
    ensures
        final(s)@ == old(s)@.push(c),
{
    s.push(c)
}

/// Relies on `regex::Regex::replace_all` with the pattern `\{[0-9]+\}` and an
/// empty replacement: the leftmost matches are deleted, left to right.
#[verifier::external_body]
pub(crate) fn delete_tokens(s: &str) -> (r: String)
    ensures
        r@ == strip_tokens(s@),
{
    let re = regex::Regex::new(r"\{[0-9]+\}").unwrap();
    re.replace_all(s, "").into_owned()
}

/// The width of `template` on screen: its widest line once placeholder tokens
/// are deleted.
pub fn stripped_width(template: &str) -> (w: usize)
    ensures
        w == template_width(template@),
{
    let stripped = delete_tokens(template);
    let cs = chars_of(stripped.as_str());
    let ghost s = cs@;
    let mut best: usize = 0;
    let mut cur: usize = 0;
    let mut last_cr = false;
    let mut i: usize = 0;
    while i < cs.len()
        invariant
            s == cs@,
            i <= s.len(),
            cur <= i,
            best <= i,
            best == widest_trimmed(pieces(s.take(i as int)).drop_last()),
            cur == pieces(s.take(i as int)).last().len(),
            last_cr == (cur > 0 && pieces(s.take(i as int)).last().last() == '\r'),
        decreases s.len() - i,
    {
        proof {
            lemma_pieces_nonempty(s.take(i as int));
            lemma_pieces_nonempty(s.take(i + 1));
            assert(s.take(i + 1).drop_last() =~= s.take(i as int));
        }
        let c = cs[i];
        if c == '\n' {
            let w = if last_cr { cur - 1 } else { cur };
            if w > best {
                best = w;
            }
            cur = 0;
            last_cr = false;
            proof {
                let p = pieces(s.take(i as int));
                assert(pieces(s.take(i + 1)).drop_last() =~= p);
            }
        } else {
            cur = cur + 1;
            last_cr = c == '\r';
            proof {
                let p = pieces(s.take(i as int));
                let q = pieces(s.take(i + 1));
                assert(q.drop_last() =~= p.drop_last());
            }
        }
        i = i + 1;
    }
    proof {
        assert(s.take(s.len() as int) =~= s);
        lemma_pieces_nonempty(s);
    }
    let w = if last_cr { cur - 1 } else { cur };
    assert(w == trim_cr(pieces(s).last()).len());
    if w > best {
        best = w;
    }
    proof {
        let p = pieces(s);
        assert(best == widest_trimmed(p));
        lemma_lines_width(s);
        assert(s == strip_tokens(template@));
    }
    best
}

/// `n` spaces.
pub open spec fn spaces(n: nat) -> Seq<char> {
    Seq::new(n, |i: int| ' ')
}

/// A string of `n` spaces.
pub fn space_string(n: usize) -> (r: String)
    ensures
        r@ == spaces(n as nat),
{
    repeat_char(' ', n)
}

/// `n` copies of `c`.
pub open spec fn repeated(c: char, n: nat) -> Seq<char> {
    Seq::new(n, |i: int| c)
}

/// A string of `n` copies of `c`.
pub fn repeat_char(c: char, n: usize) -> (r: String)
    ensures
        r@ == repeated(c, n as nat),
        c == ' ' ==> r@ == spaces(n as nat),
{
    let mut out = String::new();
    let mut i: usize = 0;
    while i < n
        invariant
            i <= n,
            out@ =~= repeated(c, i as nat),
        decreases n - i,
    {
        push_char(&mut out, c);
        i = i + 1;
    }
    proof {
        assert(c == ' ' ==> repeated(c, n as nat) =~= spaces(n as nat));
    }
    out
}

/// The decimal digit for `d`.
pub open spec fn digit_char(d: nat) -> char {
    ((48 + d) as u8) as char
}

/// The decimal notation of `n`, without leading zeros.
pub open spec fn decimal(n: nat) -> Seq<char>
    decreases n,
{
    if n < 10 {
        seq![digit_char(n)]
    } else {
        decimal(n / 10).push(digit_char(n % 10))
    }
}

/// The decimal notation of `n`.
pub fn decimal_string(n: u128) -> (r: String)
    ensures
        r@ == decimal(n as nat),
    decreases n,
{
    if n < 10 {
        let mut s = String::new();
        push_char(&mut s, ((48 + n) as u8) as char);
        assert(s@ =~= seq![digit_char(n as nat)]);
        s
    } else {
        let mut s = decimal_string(n / 10);
        push_char(&mut s, ((48 + n % 10) as u8) as char);
        s
    }
}

/// The number that a run of digits spells in decimal.
pub open spec fn digits_value(ds: Seq<char>) -> nat
    decreases ds.len(),
{
    if ds.len() == 0 {
        0
    } else {
        10 * digits_value(ds.drop_last()) + (ds.last() as nat - '0' as nat) as nat
    }
}

/// The colour indices of the placeholder tokens of `s`, left to right.
pub open spec fn token_indices(s: Seq<char>) -> Seq<nat>
    decreases s.len(),
{
    if s.len() == 0 {
        Seq::empty()
    } else if token_len(s) > 0 {
        seq![digits_value(s.subrange(1, token_len(s) - 1))] + token_indices(
            s.skip(token_len(s) as int),
        )
    } else {
        token_indices(s.skip(1))
    }
}

/// True when every token of `s` names an index below `limit`.
pub open spec fn indices_below(s: Seq<char>, limit: nat) -> bool {
    forall|k: int| 0 <= k < token_indices(s).len() ==> #[trigger] token_indices(s)[k] < limit
}

proof fn lemma_digit_run(x: Seq<char>, k: int)
    requires
        0 <= k <= x.len(),
        forall|j: int| 0 <= j < k ==> is_digit(#[trigger] x[j]),
        k == x.len() || !is_digit(x[k]),
    ensures
        digit_run(x) == k,
    decreases k,
{
    if k > 0 {
        assert forall|j: int| 0 <= j < k - 1 implies is_digit(#[trigger] x.skip(1)[j]) by {
            assert(x.skip(1)[j] == x[j + 1]);
        }
        lemma_digit_run(x.skip(1), k - 1);
    }
}

proof fn lemma_digits_grow(ds: Seq<char>, c: char)
    requires
        is_digit(c),
    ensures
        digits_value(ds.push(c)) == 10 * digits_value(ds) + (c as nat - '0' as nat),
        digits_value(ds.push(c)) >= digits_value(ds),
{
    assert(ds.push(c).drop_last() =~= ds);
}

/// `min(a, b)` on naturals.
pub open spec fn min_nat(a: nat, b: nat) -> nat {
    if a <= b {
        a
    } else {
        b
    }
}

/// Whether every placeholder token of `s` names an index below `limit`.
pub fn tokens_below(s: &str, limit: usize) -> (r: bool)
    ensures
        r == indices_below(s@, limit as nat),
{
    let cs = chars_of(s);
    let ghost t = cs@;
    let n = cs.len();
    let mut i: usize = 0;
    assert(t.skip(0) =~= t);
    while i < n
        invariant
            t == cs@,
            t == s@,
            n == t.len(),
            i <= n,
            indices_below(t, limit as nat) == indices_below(t.skip(i as int), limit as nat),
        decreases n - i,
    {
        let ghost x = t.skip(i as int);
        // length of the digit run after position i
        let mut j: usize = i + 1;
        let mut v: usize = 0;
        while j < n && '0' <= cs[j] && cs[j] <= '9'
            invariant
                t == cs@,
                n == t.len(),
                i < n,
                i + 1 <= j <= n,
                forall|q: int| i + 1 <= q < j ==> is_digit(#[trigger] t[q]),
                v as nat == min_nat(digits_value(t.subrange(i + 1, j as int)), limit as nat),
            decreases n - j,
        {
            let d = cs[j];
            proof {
                lemma_digits_grow(t.subrange(i + 1, j as int), d);
                assert(t.subrange(i + 1, j + 1) =~= t.subrange(i + 1, j as int).push(d));
            }
            let dv = ((d as u32) - 48) as u128;
            let w: u128 = (v as u128) * 10 + dv;
            v = if w < limit as u128 {
                w as usize
            } else {
                limit
            };
            proof {
                let old_val = digits_value(t.subrange(i + 1, j as int));
                let new_val = digits_value(t.subrange(i + 1, j + 1));
                assert(new_val == 10 * old_val + dv);
                if old_val >= limit {
                    assert(new_val >= limit) by (nonlinear_arith)
                        requires
                            new_val == 10 * old_val + dv,
                            old_val >= limit,
                    ;
                }
            }
            j = j + 1;
        }
        proof {
            lemma_digit_run(x.skip(1), j - i - 1);
        }
        let is_token = cs[i] == '{' && j > i + 1 && j < n && cs[j] == '}';
        proof {
            assert(x.skip(1) =~= t.skip(i + 1));
            if j < n {
                assert(x.skip(1)[j - i - 1] == t[j as int]);
            }
            assert forall|q: int| 0 <= q < j - i - 1 implies is_digit(#[trigger] x.skip(1)[q]) by {
                assert(x.skip(1)[q] == t[i + 1 + q]);
            }
        }
        if is_token {
            proof {
                assert(token_len(x) == j - i + 1);
                assert(x.subrange(1, token_len(x) - 1) =~= t.subrange(i + 1, j as int));
                assert(x.skip(token_len(x) as int) =~= t.skip(j + 1));
                let rest = token_indices(t.skip(j + 1));
                assert(token_indices(x) == seq![digits_value(t.subrange(i + 1, j as int))] + rest);
            }
            if v >= limit {
                proof {
                    assert(token_indices(x)[0] >= limit);
                }
                return false;
            }
            proof {
                let rest = token_indices(t.skip(j + 1));
                let all = token_indices(x);
                assert(all[0] == v as nat);
                if indices_below(x, limit as nat) {
                    assert forall|k: int| 0 <= k < rest.len() implies #[trigger] rest[k] < limit by {
                        assert(all[k + 1] == rest[k]);
                    }
                }
                if indices_below(t.skip(j + 1), limit as nat) {
                    assert forall|k: int| 0 <= k < all.len() implies #[trigger] all[k] < limit by {
                        if k > 0 {
                            assert(all[k] == rest[k - 1]);
                        }
                    }
                }
                assert(indices_below(x, limit as nat) == indices_below(t.skip(j + 1), limit as nat));
            }
            i = j + 1;
        } else {
            proof {
                assert(token_len(x) == 0);
                assert(x.skip(1) =~= t.skip(i + 1));
                assert(token_indices(x) == token_indices(t.skip(i + 1)));
                assert(indices_below(x, limit as nat) == indices_below(t.skip(i + 1), limit as nat));
            }
            i = i + 1;
        }
    }
    proof {
        assert(token_indices(t.skip(n as int)) =~= Seq::<nat>::empty()) by {
            assert(t.skip(n as int).len() == 0);
        }
    }
    true
}

/// True when the line (carriage return trimmed) starts with a character
/// other than a space.
pub open spec fn line_flush(p: Seq<char>) -> bool {
    trim_cr(p).len() > 0 && trim_cr(p)[0] != ' '
}

/// True when the line (carriage return trimmed) ends with a space.
pub open spec fn line_ends_blank(p: Seq<char>) -> bool {
    trim_cr(p).len() > 0 && trim_cr(p).last() == ' '
}

/// True when some line of `ps` is flush with the left edge.
pub open spec fn some_flush(ps: Seq<Seq<char>>) -> bool {
    exists|i: int| 0 <= i < ps.len() && line_flush(#[trigger] ps[i])
}

/// True when no line of `ps` ends with a space.
pub open spec fn none_ends_blank(ps: Seq<Seq<char>>) -> bool {
    forall|i: int| 0 <= i < ps.len() ==> !line_ends_blank(#[trigger] ps[i])
}

/// True when the art of a template is drawn without a margin: once tokens
/// are deleted, some line starts at the left edge and no line ends with a
/// space. The art then fills exactly its width on screen, with no column of
/// spaces on either side.
pub open spec fn is_aligned(t: Seq<char>) -> bool {
    some_flush(pieces(strip_tokens(t))) && none_ends_blank(pieces(strip_tokens(t)))
}

proof fn lemma_flags_push(q: Seq<Seq<char>>, x: Seq<char>)
    ensures
        some_flush(q.push(x)) == (some_flush(q) || line_flush(x)),
        none_ends_blank(q.push(x)) == (none_ends_blank(q) && !line_ends_blank(x)),
{
    let r = q.push(x);
    if some_flush(q) {
        let i = choose|i: int| 0 <= i < q.len() && line_flush(#[trigger] q[i]);
        assert(r[i] == q[i]);
    }
    if line_flush(x) {
        assert(r[q.len() as int] == x);
    }
    if some_flush(r) {
        let i = choose|i: int| 0 <= i < r.len() && line_flush(#[trigger] r[i]);
        if i < q.len() {
            assert(r[i] == q[i]);
        }
    }
    if none_ends_blank(r) {
        assert forall|i: int| 0 <= i < q.len() implies !line_ends_blank(#[trigger] q[i]) by {
            assert(r[i] == q[i]);
        }
        assert(r[q.len() as int] == x);
    }
    if none_ends_blank(q) && !line_ends_blank(x) {
        assert forall|i: int| 0 <= i < r.len() implies !line_ends_blank(#[trigger] r[i]) by {
            if i < q.len() {
                assert(r[i] == q[i]);
            }
        }
    }
}

/// Whether the template's art is drawn without a margin (see `is_aligned`).
pub fn aligned(template: &str) -> (r: bool)
    ensures
        r == is_aligned(template@),
{
    let stripped = delete_tokens(template);
    let cs = chars_of(stripped.as_str());
    let ghost s = cs@;
    let mut flush = false;
    let mut clean = true;
    let mut start: usize = 0;
    let mut i: usize = 0;
    proof {
        assert(s.take(0) =~= Seq::<char>::empty());
        assert(pieces(s.take(0)).drop_last() =~= Seq::<Seq<char>>::empty());
    }
    while i < cs.len()
        invariant
            s == cs@,
            i <= s.len(),
            start <= i,
            pieces(s.take(i as int)).len() >= 1,
            pieces(s.take(i as int)).last() == s.subrange(start as int, i as int),
            flush == some_flush(pieces(s.take(i as int)).drop_last()),
            clean == none_ends_blank(pieces(s.take(i as int)).drop_last()),
        decreases s.len() - i,
    {
        proof {
            lemma_pieces_nonempty(s.take(i + 1));
            assert(s.take(i + 1).drop_last() =~= s.take(i as int));
            assert(s.take(i + 1).last() == s[i as int]);
        }
        let c = cs[i];
        if c == '\n' {
            let end = if i > start && cs[i - 1] == '\r' {
                i - 1
            } else {
                i
            };
            let line_ok = end > start && cs[start] != ' ';
            let line_blank = end > start && cs[end - 1] == ' ';
            proof {
                let p = pieces(s.take(i as int));
                let x = s.subrange(start as int, i as int);
                assert(trim_cr(x) =~= s.subrange(start as int, end as int));
                assert(line_ok == line_flush(x));
                assert(line_blank == line_ends_blank(x));
                assert(pieces(s.take(i + 1)) == p.push(Seq::<char>::empty()));
                assert(pieces(s.take(i + 1)).drop_last() =~= p.drop_last().push(x));
                lemma_flags_push(p.drop_last(), x);
                assert(s.subrange(i + 1, i + 1) =~= Seq::<char>::empty());
            }
            flush = flush || line_ok;
            clean = clean && !line_blank;
            start = i + 1;
        } else {
            proof {
                let p = pieces(s.take(i as int));
                let q = pieces(s.take(i + 1));
                assert(q.drop_last() =~= p.drop_last());
                assert(q.last() =~= s.subrange(start as int, i + 1));
            }
        }
        i = i + 1;
    }
    let n = cs.len();
    let end = if n > start && cs[n - 1] == '\r' {
        n - 1
    } else {
        n
    };
    let line_ok = end > start && cs[start] != ' ';
    let line_blank = end > start && cs[end - 1] == ' ';
    proof {
        assert(s.take(n as int) =~= s);
        let p = pieces(s);
        let x = s.subrange(start as int, n as int);
        assert(trim_cr(x) =~= s.subrange(start as int, end as int));
        assert(p =~= p.drop_last().push(x));
        lemma_flags_push(p.drop_last(), x);
        assert(s == strip_tokens(template@));
    }
    (flush || line_ok) && (clean && !line_blank)
}

} // verus!
