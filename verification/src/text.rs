//! Text processing for suggestion extraction: stripping punctuation,
//! splitting content into lines, trimming, lowercasing and glob matching.

use vstd::prelude::*;

verus! {

/// The result of `str::to_lowercase`: a function of the characters alone.
pub uninterp spec fn lower_of(s: Seq<char>) -> Seq<char>;

/// The result of compiling `pat` as a shell-style glob pattern and matching
/// `text` against it: false when `pat` is not a valid pattern, otherwise
/// whether the pattern matches. A function of the two strings alone.
pub uninterp spec fn glob_matches(pat: Seq<char>, text: Seq<char>) -> bool;

/// Relies on `str::to_lowercase`: the returned string is the Unicode
/// lowercase conversion of the input, a function of the input alone.
#[verifier::external_body]
pub(crate) fn to_lower(s: &str) -> (r: String)
    ensures
        r@ == lower_of(s@),
{
    s.to_lowercase()
}

/// Relies on `glob::Pattern::new` and `glob::Pattern::matches`: `new`
/// compiles the pattern string (failing only on malformed wildcards or
/// ranges) and `matches` tests the text against it; both are deterministic
/// in the two strings. A pattern that does not compile matches nothing.
#[verifier::external_body]
pub(crate) fn glob_match(pattern: &str, text: &str) -> (r: bool)
    ensures
        r == glob_matches(pattern@, text@),
{
    match glob::Pattern::new(pattern) {
        Ok(p) => p.matches(text),
        Err(_) => false,
    }
}

/// A character kept by content cleaning: ASCII alphanumeric or Unicode
/// white space (the White_Space property, the set that the regular
/// expression class `\s` and `char::is_whitespace` both use).
pub open spec fn is_space(c: char) -> bool {
    let u = c as u32;
    (9 <= u && u <= 13) || u == 32 || u == 0x85 || u == 0xA0 || u == 0x1680 || (0x2000 <= u && u
        <= 0x200A) || u == 0x2028 || u == 0x2029 || u == 0x202F || u == 0x205F || u == 0x3000
}

pub open spec fn is_alnum(c: char) -> bool {
    let u = c as u32;
    (48 <= u && u <= 57) || (65 <= u && u <= 90) || (97 <= u && u <= 122)
}

pub open spec fn is_kept(c: char) -> bool {
    is_alnum(c) || is_space(c)
}

/// Content cleaning keeps letters, digits and white space and drops
/// everything else.
pub open spec fn clean_spec(s: Seq<char>) -> Seq<char> {
    s.filter(|c: char| is_kept(c))
}

/// Relies on `regex::Regex`: the fixed class `[^a-zA-Z0-9\s]` matches
/// exactly the characters that are neither ASCII alphanumeric nor Unicode
/// white space, and `replace_all` with an empty replacement removes each
/// such character. The pattern is a fixed valid expression, so compiling
/// it cannot fail.
#[verifier::external_body]
pub(crate) fn strip_punctuation(s: &str) -> (r: String)
    ensures
        r@ == clean_spec(s@),
{
    let re = regex::Regex::new(r"[^a-zA-Z0-9\s]").unwrap();
    re.replace_all(s, "").into_owned()
}

pub fn is_space_char(c: char) -> (r: bool)
    ensures
        r == is_space(c),
{
    let u = c as u32;
    (9 <= u && u <= 13) || u == 32 || u == 0x85 || u == 0xA0 || u == 0x1680 || (0x2000 <= u && u
        <= 0x200A) || u == 0x2028 || u == 0x2029 || u == 0x202F || u == 0x205F || u == 0x3000
}

/// Index of the first newline in `s`, or -1 when there is none.
pub open spec fn first_nl(s: Seq<char>) -> int
    decreases s.len(),
{
    if s.len() == 0 {
        -1
    } else if s[0] == '\n' {
        0
    } else {
        let r = first_nl(s.drop_first());
        if r == -1 {
            -1
        } else {
            r + 1
        }
    }
}

/// Drops one carriage return at the end of a newline-terminated segment.
pub open spec fn chop_cr(l: Seq<char>) -> Seq<char> {
    if l.len() > 0 && l[l.len() - 1] == '\r' {
        l.drop_last()
    } else {
        l
    }
}

pub proof fn lemma_first_nl_range(s: Seq<char>)
    ensures
        first_nl(s) == -1 || (0 <= first_nl(s) < s.len() && s[first_nl(s)] == '\n'),
    decreases s.len(),
{
    if s.len() > 0 && s[0] != '\n' {
        lemma_first_nl_range(s.drop_first());
    }
}

/// The lines of `s`: split at `\n`, with one `\r` stripped before each
/// split point, and no trailing empty line when `s` ends in a newline.
pub open spec fn spec_lines(s: Seq<char>) -> Seq<Seq<char>>
    decreases s.len(),
    via spec_lines_decreases
{
    if s.len() == 0 {
        Seq::empty()
    } else {
        let i = first_nl(s);
        if i < 0 {
            seq![s]
        } else {
            seq![chop_cr(s.take(i))] + spec_lines(s.skip(i + 1))
        }
    }
}

#[via_fn]
proof fn spec_lines_decreases(s: Seq<char>) {
    if s.len() != 0 {
        lemma_first_nl_range(s);
    }
}

pub proof fn lemma_first_nl_at(t: Seq<char>, j: int)
    requires
        0 <= j < t.len(),
        t[j] == '\n',
        forall|x: int| 0 <= x < j ==> t[x] != '\n',
    ensures
        first_nl(t) == j,
    decreases j,
{
    if j > 0 {
        assert forall|x: int| 0 <= x < j - 1 implies t.drop_first()[x] != '\n' by {
            assert(t.drop_first()[x] == t[x + 1]);
        }
        assert(t.drop_first()[j - 1] == t[j]);
        lemma_first_nl_at(t.drop_first(), j - 1);
    }
}

pub proof fn lemma_first_nl_none(t: Seq<char>)
    requires
        forall|x: int| 0 <= x < t.len() ==> t[x] != '\n',
    ensures
        first_nl(t) == -1,
    decreases t.len(),
{
    if t.len() > 0 {
        assert forall|x: int| 0 <= x < t.drop_first().len() implies t.drop_first()[x] != '\n' by {
            assert(t.drop_first()[x] == t[x + 1]);
        }
        lemma_first_nl_none(t.drop_first());
    }
}

/// Splits a string into its lines, as `spec_lines` describes.
pub fn split_lines(s: &str) -> (r: Vec<String>)
    ensures
        r@.map_values(|l: String| l@) == spec_lines(s@),
{
    let n = s.unicode_len();
    let mut res: Vec<String> = Vec::new();
    let mut start: usize = 0;
    let mut i: usize = 0;
    proof {
        assert(s@.skip(0) =~= s@);
        assert(res@.map_values(|l: String| l@) + spec_lines(s@.skip(0)) =~= spec_lines(s@));
    }
    while i < n
        invariant
            start <= i <= n,
            n == s@.len(),
            forall|x: int| start <= x < i ==> s@[x] != '\n',
            res@.map_values(|l: String| l@) + spec_lines(s@.skip(start as int)) =~= spec_lines(
                s@,
            ),
        decreases n - i,
    {
        let c = s.get_char(i);
        if c == '\n' {
            let end = if i > start && s.get_char(i - 1) == '\r' {
                i - 1
            } else {
                i
            };
            let line = s.substring_char(start, end).to_owned();
            proof {
                let t = s@.skip(start as int);
                assert forall|x: int| 0 <= x < i - start implies t[x] != '\n' by {
                    assert(t[x] == s@[x + start]);
                }
                assert(t[i - start] == s@[i as int]);
                lemma_first_nl_at(t, i - start);
                assert(t.take(i - start) =~= s@.subrange(start as int, i as int));
                assert(chop_cr(t.take(i - start)) =~= s@.subrange(start as int, end as int));
                assert(t.skip(i - start + 1) =~= s@.skip(i + 1));
                assert(spec_lines(t) == seq![chop_cr(t.take(i - start))] + spec_lines(
                    t.skip(i - start + 1),
                ));
                assert(res@.push(line).map_values(|l: String| l@) =~= res@.map_values(
                    |l: String| l@,
                ).push(line@));
                assert(res@.push(line).map_values(|l: String| l@) + spec_lines(s@.skip(i + 1))
                    =~= res@.map_values(|l: String| l@) + spec_lines(s@.skip(start as int)));
            }
            res.push(line);
            start = i + 1;
        }
        i += 1;
    }
    if start < n {
        let line = s.substring_char(start, n).to_owned();
        proof {
            let t = s@.skip(start as int);
            assert forall|x: int| 0 <= x < t.len() implies t[x] != '\n' by {
                assert(t[x] == s@[x + start]);
            }
            lemma_first_nl_none(t);
            assert(t =~= s@.subrange(start as int, n as int));
            assert(spec_lines(t) == seq![t]);
            assert(res@.push(line).map_values(|l: String| l@) =~= res@.map_values(
                |l: String| l@,
            ).push(line@));
            assert(res@.push(line).map_values(|l: String| l@) =~= res@.map_values(|l: String| l@)
                + spec_lines(s@.skip(start as int)));
        }
        res.push(line);
    } else {
        proof {
            assert(s@.skip(start as int) =~= Seq::<char>::empty());
            assert(spec_lines(s@.skip(start as int)) =~= Seq::<Seq<char>>::empty());
            assert(res@.map_values(|l: String| l@) + spec_lines(s@.skip(start as int))
                =~= res@.map_values(|l: String| l@));
        }
    }
    res
}

pub open spec fn trim_start_spec(s: Seq<char>) -> Seq<char>
    decreases s.len(),
{
    if s.len() > 0 && is_space(s[0]) {
        trim_start_spec(s.drop_first())
    } else {
        s
    }
}

pub open spec fn trim_end_spec(s: Seq<char>) -> Seq<char>
    decreases s.len(),
{
    if s.len() > 0 && is_space(s[s.len() - 1]) {
        trim_end_spec(s.drop_last())
    } else {
        s
    }
}

/// White space removed from both ends, as `str::trim` does.
pub open spec fn trim_spec(s: Seq<char>) -> Seq<char> {
    trim_end_spec(trim_start_spec(s))
}

pub proof fn lemma_trim_start_at(t: Seq<char>, a: int)
    requires
        0 <= a <= t.len(),
        forall|x: int| 0 <= x < a ==> is_space(t[x]),
        a < t.len() ==> !is_space(t[a]),
    ensures
        trim_start_spec(t) == t.skip(a),
    decreases a,
{
    if a == 0 {
        assert(t.skip(0) =~= t);
    } else {
        assert forall|x: int| 0 <= x < a - 1 implies is_space(t.drop_first()[x]) by {
            assert(t.drop_first()[x] == t[x + 1]);
        }
        if a < t.len() {
            assert(t.drop_first()[a - 1] == t[a]);
        }
        lemma_trim_start_at(t.drop_first(), a - 1);
        assert(t.drop_first().skip(a - 1) =~= t.skip(a));
    }
}

pub proof fn lemma_trim_end_at(t: Seq<char>, b: int)
    requires
        0 <= b <= t.len(),
        forall|x: int| b <= x < t.len() ==> is_space(t[x]),
        b > 0 ==> !is_space(t[b - 1]),
    ensures
        trim_end_spec(t) == t.take(b),
    decreases t.len() - b,
{
    if b == t.len() {
        assert(t.take(b) =~= t);
    } else {
        assert(is_space(t[t.len() - 1]));
        assert forall|x: int| b <= x < t.drop_last().len() implies is_space(t.drop_last()[x]) by {
            assert(t.drop_last()[x] == t[x]);
        }
        if b > 0 {
            assert(t.drop_last()[b - 1] == t[b - 1]);
        }
        lemma_trim_end_at(t.drop_last(), b);
        assert(t.drop_last().take(b) =~= t.take(b));
    }
}

/// Removes white space from both ends of a string.
pub fn trim(s: &str) -> (r: String)
    ensures
        r@ == trim_spec(s@),
{
    let n = s.unicode_len();
    let mut a: usize = 0;
    while a < n
        invariant
            a <= n,
            n == s@.len(),
            forall|x: int| 0 <= x < a ==> is_space(s@[x]),
        ensures
            a <= n,
            n == s@.len(),
            forall|x: int| 0 <= x < a ==> is_space(s@[x]),
            a < n ==> !is_space(s@[a as int]),
        decreases n - a,
    {
        if !is_space_char(s.get_char(a)) {
            break ;
        }
        a += 1;
    }
    let mut b: usize = n;
    while b > a
        invariant
            a <= b <= n,
            n == s@.len(),
            forall|x: int| b <= x < n ==> is_space(s@[x]),
        ensures
            a <= b <= n,
            forall|x: int| b <= x < n ==> is_space(s@[x]),
            b > a ==> !is_space(s@[b - 1]),
        decreases b,
    {
        if !is_space_char(s.get_char(b - 1)) {
            break ;
        }
        b -= 1;
    }
    let r = s.substring_char(a, b).to_owned();
    proof {
        lemma_trim_start_at(s@, a as int);
        let t = s@.skip(a as int);
        assert forall|x: int| b - a <= x < t.len() implies is_space(t[x]) by {
            assert(t[x] == s@[x + a]);
        }
        if b > a {
            assert(t[b - a - 1] == s@[b - 1]);
        } else {
            // b == a: either the whole string is white space after a, or a == n
            assert(b - a == 0);
        }
        lemma_trim_end_at(t, b - a);
        assert(t.take(b - a) =~= s@.subrange(a as int, b as int));
    }
    r
}

} // verus!
