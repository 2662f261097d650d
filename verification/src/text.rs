//! Character-level helpers for the marker codec and the probe-output
//! parsers: case folding, substring search and trimming, all specified
//! over `Seq<char>` views.

use vstd::prelude::*;
use vstd::string::*;

verus! {

/// The whitespace characters stripped when a probe line is tidied.
pub open spec fn is_space(c: char) -> bool {
    c == ' ' || c == '\t' || c == '\r' || c == '\n'
}

pub fn space_char(c: char) -> (r: bool)
    ensures
        r == is_space(c),
{
    c == ' ' || c == '\t' || c == '\r' || c == '\n'
}

/// ASCII lower-casing of one character; anything outside `A`..`Z` is kept.
pub open spec fn lower_char(c: char) -> char {
    if 'A' <= c && c <= 'Z' {
        ((c as u8) + 32) as char
    } else {
        c
    }
}

pub fn to_lower_char(c: char) -> (r: char)
    ensures
        r == lower_char(c),
{
    if 'A' <= c && c <= 'Z' {
        ((c as u8) + 32) as char
    } else {
        c
    }
}

pub open spec fn lower(s: Seq<char>) -> Seq<char> {
    s.map_values(|c: char| lower_char(c))
}

/// Equality up to ASCII case.
pub open spec fn eq_ignore_case(a: Seq<char>, b: Seq<char>) -> bool {
    lower(a) == lower(b)
}

pub fn eq_str_ignore_case(a: &str, b: &str) -> (r: bool)
    ensures
        r == eq_ignore_case(a@, b@),
{
    let alen = a.unicode_len();
    let blen = b.unicode_len();
    if alen != blen {
        proof {
            assert(lower(a@).len() != lower(b@).len());
        }
        return false;
    }
    let mut i: usize = 0;
    while i < alen
        invariant
            i <= alen,
            alen == a@.len(),
            alen == b@.len(),
            forall|j: int| 0 <= j < i ==> lower_char(a@[j]) == lower_char(b@[j]),
        decreases alen - i,
    {
        if to_lower_char(a.get_char(i)) != to_lower_char(b.get_char(i)) {
            proof {
                assert(lower(a@)[i as int] != lower(b@)[i as int]);
            }
            return false;
        }
        i = i + 1;
    }
    proof {
        assert(lower(a@) =~= lower(b@));
    }
    true
}

pub fn str_eq(a: &str, b: &str) -> (r: bool)
    ensures
        r == (a@ == b@),
{
    let alen = a.unicode_len();
    let blen = b.unicode_len();
    if alen != blen {
        return false;
    }
    let mut i: usize = 0;
    while i < alen
        invariant
            i <= alen,
            alen == a@.len(),
            alen == b@.len(),
            forall|j: int| 0 <= j < i ==> a@[j] == b@[j],
        decreases alen - i,
    {
        if a.get_char(i) != b.get_char(i) {
            return false;
        }
        i = i + 1;
    }
    proof {
        assert(a@ =~= b@);
    }
    true
}

/// `p` is a prefix of `s`.
pub open spec fn starts_with(s: Seq<char>, p: Seq<char>) -> bool {
    p.len() <= s.len() && s.subrange(0, p.len() as int) == p
}

pub fn str_starts_with(s: &str, p: &str) -> (r: bool)
    ensures
        r == starts_with(s@, p@),
{
    let slen = s.unicode_len();
    let plen = p.unicode_len();
    if plen > slen {
        return false;
    }
    match_at(s, p, 0)
}

/// `pat` occurs in `s` starting at position `i`.
pub open spec fn matches_at(s: Seq<char>, pat: Seq<char>, i: int) -> bool {
    0 <= i && i + pat.len() <= s.len() && s.subrange(i, i + pat.len()) == pat
}

pub fn match_at(s: &str, pat: &str, i: usize) -> (r: bool)
    requires
        i + pat@.len() <= s@.len(),
        s@.len() <= usize::MAX,
    ensures
        r == matches_at(s@, pat@, i as int),
{
    let plen = pat.unicode_len();
    let mut k: usize = 0;
    while k < plen
        invariant
            k <= plen,
            plen == pat@.len(),
            i + plen <= s@.len(),
            s@.len() <= usize::MAX,
            forall|j: int| 0 <= j < k ==> s@[i + j] == pat@[j],
        decreases plen - k,
    {
        if s.get_char(i + k) != pat.get_char(k) {
            proof {
                assert(s@.subrange(i as int, i + plen)[k as int] != pat@[k as int]);
            }
            return false;
        }
        k = k + 1;
    }
    proof {
        assert(s@.subrange(i as int, i + plen) =~= pat@);
    }
    true
}

/// `i` is the first position at which `pat` occurs in `s`.
pub open spec fn is_first_match(s: Seq<char>, pat: Seq<char>, i: int) -> bool {
    matches_at(s, pat, i) && forall|j: int| 0 <= j < i ==> !matches_at(s, pat, j)
}

/// `e` ends the line that is running at `from`: the next newline, or the
/// end of the text.
pub open spec fn is_line_end(s: Seq<char>, from: int, e: int) -> bool {
    from <= e <= s.len() && (forall|j: int| from <= j < e ==> s[j] != '\n') && (e == s.len() || s[e]
        == '\n')
}

/// `pos` is the first position of `c` within `[from, to)`.
pub open spec fn is_first_char_in(s: Seq<char>, from: int, to: int, c: char, pos: int) -> bool {
    from <= pos < to && s[pos] == c && forall|j: int| from <= j < pos ==> s[j] != c
}

/// The first position at which `pat` occurs in `s`, if any.
pub fn find_str(s: &str, pat: &str) -> (r: Option<usize>)
    ensures
        match r {
            Some(i) => matches_at(s@, pat@, i as int) && forall|j: int|
                0 <= j < i ==> !matches_at(s@, pat@, j),
            None => forall|j: int| !matches_at(s@, pat@, j),
        },
{
    let slen = s.unicode_len();
    let plen = pat.unicode_len();
    if plen > slen {
        return None;
    }
    if plen == 0 {
        proof {
            assert(s@.subrange(0, 0) =~= pat@);
        }
        return Some(0);
    }
    let bound = slen - plen + 1;
    let mut i: usize = 0;
    while i < bound
        invariant
            0 < plen <= slen,
            slen == s@.len(),
            plen == pat@.len(),
            bound == slen - plen + 1,
            i <= bound,
            forall|j: int| 0 <= j < i ==> !matches_at(s@, pat@, j),
        decreases bound - i,
    {
        if match_at(s, pat, i) {
            return Some(i);
        }
        i = i + 1;
    }
    None
}

/// The first position at or after `from` holding `c`, if any.
pub fn find_char_from(s: &str, from: usize, c: char) -> (r: Option<usize>)
    requires
        from <= s@.len(),
    ensures
        match r {
            Some(i) => from <= i < s@.len() && s@[i as int] == c && forall|j: int|
                from <= j < i ==> s@[j] != c,
            None => forall|j: int| from <= j < s@.len() ==> s@[j] != c,
        },
{
    let len = s.unicode_len();
    let mut i: usize = from;
    while i < len
        invariant
            from <= i <= len,
            len == s@.len(),
            forall|j: int| from <= j < i ==> s@[j] != c,
        decreases len - i,
    {
        if s.get_char(i) == c {
            return Some(i);
        }
        i = i + 1;
    }
    None
}

/// The last position holding `c`, if any.
pub fn rfind_char(s: &str, c: char) -> (r: Option<usize>)
    ensures
        match r {
            Some(i) => i < s@.len() && s@[i as int] == c && forall|j: int|
                i < j < s@.len() ==> s@[j] != c,
            None => forall|j: int| 0 <= j < s@.len() ==> s@[j] != c,
        },
{
    let len = s.unicode_len();
    let mut i: usize = len;
    while i > 0
        invariant
            i <= len,
            len == s@.len(),
            forall|j: int| i <= j < s@.len() ==> s@[j] != c,
        decreases i,
    {
        i = i - 1;
        if s.get_char(i) == c {
            return Some(i);
        }
    }
    None
}

pub fn contains_char(s: &str, c: char) -> (r: bool)
    ensures
        r == (exists|i: int| 0 <= i < s@.len() && s@[i] == c),
{
    find_char_from(s, 0, c).is_some()
}

/// What is left of `s` once leading whitespace goes.
pub open spec fn trim_start_rec(s: Seq<char>) -> Seq<char>
    decreases s.len(),
{
    if s.len() > 0 && is_space(s[0]) {
        trim_start_rec(s.drop_first())
    } else {
        s
    }
}

/// What is left of `s` once trailing whitespace goes.
pub open spec fn trim_end_rec(s: Seq<char>) -> Seq<char>
    decreases s.len(),
{
    if s.len() > 0 && is_space(s.last()) {
        trim_end_rec(s.drop_last())
    } else {
        s
    }
}

/// `s` with whitespace stripped from both ends.
pub open spec fn trimmed(s: Seq<char>) -> Seq<char> {
    trim_end_rec(trim_start_rec(s))
}

proof fn lemma_trim_start_at(s: Seq<char>, i: int)
    requires
        0 <= i <= s.len(),
        forall|j: int| 0 <= j < i ==> is_space(s[j]),
        i == s.len() || !is_space(s[i]),
    ensures
        trim_start_rec(s) == s.subrange(i, s.len() as int),
    decreases i,
{
    if i == 0 {
        assert(s.subrange(0, s.len() as int) =~= s);
    } else {
        assert(is_space(s[0]));
        lemma_trim_start_at(s.drop_first(), i - 1);
        assert(s.drop_first().subrange(i - 1, s.drop_first().len() as int) =~= s.subrange(
            i,
            s.len() as int,
        ));
    }
}

proof fn lemma_trim_end_at(s: Seq<char>, hi: int)
    requires
        0 <= hi <= s.len(),
        forall|j: int| hi <= j < s.len() ==> is_space(s[j]),
        hi == 0 || !is_space(s[hi - 1]),
    ensures
        trim_end_rec(s) == s.subrange(0, hi),
    decreases s.len() - hi,
{
    if hi < s.len() {
        assert(is_space(s.last()));
        lemma_trim_end_at(s.drop_last(), hi);
        assert(s.drop_last().subrange(0, hi) =~= s.subrange(0, hi));
    } else {
        assert(s.subrange(0, s.len() as int) =~= s);
    }
}

pub fn trim_str(s: &str) -> (r: &str)
    ensures
        r@ == trimmed(s@),
{
    let len = s.unicode_len();
    let mut lo: usize = 0;
    while lo < len && space_char(s.get_char(lo))
        invariant
            lo <= len,
            len == s@.len(),
            forall|j: int| 0 <= j < lo ==> is_space(s@[j]),
        decreases len - lo,
    {
        lo = lo + 1;
    }
    let mut hi: usize = len;
    while hi > lo && space_char(s.get_char(hi - 1))
        invariant
            lo <= hi <= len,
            len == s@.len(),
            forall|j: int| hi <= j < len ==> is_space(s@[j]),
        decreases hi,
    {
        hi = hi - 1;
    }
    let r = s.substring_char(lo, hi);
    proof {
        lemma_trim_start_at(s@, lo as int);
        let t = s@.subrange(lo as int, s@.len() as int);
        lemma_trim_end_at(t, hi - lo);
        assert(t.subrange(0, hi - lo) =~= s@.subrange(lo as int, hi as int));
    }
    r
}

} // verus!
