//! The temp-name allocator: collision-free candidate filenames.
//!
//! A candidate is built beside the base path — its directory and stem, a
//! dash, a fixed-length random alphanumeric suffix, and the requested
//! ending — and re-drawn with a fresh suffix while the filesystem reports
//! the name as taken. The check is a pure existence probe: nothing is
//! created, and the caller must claim the path promptly (best-effort
//! uniqueness, not a hard lock).

use vstd::prelude::*;
use vstd::string::*;

use crate::pathname;

verus! {

/// How many characters the random suffix holds.
pub const SUFFIX_LEN: usize = 8;

/// How many taken candidates are tolerated before the last one is
/// returned regardless; far beyond any plausible run of collisions.
const ATTEMPT_LIMIT: u64 = 1000000;

/// The alphabet the random suffix draws from.
pub open spec fn alphabet() -> Seq<char> {
    "abcdefghijklmnopqrstuvwxyz0123456789"@
}

/// Relies on `rand::random_range`: a uniform draw from a nonempty range
/// stays within the range (it panics only on an empty one).
#[verifier::external_body]
fn random_index(bound: usize) -> (r: usize)
    requires
        bound > 0,
    ensures
        r < bound,
{
    rand::random_range(0..bound)
}

/// Relies on `std::path::Path::exists`: asks the filesystem whether the
/// path points at anything. Nothing is promised of the answer — it
/// depends on the disk at that moment.
#[verifier::external_body]
pub(crate) fn path_exists(p: &str) -> bool {
    std::path::Path::new(p).exists()
}

/// A fixed-length suffix drawn from the allocator's alphabet.
pub open spec fn is_alphabet_suffix(s: Seq<char>) -> bool {
    s.len() == SUFFIX_LEN && forall|i: int| 0 <= i < s.len() ==> alphabet().contains(#[trigger] s[i])
}

/// The shape of every path this allocator hands out: stem prefix of the
/// base, a dash, a fresh suffix, the requested ending.
pub open spec fn is_candidate(p: Seq<char>, base: Seq<char>, ending: Seq<char>) -> bool {
    exists|sfx: Seq<char>|
        is_alphabet_suffix(sfx) && p == pathname::spec_stem_prefix(base) + seq!['-'] + sfx + ending
}

fn random_suffix() -> (r: String)
    ensures
        is_alphabet_suffix(r@),
{
    let src = "abcdefghijklmnopqrstuvwxyz0123456789";
    proof {
        reveal_strlit("abcdefghijklmnopqrstuvwxyz0123456789");
    }
    let mut out = String::new();
    let mut k: usize = 0;
    while k < SUFFIX_LEN
        invariant
            k <= SUFFIX_LEN,
            out@.len() == k,
            src@ == alphabet(),
            src@.len() == 36,
            forall|j: int| 0 <= j < k ==> alphabet().contains(#[trigger] out@[j]),
        decreases SUFFIX_LEN - k,
    {
        let i = random_index(36);
        let c = src.substring_char(i, i + 1);
        out.append(c);
        proof {
            assert(c@[0] == alphabet()[i as int]);
            assert(alphabet().contains(c@[0]));
        }
        k = k + 1;
    }
    out
}

/// A candidate temporary path beside `base`, with the given ending
/// appended verbatim. Candidates the existence probe reported as taken
/// are not returned (fresh suffixes are drawn instead); only if every
/// probe in the attempt budget reports taken does the last candidate
/// come back regardless.
pub fn file(base: &str, suffix: Option<&str>) -> (r: String)
    ensures
        is_candidate(
            r@,
            base@,
            match suffix {
                Some(s) => s@,
                None => Seq::<char>::empty(),
            },
        ),
{
    let prefix = stem_dash(base);
    let mut attempts: u64 = 0;
    loop
        invariant
            prefix@ == pathname::spec_stem_prefix(base@) + seq!['-'],
            attempts < ATTEMPT_LIMIT,
        decreases ATTEMPT_LIMIT - attempts,
    {
        let mut cand = prefix.clone();
        let sfx = random_suffix();
        cand.append(sfx.as_str());
        match suffix {
            Some(s) => cand.append(s),
            None => (),
        }
        proof {
            assert(cand@ == pathname::spec_stem_prefix(base@) + seq!['-'] + sfx@ + match suffix {
                Some(s) => s@,
                None => Seq::<char>::empty(),
            });
        }
        if attempts >= ATTEMPT_LIMIT - 1 || !path_exists(cand.as_str()) {
            return cand;
        }
        attempts = attempts + 1;
    }
}

fn stem_dash(base: &str) -> (r: String)
    ensures
        r@ == pathname::spec_stem_prefix(base@) + seq!['-'],
{
    let mut prefix = pathname::stem_prefix(base).to_owned();
    prefix.append("-");
    proof {
        reveal_strlit("-");
        assert("-"@ =~= seq!['-']);
    }
    prefix
}

/// Law: the candidate shape is injective in the suffix — two candidates
/// beside the same base with the same ending coincide only when their
/// random suffixes coincide. Distinct draws give distinct paths.
pub proof fn lemma_candidate_injective(
    base: Seq<char>,
    ending: Seq<char>,
    s1: Seq<char>,
    s2: Seq<char>,
)
    requires
        is_alphabet_suffix(s1),
        is_alphabet_suffix(s2),
    ensures
        (pathname::spec_stem_prefix(base) + seq!['-'] + s1 + ending == pathname::spec_stem_prefix(
            base,
        ) + seq!['-'] + s2 + ending) ==> s1 == s2,
{
    let p = pathname::spec_stem_prefix(base) + seq!['-'];
    if p + s1 + ending == p + s2 + ending {
        assert forall|i: int| 0 <= i < s1.len() implies s1[i] == s2[i] by {
            assert((p + s1 + ending)[p.len() + i] == s1[i]);
            assert((p + s2 + ending)[p.len() + i] == s2[i]);
        }
        assert(s1 =~= s2);
    }
}

} // verus!
