//! Path texts, modeled as plain strings.
//!
//! The library works on paths as character sequences: the directory part
//! ends at the last slash, and the extension of a file name follows its
//! last dot (a dot in first position marks a hidden file, not an
//! extension). The unverified shell converts between these texts and the
//! platform's path type.

use vstd::prelude::*;
use vstd::string::*;

use crate::text;

verus! {

/// Where the file name begins: right after the last slash, or at the
/// start when there is none.
pub open spec fn name_start(p: Seq<char>) -> int {
    match p.index_of_last('/') {
        Some(i) => i + 1,
        None => 0,
    }
}

/// The file name: everything after the last slash.
pub open spec fn spec_file_name(p: Seq<char>) -> Seq<char> {
    p.subrange(name_start(p), p.len() as int)
}

/// Where the extension dot of the file name sits in `p`, if there is one.
pub open spec fn spec_ext_dot(p: Seq<char>) -> Option<int> {
    match spec_file_name(p).index_of_last('.') {
        Some(d) => if d > 0 {
            Some(name_start(p) + d)
        } else {
            None
        },
        None => None,
    }
}

/// Everything up to (not including) the extension dot: directory part
/// plus stem.
pub open spec fn spec_stem_prefix(p: Seq<char>) -> Seq<char> {
    match spec_ext_dot(p) {
        Some(d) => p.subrange(0, d),
        None => p,
    }
}

/// The extension of the file name, without its dot.
pub open spec fn spec_extension(p: Seq<char>) -> Option<Seq<char>> {
    match spec_ext_dot(p) {
        Some(d) => Some(p.subrange(d + 1, p.len() as int)),
        None => None,
    }
}

/// The path with its extension replaced (or appended): stem, dot, `ext`;
/// an empty `ext` just drops the old extension.
pub open spec fn spec_with_extension(p: Seq<char>, ext: Seq<char>) -> Seq<char> {
    if ext.len() == 0 {
        spec_stem_prefix(p)
    } else {
        spec_stem_prefix(p) + seq!['.'] + ext
    }
}

/// A directory path joined with a file name.
pub open spec fn spec_join(dir: Seq<char>, name: Seq<char>) -> Seq<char> {
    if dir.len() == 0 || dir.last() == '/' {
        dir + name
    } else {
        dir + seq!['/'] + name
    }
}

/// The parent directory: the directory part without its trailing slash;
/// empty when the path is a bare file name.
pub open spec fn spec_parent(p: Seq<char>) -> Seq<char> {
    if name_start(p) == 0 {
        Seq::empty()
    } else {
        p.subrange(0, name_start(p) - 1)
    }
}

/// The last occurrence found by a scan is the one `index_of_last` names.
proof fn lemma_last_occurrence(s: Seq<char>, c: char, i: int)
    requires
        0 <= i < s.len(),
        s[i] == c,
        forall|j: int| i < j < s.len() ==> s[j] != c,
    ensures
        s.index_of_last(c) == Some(i),
{
    assert(s.contains(c));
    s.index_of_last_ensures(c);
}

proof fn lemma_no_occurrence(s: Seq<char>, c: char)
    requires
        forall|j: int| 0 <= j < s.len() ==> s[j] != c,
    ensures
        s.index_of_last(c) == Option::<int>::None,
{
    s.index_of_last_ensures(c);
}

pub fn name_start_idx(p: &str) -> (r: usize)
    ensures
        r == name_start(p@),
        0 <= r <= p@.len(),
{
    let _len: usize = p.unicode_len();
    match text::rfind_char(p, '/') {
        Some(i) => {
            proof {
                lemma_last_occurrence(p@, '/', i as int);
            }
            i + 1
        },
        None => {
            proof {
                lemma_no_occurrence(p@, '/');
            }
            0
        },
    }
}

pub fn file_name(p: &str) -> (r: &str)
    ensures
        r@ == spec_file_name(p@),
{
    let len = p.unicode_len();
    let ns = name_start_idx(p);
    p.substring_char(ns, len)
}

/// The absolute position of the extension dot, or the path length when
/// there is no extension.
fn stem_end_idx(p: &str) -> (r: usize)
    ensures
        match spec_ext_dot(p@) {
            Some(d) => r == d && d < p@.len(),
            None => r == p@.len(),
        },
{
    let len = p.unicode_len();
    let ns = name_start_idx(p);
    let name = p.substring_char(ns, len);
    match text::rfind_char(name, '.') {
        Some(d) => {
            proof {
                lemma_last_occurrence(name@, '.', d as int);
            }
            if d > 0 {
                ns + d
            } else {
                len
            }
        },
        None => {
            proof {
                lemma_no_occurrence(name@, '.');
            }
            len
        },
    }
}

/// Directory part plus stem: the path up to its extension dot.
pub fn stem_prefix(p: &str) -> (r: &str)
    ensures
        r@ == spec_stem_prefix(p@),
{
    let e = stem_end_idx(p);
    let r = p.substring_char(0, e);
    proof {
        if spec_ext_dot(p@) is None {
            assert(p@.subrange(0, p@.len() as int) =~= p@);
        }
    }
    r
}

pub fn extension(p: &str) -> (r: Option<&str>)
    ensures
        match r {
            Some(e) => spec_extension(p@) == Some(e@),
            None => spec_extension(p@) is None,
        },
{
    let len = p.unicode_len();
    let e = stem_end_idx(p);
    if e == len {
        None
    } else {
        Some(p.substring_char(e + 1, len))
    }
}

pub fn with_extension(p: &str, ext: &str) -> (r: String)
    ensures
        r@ == spec_with_extension(p@, ext@),
{
    let mut out = stem_prefix(p).to_owned();
    if ext.unicode_len() > 0 {
        out.append(".");
        out.append(ext);
        proof {
            reveal_strlit(".");
            assert("."@ =~= seq!['.']);
            assert(out@ =~= spec_with_extension(p@, ext@));
        }
    }
    out
}

pub fn join(dir: &str, name: &str) -> (r: String)
    ensures
        r@ == spec_join(dir@, name@),
{
    let dlen = dir.unicode_len();
    let mut out = dir.to_owned();
    if dlen > 0 && dir.get_char(dlen - 1) == '/' {
        out.append(name);
    } else if dlen == 0 {
        out.append(name);
    } else {
        out.append("/");
        out.append(name);
        proof {
            reveal_strlit("/");
            assert("/"@ =~= seq!['/']);
        }
    }
    out
}

pub fn parent_dir(p: &str) -> (r: &str)
    ensures
        r@ == spec_parent(p@),
{
    let ns = name_start_idx(p);
    if ns == 0 {
        let r = p.substring_char(0, 0);
        proof {
            assert(p@.subrange(0, 0) =~= Seq::<char>::empty());
        }
        r
    } else {
        p.substring_char(0, ns - 1)
    }
}

} // verus!
