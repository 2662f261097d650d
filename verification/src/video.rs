//! Reading the marker back out of a video, and the pass-log file name.
//!
//! The video probe prints tags such as the comment on a line containing
//! `COMMENT`; only the first such line counts. The line is split on its
//! first colon, and the value side — tidied of surrounding whitespace —
//! is the raw marker text, which still passes through the codec before
//! being trusted.

use vstd::prelude::*;
use vstd::string::*;

use crate::text;

verus! {

/// The raw marker text from a probe output: the value after the colon on
/// the first `COMMENT` line, trimmed; nothing when no such line exists
/// or the line carries no colon.
pub fn extract_comment(out: &str) -> (r: Option<String>)
    ensures
        match r {
            Some(t) => exists|i: int, e: int, c: int|
                #![trigger text::is_line_end(out@, i, e), text::is_first_char_in(out@, i, e, ':', c)]
                text::is_first_match(out@, "COMMENT"@, i) && text::is_line_end(out@, i, e)
                    && text::is_first_char_in(out@, i, e, ':', c) && t@ == text::trimmed(
                    out@.subrange(c + 1, e),
                ),
            None => (forall|i: int| !text::matches_at(out@, "COMMENT"@, i)) || (exists|i: int, e: int|
                #![trigger text::is_line_end(out@, i, e)]
                text::is_first_match(out@, "COMMENT"@, i) && text::is_line_end(out@, i, e)
                    && (forall|j: int| i <= j < e ==> out@[j] != ':')),
        },
{
    match text::find_str(out, "COMMENT") {
        None => None,
        Some(i) => {
            let len = out.unicode_len();
            let e = match text::find_char_from(out, i, '\n') {
                Some(e) => e,
                None => len,
            };
            match text::find_char_from(out, i, ':') {
                Some(c) => {
                    if c < e {
                        let value = out.substring_char(c + 1, e);
                        let t = text::trim_str(value);
                        let r = t.to_owned();
                        proof {
                            assert(text::is_first_match(out@, "COMMENT"@, i as int));
                            assert(text::is_line_end(out@, i as int, e as int));
                            assert(text::is_first_char_in(out@, i as int, e as int, ':', c as int));
                        }
                        Some(r)
                    } else {
                        proof {
                            assert(text::is_first_match(out@, "COMMENT"@, i as int));
                            assert(text::is_line_end(out@, i as int, e as int));
                            assert(forall|j: int| i <= j < e ==> out@[j] != ':');
                        }
                        None
                    }
                },
                None => {
                    proof {
                        assert(text::is_first_match(out@, "COMMENT"@, i as int));
                        assert(text::is_line_end(out@, i as int, e as int));
                        assert(forall|j: int| i <= j < e ==> out@[j] != ':');
                    }
                    None
                },
            }
        },
    }
}

/// The file the encoder actually writes for a pass-log prefix.
pub fn full_log_file_name(path: &str) -> (r: String)
    ensures
        r@ == path@ + "-0.log"@,
{
    let mut out = path.to_owned();
    out.append("-0.log");
    out
}

} // verus!
