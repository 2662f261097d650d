//! Reading the marker back out of an image.
//!
//! The image tool's verbose identify output carries the embedded comment
//! on a line starting `Comment:`; only the first such line counts, and
//! what follows the tag — tidied of surrounding whitespace — is the raw
//! marker text, which still passes through the codec before being
//! trusted.

use vstd::prelude::*;
use vstd::string::*;

use crate::text;

verus! {

/// The raw marker text from a verbose identify output: what follows the
/// first `Comment:` tag up to the end of its line, trimmed; nothing when
/// no tag occurs.
pub fn extract_comment(out: &str) -> (r: Option<String>)
    ensures
        match r {
            Some(t) => exists|i: int, start: int, e: int|
                #![trigger text::is_first_match(out@, "Comment:"@, i), text::is_line_end(out@, start, e)]
                text::is_first_match(out@, "Comment:"@, i) && start == i + "Comment:"@.len()
                    && text::is_line_end(out@, start, e) && t@ == text::trimmed(
                    out@.subrange(start, e),
                ),
            None => forall|i: int| !text::matches_at(out@, "Comment:"@, i),
        },
{
    proof {
        reveal_strlit("Comment:");
    }
    match text::find_str(out, "Comment:") {
        None => None,
        Some(i) => {
            let len = out.unicode_len();
            let start = i + 8;
            let e = match text::find_char_from(out, start, '\n') {
                Some(e) => e,
                None => len,
            };
            let line = out.substring_char(start, e);
            let t = text::trim_str(line);
            let r = t.to_owned();
            proof {
                assert(text::is_first_match(out@, "Comment:"@, i as int));
                assert(text::is_line_end(out@, start as int, e as int));
            }
            Some(r)
        },
    }
}

} // verus!
