//! The image tool: GraphicsMagick.
//!
//! One pass re-encodes the input as JPEG, strips existing metadata and
//! embeds the fresh marker as the image comment.

use vstd::prelude::*;
use vstd::string::*;

use crate::shrink::push_str;
use crate::shrink::push_string;

verus! {

/// The image tool with its resolved binary.
#[derive(Debug)]
pub struct Gm {
    pub path: String,
}

/// The conversion argv: re-encode, strip, embed the marker, write the
/// output through the explicit `jpeg:` format prefix.
pub open spec fn spec_convert_argv(
    input: Seq<char>,
    marker: Seq<char>,
    output: Seq<char>,
) -> Seq<Seq<char>> {
    seq!["convert"@, input, "-strip"@, "-comment"@, marker, "jpeg:"@ + output]
}

impl Gm {
    pub fn command(&self, input: &str, marker: &str, output: &str) -> (r: Vec<String>)
        ensures
            r.deep_view() == spec_convert_argv(input@, marker@, output@),
    {
        let mut v: Vec<String> = Vec::new();
        push_str(&mut v, "convert");
        push_str(&mut v, input);
        push_str(&mut v, "-strip");
        push_str(&mut v, "-comment");
        push_str(&mut v, marker);
        let mut last = "jpeg:".to_owned();
        last.append(output);
        push_string(&mut v, last);
        proof {
            assert(v.deep_view() =~~= spec_convert_argv(input@, marker@, output@));
        }
        v
    }
}

} // verus!
