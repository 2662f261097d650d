//! The video tool: ffmpeg.
//!
//! A conversion runs two VP9 encode passes over a shared pass-log file;
//! the final pass drops all inherited metadata and embeds the fresh
//! marker as the comment tag. The single-pass argv is the direct form
//! used when no pass log is wanted.

use vstd::prelude::*;
use vstd::string::*;

use crate::shrink::push_str;

verus! {

/// The video tool with its resolved binary.
#[derive(Debug)]
pub struct FFMpeg {
    pub path: String,
}

/// The single-pass conversion argv.
pub open spec fn spec_single_pass_argv(
    input: Seq<char>,
    marker: Seq<char>,
    output: Seq<char>,
) -> Seq<Seq<char>> {
    seq![
        "-hide_banner"@,
        "-loglevel"@,
        "error"@,
        "-y"@,
        "-i"@,
        input,
        "-c:v"@,
        "vp9"@,
        "-c:a"@,
        "opus"@,
        "-strict"@,
        "-2"@,
        "-row-mt"@,
        "1"@,
        "-map_metadata"@,
        "-1"@,
        "-metadata"@,
        "comment="@ + marker,
        "-f"@,
        "webm"@,
        output,
    ]
}

/// The first encode pass: video only, analysis written to the pass log,
/// output discarded.
pub open spec fn spec_pass1_argv(input: Seq<char>, log: Seq<char>) -> Seq<Seq<char>> {
    seq![
        "-hide_banner"@,
        "-loglevel"@,
        "error"@,
        "-y"@,
        "-i"@,
        input,
        "-c:v"@,
        "vp9"@,
        "-an"@,
        "-sn"@,
        "-strict"@,
        "-2"@,
        "-row-mt"@,
        "1"@,
        "-pass"@,
        "1"@,
        "-passlogfile"@,
        log,
        "-f"@,
        "null"@,
        "-"@,
    ]
}

/// The second encode pass: full streams, inherited metadata dropped, the
/// marker embedded, the real output written.
pub open spec fn spec_pass2_argv(
    input: Seq<char>,
    marker: Seq<char>,
    log: Seq<char>,
    output: Seq<char>,
) -> Seq<Seq<char>> {
    seq![
        "-hide_banner"@,
        "-loglevel"@,
        "error"@,
        "-y"@,
        "-i"@,
        input,
        "-c:v"@,
        "vp9"@,
        "-c:a"@,
        "opus"@,
        "-strict"@,
        "-2"@,
        "-row-mt"@,
        "1"@,
        "-map_metadata"@,
        "-1"@,
        "-metadata"@,
        "comment="@ + marker,
        "-pass"@,
        "2"@,
        "-passlogfile"@,
        log,
        "-f"@,
        "webm"@,
        output,
    ]
}

fn push_comment_tag(v: &mut Vec<String>, marker: &str)
    ensures
        final(v).deep_view() == old(v).deep_view().push("comment="@ + marker@),
{
    let mut tag = "comment=".to_owned();
    tag.append(marker);
    v.push(tag);
    proof {
        assert(v.deep_view() =~= old(v).deep_view().push("comment="@ + marker@));
    }
}

impl FFMpeg {
    pub fn command(&self, input: &str, marker: &str, output: &str) -> (r: Vec<String>)
        ensures
            r.deep_view() == spec_single_pass_argv(input@, marker@, output@),
    {
        let mut v: Vec<String> = Vec::new();
        push_str(&mut v, "-hide_banner");
        push_str(&mut v, "-loglevel");
        push_str(&mut v, "error");
        push_str(&mut v, "-y");
        push_str(&mut v, "-i");
        push_str(&mut v, input);
        push_str(&mut v, "-c:v");
        push_str(&mut v, "vp9");
        push_str(&mut v, "-c:a");
        push_str(&mut v, "opus");
        push_str(&mut v, "-strict");
        push_str(&mut v, "-2");
        push_str(&mut v, "-row-mt");
        push_str(&mut v, "1");
        push_str(&mut v, "-map_metadata");
        push_str(&mut v, "-1");
        push_str(&mut v, "-metadata");
        push_comment_tag(&mut v, marker);
        push_str(&mut v, "-f");
        push_str(&mut v, "webm");
        push_str(&mut v, output);
        proof {
            assert(v.deep_view() =~~= spec_single_pass_argv(input@, marker@, output@));
        }
        v
    }

    pub fn pass1_argv(&self, input: &str, log: &str) -> (r: Vec<String>)
        ensures
            r.deep_view() == spec_pass1_argv(input@, log@),
    {
        let mut v: Vec<String> = Vec::new();
        push_str(&mut v, "-hide_banner");
        push_str(&mut v, "-loglevel");
        push_str(&mut v, "error");
        push_str(&mut v, "-y");
        push_str(&mut v, "-i");
        push_str(&mut v, input);
        push_str(&mut v, "-c:v");
        push_str(&mut v, "vp9");
        push_str(&mut v, "-an");
        push_str(&mut v, "-sn");
        push_str(&mut v, "-strict");
        push_str(&mut v, "-2");
        push_str(&mut v, "-row-mt");
        push_str(&mut v, "1");
        push_str(&mut v, "-pass");
        push_str(&mut v, "1");
        push_str(&mut v, "-passlogfile");
        push_str(&mut v, log);
        push_str(&mut v, "-f");
        push_str(&mut v, "null");
        push_str(&mut v, "-");
        proof {
            assert(v.deep_view() =~~= spec_pass1_argv(input@, log@));
        }
        v
    }

    pub fn pass2_argv(&self, input: &str, marker: &str, log: &str, output: &str) -> (r: Vec<String>)
        ensures
            r.deep_view() == spec_pass2_argv(input@, marker@, log@, output@),
    {
        let mut v: Vec<String> = Vec::new();
        push_str(&mut v, "-hide_banner");
        push_str(&mut v, "-loglevel");
        push_str(&mut v, "error");
        push_str(&mut v, "-y");
        push_str(&mut v, "-i");
        push_str(&mut v, input);
        push_str(&mut v, "-c:v");
        push_str(&mut v, "vp9");
        push_str(&mut v, "-c:a");
        push_str(&mut v, "opus");
        push_str(&mut v, "-strict");
        push_str(&mut v, "-2");
        push_str(&mut v, "-row-mt");
        push_str(&mut v, "1");
        push_str(&mut v, "-map_metadata");
        push_str(&mut v, "-1");
        push_str(&mut v, "-metadata");
        push_comment_tag(&mut v, marker);
        push_str(&mut v, "-pass");
        push_str(&mut v, "2");
        push_str(&mut v, "-passlogfile");
        push_str(&mut v, log);
        push_str(&mut v, "-f");
        push_str(&mut v, "webm");
        push_str(&mut v, output);
        proof {
            assert(v.deep_view() =~~= spec_pass2_argv(input@, marker@, log@, output@));
        }
        v
    }
}

} // verus!
