//! The tool selector: which compressor handles a MIME type, and where
//! its binary lives.
//!
//! `image/gif` and anything that is neither image nor video are
//! unsupported — a skip, not an error. Everything else maps to one of
//! two tool families. Binary resolution honours an environment override
//! per tool first (its value is handed in by the shell, which owns the
//! environment), then falls back to the system path search; a missing
//! binary is an error distinct from an unsupported input.

pub mod ffmpeg;
pub mod gm;

use vstd::prelude::*;
use vstd::string::*;

use crate::error::Error;
use crate::temp;
use crate::text;

pub use ffmpeg::FFMpeg;
pub use gm::Gm;

verus! {

/// The two tool families.
#[derive(Clone, Copy, Debug, PartialEq, Eq, Structural)]
pub enum ToolKind {
    Image,
    Video,
}

/// A resolved tool: the family and the binary that will run.
#[derive(Debug)]
pub enum ShrinkTool {
    FFMpeg(FFMpeg),
    Gm(Gm),
}

/// What came back from the system path search.
pub enum WhichOutcome {
    Found(String),
    NotFound,
    Failed,
}

/// Relies on `which::which`: looks a name up on the system search path
/// and tells "nothing found" apart from a failed search. Which path
/// comes back depends on the system; nothing is promised of it.
#[verifier::external_body]
fn which_lookup(name: &str) -> WhichOutcome {
    match which::which(name) {
        Ok(p) => WhichOutcome::Found(p.to_string_lossy().into_owned()),
        Err(which::Error::CannotFindBinaryPath) => WhichOutcome::NotFound,
        Err(which::Error::CannotGetCurrentDirAndPathListEmpty) => WhichOutcome::Failed,
        Err(which::Error::CannotCanonicalize) => WhichOutcome::Failed,
    }
}

/// Which family, if any, handles this MIME type.
pub open spec fn tool_kind_for(mime: Seq<char>) -> Option<ToolKind> {
    if mime == "image/gif"@ {
        None
    } else if text::starts_with(mime, "image/"@) {
        Some(ToolKind::Image)
    } else if text::starts_with(mime, "video/"@) {
        Some(ToolKind::Video)
    } else {
        None
    }
}

/// Exec mirror of `tool_kind_for`.
pub fn kind_for_mime(mime: &str) -> (r: Option<ToolKind>)
    ensures
        r == tool_kind_for(mime@),
{
    if text::str_eq(mime, "image/gif") {
        None
    } else if text::str_starts_with(mime, "image/") {
        Some(ToolKind::Image)
    } else if text::str_starts_with(mime, "video/") {
        Some(ToolKind::Video)
    } else {
        None
    }
}

impl ToolKind {
    /// The binary that converts for this family.
    pub fn binary_name(&self) -> (r: &'static str)
        ensures
            r@ == self.spec_binary_name(),
    {
        match self {
            ToolKind::Image => "gm",
            ToolKind::Video => "ffmpeg",
        }
    }

    pub open spec fn spec_binary_name(self) -> Seq<char> {
        match self {
            ToolKind::Image => "gm"@,
            ToolKind::Video => "ffmpeg"@,
        }
    }

    /// The binary whose output is probed for an embedded marker.
    pub fn probe_binary_name(&self) -> (r: &'static str)
        ensures
            r@ == self.spec_probe_binary_name(),
    {
        match self {
            ToolKind::Image => "gm",
            ToolKind::Video => "ffprobe",
        }
    }

    pub open spec fn spec_probe_binary_name(self) -> Seq<char> {
        match self {
            ToolKind::Image => "gm"@,
            ToolKind::Video => "ffprobe"@,
        }
    }

    /// The environment variable that overrides this binary's location:
    /// a fixed prefix and the tool name upper-cased.
    pub fn env_override_name(&self) -> (r: &'static str)
        ensures
            r@ == self.spec_env_override_name(),
    {
        match self {
            ToolKind::Image => "RAY_BIN_GM",
            ToolKind::Video => "RAY_BIN_FFMPEG",
        }
    }

    pub open spec fn spec_env_override_name(self) -> Seq<char> {
        match self {
            ToolKind::Image => "RAY_BIN_GM"@,
            ToolKind::Video => "RAY_BIN_FFMPEG"@,
        }
    }

    /// The argv of the probe invocation for this family.
    pub fn probe_argv(&self, input: &str) -> (r: Vec<String>)
        ensures
            r.deep_view() == spec_probe_argv(*self, input@),
    {
        let mut v: Vec<String> = Vec::new();
        match self {
            ToolKind::Image => {
                push_str(&mut v, "identify");
                push_str(&mut v, "-verbose");
                push_str(&mut v, input);
                proof {
                    assert(v.deep_view() =~~= spec_probe_argv(ToolKind::Image, input@));
                }
            },
            ToolKind::Video => {
                push_str(&mut v, "-hide_banner");
                push_str(&mut v, input);
                proof {
                    assert(v.deep_view() =~~= spec_probe_argv(ToolKind::Video, input@));
                }
            },
        }
        v
    }
}

/// The probe argv per family: verbose identification for images, the
/// banner-less probe for videos (whose tags land on stderr).
pub open spec fn spec_probe_argv(k: ToolKind, input: Seq<char>) -> Seq<Seq<char>> {
    match k {
        ToolKind::Image => seq!["identify"@, "-verbose"@, input],
        ToolKind::Video => seq!["-hide_banner"@, input],
    }
}

/// Append one argument to an argv under construction.
pub(crate) fn push_str(v: &mut Vec<String>, s: &str)
    ensures
        final(v).deep_view() == old(v).deep_view().push(s@),
{
    v.push(s.to_owned());
    proof {
        assert(v.deep_view() =~= old(v).deep_view().push(s@));
    }
}

/// Append one built argument to an argv under construction.
pub(crate) fn push_string(v: &mut Vec<String>, s: String)
    ensures
        final(v).deep_view() == old(v).deep_view().push(s@),
{
    let ghost vs = s@;
    v.push(s);
    proof {
        assert(v.deep_view() =~= old(v).deep_view().push(vs));
    }
}

/// Resolve a binary: the environment override (its value handed in by
/// the shell) wins when set, but must point at an existing file; with no
/// override the system path search decides. "Not found" on the search
/// path and "the override points nowhere" are distinct errors.
pub fn resolve_binary(name: &str, env_override: Option<&str>) -> (r: Result<String, Error>)
    ensures
        match env_override {
            Some(p) => match r {
                Ok(b) => b@ == p@,
                Err(e) => e matches Error::BinaryInEnvNotFound(q) && q@ == p@,
            },
            None => match r {
                Ok(_) => true,
                Err(e) => (e matches Error::BinaryNotFound(n) && n@ == name@) || (e
                    matches Error::Which(_)),
            },
        },
{
    match env_override {
        Some(p) => {
            if temp::path_exists(p) {
                Ok(p.to_owned())
            } else {
                Err(Error::BinaryInEnvNotFound(p.to_owned()))
            }
        },
        None => match which_lookup(name) {
            WhichOutcome::Found(b) => Ok(b),
            WhichOutcome::NotFound => Err(Error::BinaryNotFound(name.to_owned())),
            WhichOutcome::Failed => Err(Error::Which("path search failed".to_owned())),
        },
    }
}

impl ShrinkTool {
    /// The family of this tool.
    pub open spec fn spec_kind(self) -> ToolKind {
        match self {
            ShrinkTool::FFMpeg(_) => ToolKind::Video,
            ShrinkTool::Gm(_) => ToolKind::Image,
        }
    }

    pub fn kind(&self) -> (r: ToolKind)
        ensures
            r == self.spec_kind(),
    {
        match self {
            ShrinkTool::FFMpeg(_) => ToolKind::Video,
            ShrinkTool::Gm(_) => ToolKind::Image,
        }
    }

    /// The tool that handles this MIME type, with its binary resolved on
    /// the system path: unsupported types give `Ok(None)`, a missing
    /// binary is an error.
    pub fn for_mime(mime: &str) -> (r: Result<Option<ShrinkTool>, Error>)
        ensures
            match tool_kind_for(mime@) {
                None => r matches Ok(Option::<ShrinkTool>::None),
                Some(k) => match r {
                    Ok(o) => o matches Some(t) && t.spec_kind() == k,
                    Err(e) => (e matches Error::BinaryNotFound(_)) || (e matches Error::Which(_)),
                },
            },
    {
        match kind_for_mime(mime) {
            None => Ok(None),
            Some(kind) => match ShrinkTool::resolve(kind, None) {
                Ok(t) => Ok(Some(t)),
                Err(e) => Err(e),
            },
        }
    }

    /// Resolve the binary for a family and wrap it as a tool.
    pub fn resolve(kind: ToolKind, env_override: Option<&str>) -> (r: Result<ShrinkTool, Error>)
        ensures
            match r {
                Ok(t) => t.spec_kind() == kind && (env_override matches Some(p) ==> t.spec_path()
                    == p@),
                Err(e) => match env_override {
                    Some(p) => e matches Error::BinaryInEnvNotFound(q) && q@ == p@,
                    None => (e matches Error::BinaryNotFound(_)) || (e matches Error::Which(_)),
                },
            },
    {
        let path = resolve_binary(kind.binary_name(), env_override)?;
        match kind {
            ToolKind::Image => Ok(ShrinkTool::Gm(Gm { path })),
            ToolKind::Video => Ok(ShrinkTool::FFMpeg(FFMpeg { path })),
        }
    }

    /// The resolved binary path.
    pub open spec fn spec_path(self) -> Seq<char> {
        match self {
            ShrinkTool::FFMpeg(f) => f.path@,
            ShrinkTool::Gm(g) => g.path@,
        }
    }

    pub fn path(&self) -> (r: &str)
        ensures
            r@ == self.spec_path(),
    {
        match self {
            ShrinkTool::FFMpeg(f) => f.path.as_str(),
            ShrinkTool::Gm(g) => g.path.as_str(),
        }
    }

    /// The tool's name, as reported in failures.
    pub fn name(&self) -> (r: &'static str)
        ensures
            r@ == self.spec_name(),
    {
        match self {
            ShrinkTool::FFMpeg(_) => "ffmpeg",
            ShrinkTool::Gm(_) => "gm",
        }
    }

    pub open spec fn spec_name(self) -> Seq<char> {
        match self {
            ShrinkTool::FFMpeg(_) => "ffmpeg"@,
            ShrinkTool::Gm(_) => "gm"@,
        }
    }

    /// The extension of this tool's output files, without its dot.
    pub fn extension(&self) -> (r: &'static str)
        ensures
            r@ == self.spec_extension(),
    {
        match self {
            ShrinkTool::FFMpeg(_) => "webm",
            ShrinkTool::Gm(_) => "jpg",
        }
    }

    pub open spec fn spec_extension(self) -> Seq<char> {
        match self {
            ShrinkTool::FFMpeg(_) => "webm"@,
            ShrinkTool::Gm(_) => "jpg"@,
        }
    }

    /// The same extension with its dot, as temp-name allocation wants it.
    pub fn ext_suffix(&self) -> (r: &'static str)
        ensures
            r@ == self.spec_ext_suffix(),
    {
        match self {
            ShrinkTool::FFMpeg(_) => ".webm",
            ShrinkTool::Gm(_) => ".jpg",
        }
    }

    pub open spec fn spec_ext_suffix(self) -> Seq<char> {
        match self {
            ShrinkTool::FFMpeg(_) => ".webm"@,
            ShrinkTool::Gm(_) => ".jpg"@,
        }
    }

    /// The single-pass conversion argv for this tool.
    pub fn command(&self, input: &str, marker: &str, output: &str) -> (r: Vec<String>)
        ensures
            r.deep_view() == self.spec_command(input@, marker@, output@),
    {
        match self {
            ShrinkTool::FFMpeg(f) => f.command(input, marker, output),
            ShrinkTool::Gm(g) => g.command(input, marker, output),
        }
    }

    pub open spec fn spec_command(
        self,
        input: Seq<char>,
        marker: Seq<char>,
        output: Seq<char>,
    ) -> Seq<Seq<char>> {
        match self {
            ShrinkTool::FFMpeg(_) => ffmpeg::spec_single_pass_argv(input, marker, output),
            ShrinkTool::Gm(_) => gm::spec_convert_argv(input, marker, output),
        }
    }

    /// A copy of this tool.
    pub fn duplicate(&self) -> (r: Self)
        ensures
            r == *self,
    {
        match self {
            ShrinkTool::FFMpeg(f) => ShrinkTool::FFMpeg(FFMpeg { path: f.path.clone() }),
            ShrinkTool::Gm(g) => ShrinkTool::Gm(Gm { path: g.path.clone() }),
        }
    }
}

} // verus!
