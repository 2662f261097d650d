//! The idempotency marker embedded in every converted file.
//!
//! Its canonical text is `"<product>/<version>"`. The product prefix is
//! matched case-insensitively and must be followed by a valid semantic
//! version; anything else is "no marker", never a fatal error.

use vstd::prelude::*;
use vstd::string::*;

use crate::text;

verus! {

/// Name for what semver's parser accepts: `semver::Version::parse(s)`
/// succeeds on a text or not as a function of its characters alone.
pub uninterp spec fn is_semver(s: Seq<char>) -> bool;

/// Relies on `semver::Version::parse`: deciding whether a text is a valid
/// semantic version depends on the text alone.
#[verifier::external_body]
fn semver_accepts(s: &str) -> (r: bool)
    ensures
        r == is_semver(s@),
{
    semver::Version::parse(s).is_ok()
}

/// Why a text is not trusted as a marker.
#[derive(Clone, Copy, Debug, PartialEq, Eq, Structural)]
pub enum CommentParseError {
    /// The product prefix does not match: not this tool's marker at all.
    NotShrinkRay,
    /// The prefix matches but what follows is not a semantic version.
    NotVersion,
}

/// A parsed marker: the version of the tool that converted the file.
#[derive(Clone, Debug)]
pub struct Comment {
    pub version: String,
}

/// The product name under which markers are written.
pub open spec fn product_name() -> Seq<char> {
    "shrink-ray"@
}

/// The version written into fresh markers.
pub open spec fn default_version() -> Seq<char> {
    "1.2.0"@
}

/// Canonical marker text: the product, a slash, the version.
pub open spec fn spec_format(product: Seq<char>, version: Seq<char>) -> Seq<char> {
    product + seq!['/'] + version
}

/// What parsing a marker yields: the version text, or the reason the text
/// is not trusted. The prefix (product and slash) is matched
/// case-insensitively and by exact length.
pub open spec fn spec_parse(product: Seq<char>, s: Seq<char>) -> Result<
    Seq<char>,
    CommentParseError,
> {
    let plen = product.len() + 1;
    if s.len() < plen || !text::eq_ignore_case(s.subrange(0, plen as int), product + seq!['/']) {
        Err(CommentParseError::NotShrinkRay)
    } else if !is_semver(s.subrange(plen as int, s.len() as int)) {
        Err(CommentParseError::NotVersion)
    } else {
        Ok(s.subrange(plen as int, s.len() as int))
    }
}

pub fn product() -> (r: &'static str)
    ensures
        r@ == product_name(),
{
    "shrink-ray"
}

/// `"<product>/<version>"`.
pub fn format_marker(product: &str, version: &str) -> (r: String)
    ensures
        r@ == spec_format(product@, version@),
{
    let mut out = product.to_owned();
    out.append("/");
    out.append(version);
    proof {
        reveal_strlit("/");
        assert("/"@ =~= seq!['/']);
        assert(out@ =~= spec_format(product@, version@));
    }
    out
}

/// Parse a marker against an expected product prefix.
pub fn parse_marker(product: &str, s: &str) -> (r: Result<Comment, CommentParseError>)
    ensures
        match r {
            Ok(c) => spec_parse(product@, s@) == Ok::<Seq<char>, CommentParseError>(c.version@),
            Err(e) => spec_parse(product@, s@) == Err::<Seq<char>, CommentParseError>(e),
        },
{
    let plen = product.unicode_len();
    let slen = s.unicode_len();
    if plen == usize::MAX || slen < plen + 1 {
        // A product name of the largest possible length leaves no room for
        // a slash and a version inside an addressable text.
        proof {
            if plen == usize::MAX {
                assert(s@.len() < product@.len() + 1);
            }
        }
        return Err(CommentParseError::NotShrinkRay);
    }
    let head = s.substring_char(0, plen + 1);
    let mut prefix = product.to_owned();
    prefix.append("/");
    proof {
        reveal_strlit("/");
        assert("/"@ =~= seq!['/']);
        assert(prefix@ =~= product@ + seq!['/']);
    }
    if !text::eq_str_ignore_case(head, prefix.as_str()) {
        return Err(CommentParseError::NotShrinkRay);
    }
    let rest = s.substring_char(plen + 1, slen);
    if semver_accepts(rest) {
        Ok(Comment { version: rest.to_owned() })
    } else {
        Err(CommentParseError::NotVersion)
    }
}

impl Comment {
    /// Parse a marker written by this tool.
    pub fn parse(s: &str) -> (r: Result<Comment, CommentParseError>)
        ensures
            match r {
                Ok(c) => spec_parse(product_name(), s@) == Ok::<
                    Seq<char>,
                    CommentParseError,
                >(c.version@),
                Err(e) => spec_parse(product_name(), s@) == Err::<Seq<char>, CommentParseError>(e),
            },
    {
        parse_marker(product(), s)
    }

    /// The canonical text of this marker.
    pub fn format(&self) -> (r: String)
        ensures
            r@ == spec_format(product_name(), self.version@),
    {
        format_marker(product(), self.version.as_str())
    }
}

impl Default for Comment {
    /// The marker this tool embeds into its own output.
    fn default() -> (r: Self)
        ensures
            r.version@ == default_version(),
    {
        let version = "1.2.0";
        Comment { version: version.to_owned() }
    }
}

impl PartialEq for Comment {
    fn eq(&self, other: &Self) -> (r: bool) {
        self.version == other.version
    }
}

impl vstd::std_specs::cmp::PartialEqSpecImpl for Comment {
    open spec fn obeys_eq_spec() -> bool {
        true
    }

    open spec fn eq_spec(&self, other: &Comment) -> bool {
        self.version@ == other.version@
    }
}

/// Law: formatting a marker and parsing it back yields exactly the version
/// that went in, for every product and every version the version parser
/// accepts.
pub proof fn lemma_marker_round_trip(product: Seq<char>, version: Seq<char>)
    ensures
        is_semver(version) ==> spec_parse(product, spec_format(product, version)) == Ok::<
            Seq<char>,
            CommentParseError,
        >(version),
{
    let s = spec_format(product, version);
    let p = product + seq!['/'];
    let plen = product.len() + 1;
    assert(s.subrange(0, plen as int) =~= p);
    assert(s.subrange(plen as int, s.len() as int) =~= version);
}

/// Law: a text too short for the prefix, or one whose head does not match
/// it up to ASCII case, is not a marker at all.
pub proof fn lemma_marker_wrong_prefix(product: Seq<char>, s: Seq<char>)
    ensures
        (s.len() < product.len() + 1 || !text::eq_ignore_case(
            s.subrange(0, product.len() as int + 1),
            product + seq!['/'],
        )) ==> spec_parse(product, s) == Err::<Seq<char>, CommentParseError>(
            CommentParseError::NotShrinkRay,
        ),
{
}

/// Law: a matching prefix followed by anything the version parser rejects
/// is reported as a bad version, not as a foreign marker.
pub proof fn lemma_marker_bad_version(product: Seq<char>, s: Seq<char>)
    ensures
        (s.len() >= product.len() + 1 && text::eq_ignore_case(
            s.subrange(0, product.len() as int + 1),
            product + seq!['/'],
        ) && !is_semver(s.subrange(product.len() as int + 1, s.len() as int)))
            ==> spec_parse(product, s) == Err::<Seq<char>, CommentParseError>(
            CommentParseError::NotVersion,
        ),
{
}

} // verus!
