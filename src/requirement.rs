//! Version requirements: semantic-version range expressions.
use crate::version::{to_semver, ConcreteVersion, VersionView};
use vstd::prelude::*;
use vstd::string::*;

verus! {

#[verifier::external_type_specification]
#[verifier::external_body]
pub struct ExSemverVersionReq(semver::VersionReq);

/// Whether `semver` accepts the text as a range expression.
pub uninterp spec fn range_syntax_ok(text: Seq<char>) -> bool;

/// Whether the range expression written as `text` admits the version.
pub uninterp spec fn range_admits(text: Seq<char>, v: VersionView) -> bool;

/// Relies on `semver::VersionReq::parse` (semver 0.9): it returns `Ok` exactly
/// on the texts that its range grammar accepts, and returns an error (never
/// panics) on every other text.
#[verifier::external_body]
fn parse_range(text: &str) -> (r: Option<semver::VersionReq>)
    ensures
        r.is_some() == range_syntax_ok(text@),
{
    semver::VersionReq::parse(text).ok()
}

/// Relies on `semver::VersionReq::matches` (semver 0.9): the answer depends on
/// the requirement, which was parsed from `req.text`, and the version alone.
#[verifier::external_body]
fn range_matches(req: &VersionRequirement, v: &ConcreteVersion) -> (r: bool)
    ensures
        r == range_admits(req.text@, v@),
{
    req.range.matches(&to_semver(v))
}

/// A parsed semantic-version range, kept together with the text it came from.
pub struct VersionRequirement {
    text: String,
    range: semver::VersionReq,
}

/// Why a requirement could not be parsed.
#[derive(Debug, Clone, PartialEq, Eq)]
pub enum ParseError {
    /// The text is empty or not a range expression; the text is kept for display.
    InvalidRequirement(String),
}

/// The texts that parse into a requirement.
pub open spec fn valid_requirement(text: Seq<char>) -> bool {
    text.len() > 0 && range_syntax_ok(text)
}

impl VersionRequirement {
    /// The text this requirement was parsed from.
    pub closed spec fn source(&self) -> Seq<char> {
        self.text@
    }

    /// Whether the requirement admits the version.
    pub open spec fn admits(&self, v: VersionView) -> bool {
        range_admits(self.source(), v)
    }

    /// Parses a range expression. Empty text and text outside the range grammar
    /// are rejected with `InvalidRequirement`, which carries the input.
    pub fn parse(input: &str) -> (r: Result<VersionRequirement, ParseError>)
        ensures
            r is Ok <==> valid_requirement(input@),
            r matches Ok(req) ==> req.source() == input@,
            r matches Err(ParseError::InvalidRequirement(s)) ==> s@ == input@,
    {
        if input.is_empty() {
            return Err(ParseError::InvalidRequirement(String::from_str(input)));
        }
        match parse_range(input) {
            Some(range) => Ok(VersionRequirement { text: String::from_str(input), range }),
            None => Err(ParseError::InvalidRequirement(String::from_str(input))),
        }
    }

    /// The text this requirement was parsed from.
    pub fn as_str(&self) -> (r: &str)
        ensures
            r@ == self.source(),
    {
        self.text.as_str()
    }

    /// Whether the version satisfies this requirement.
    pub fn matches(&self, v: &ConcreteVersion) -> (r: bool)
        ensures
            r == self.admits(v@),
    {
        range_matches(self, v)
    }
}

/// A requirement parsed from `input` denotes exactly the range written there,
/// and its own text parses again into the same range.
pub proof fn lemma_requirement_round_trip(input: Seq<char>, req: &VersionRequirement)
    requires
        valid_requirement(input),
        req.source() == input,
    ensures
        valid_requirement(req.source()),
        forall|v: VersionView| #[trigger] req.admits(v) == range_admits(input, v),
{
}

} // verus!
