use crate::semver_calls::{parsed_version, semver_parse_version};
use vstd::prelude::*;

verus! {

/// A release version `major.minor.patch`.
#[derive(Clone, Copy, Debug, PartialEq, Eq, Structural)]
pub struct Version {
    pub major: u64,
    pub minor: u64,
    pub patch: u64,
}

/// Why a version or requirement text was refused.
#[derive(Clone, Copy, Debug, PartialEq, Eq, Structural)]
pub enum ParseError {
    /// The text is no semver version or requirement.
    Malformed,
    /// The text carries pre-release or build metadata, which this policy does not handle.
    PreRelease,
    /// A comparator uses an operator this policy does not model.
    UnsupportedOperator,
}

/// A version from its parsed fields; pre-release and build metadata are refused.
pub open spec fn version_from_parts(
    major: u64,
    minor: u64,
    patch: u64,
    pre: Seq<char>,
    build: Seq<char>,
) -> Result<Version, ParseError> {
    if pre.len() == 0 && build.len() == 0 {
        Ok(Version { major, minor, patch })
    } else {
        Err(ParseError::PreRelease)
    }
}

/// What parsing a version text gives, from what semver made of it.
pub open spec fn version_of_text(s: Seq<char>) -> Result<Version, ParseError> {
    match parsed_version(s) {
        Some(t) => version_from_parts(t.0, t.1, t.2, t.3, t.4),
        None => Err(ParseError::Malformed),
    }
}

/// Semver precedence of release versions: the fields compared in order.
pub open spec fn version_lt(a: Version, b: Version) -> bool {
    a.major < b.major || (a.major == b.major && (a.minor < b.minor || (a.minor == b.minor
        && a.patch < b.patch)))
}

impl Version {
    /// The release version `major.minor.patch`.
    pub fn new(major: u64, minor: u64, patch: u64) -> (r: Version)
        ensures
            r == (Version { major, minor, patch }),
    {
        Version { major, minor, patch }
    }

    /// Whether `self` comes strictly before `other` in semver precedence.
    pub fn precedes(&self, other: &Version) -> (r: bool)
        ensures
            r == version_lt(*self, *other),
    {
        self.major < other.major || (self.major == other.major && (self.minor < other.minor || (
        self.minor == other.minor && self.patch < other.patch)))
    }

    /// Builds a release version from parsed fields; any pre-release or build
    /// text is refused.
    pub fn from_parts(major: u64, minor: u64, patch: u64, pre: &str, build: &str) -> (r: Result<
        Version,
        ParseError,
    >)
        ensures
            r == version_from_parts(major, minor, patch, pre@, build@),
    {
        if pre.is_empty() && build.is_empty() {
            Ok(Version { major, minor, patch })
        } else {
            Err(ParseError::PreRelease)
        }
    }
}

/// Parses a semver version text into a release version.
pub fn parse_version(s: &str) -> (r: Result<Version, ParseError>)
    ensures
        r == version_of_text(s@),
{
    match semver_parse_version(s) {
        Ok(t) => Version::from_parts(t.0, t.1, t.2, t.3.as_str(), t.4.as_str()),
        Err(_) => Err(ParseError::Malformed),
    }
}

} // verus!
