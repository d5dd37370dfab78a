use crate::req::{Comparator, Op, VersionReq};
use crate::version::Version;
use semver::Op as SemverOp;
use vstd::prelude::*;

verus! {

/// The error type of the semver crate's parsers.
#[verifier::external_type_specification]
#[verifier::external_body]
pub struct ExSemverError(semver::Error);

/// What semver's version parser makes of a text: major, minor, patch,
/// pre-release and build metadata; `None` where it refuses the text.
pub uninterp spec fn parsed_version(s: Seq<char>) -> Option<(u64, u64, u64, Seq<char>, Seq<char>)>;

/// What semver's requirement parser makes of a text, one entry per comparator:
/// the operator (`None` for one this library does not model), major, minor,
/// patch and pre-release; `None` where it refuses the text.
pub uninterp spec fn parsed_req(s: Seq<char>) -> Option<
    Seq<(Option<Op>, u64, Option<u64>, Option<u64>, Seq<char>)>,
>;

/// Whether semver's requirement matching admits the release version.
pub uninterp spec fn req_matches(req: Seq<Comparator>, v: Version) -> bool;

pub open spec fn raw_view(raw: Seq<(Option<Op>, u64, Option<u64>, Option<u64>, String)>) -> Seq<
    (Option<Op>, u64, Option<u64>, Option<u64>, Seq<char>),
> {
    raw.map_values(|t: (Option<Op>, u64, Option<u64>, Option<u64>, String)| (t.0, t.1, t.2, t.3, t.4@))
}

/// Relies on semver::Version::parse, for the fields of a version text.
#[verifier::external_body]
pub(crate) fn semver_parse_version(s: &str) -> (r: Result<(u64, u64, u64, String, String), semver::Error>)
    ensures
        match r {
            Ok(t) => parsed_version(s@) == Some((t.0, t.1, t.2, t.3@, t.4@)),
            Err(_) => parsed_version(s@) is None,
        },
{
    semver::Version::parse(s).map(|v| (v.major, v.minor, v.patch, v.pre.to_string(), v.build.to_string()))
}

/// Relies on semver::VersionReq::parse, for the comparators of a requirement text.
#[verifier::external_body]
pub(crate) fn semver_parse_req(s: &str) -> (r: Result<
    Vec<(Option<Op>, u64, Option<u64>, Option<u64>, String)>,
    semver::Error,
>)
    ensures
        match r {
            Ok(raw) => parsed_req(s@) == Some(raw_view(raw@)),
            Err(_) => parsed_req(s@) is None,
        },
{
    semver::VersionReq::parse(s).map(|req| req.comparators.into_iter().map(|c| {
        let op = match c.op {
            SemverOp::Exact => Some(Op::Exact), SemverOp::Greater => Some(Op::Greater),
            SemverOp::GreaterEq => Some(Op::GreaterEq), SemverOp::Less => Some(Op::Less),
            SemverOp::LessEq => Some(Op::LessEq), SemverOp::Tilde => Some(Op::Tilde),
            SemverOp::Caret => Some(Op::Caret), SemverOp::Wildcard => Some(Op::Wildcard),
            _ => None,
        };
        (op, c.major, c.minor, c.patch, c.pre.to_string())
    }).collect())
}

/// Relies on semver::VersionReq::matches, on a release version and
/// comparators without pre-release.
#[verifier::external_body]
pub(crate) fn semver_matches(req: &VersionReq, v: &Version) -> (r: bool)
    ensures
        r == req_matches(req@, *v),
{
    let comparators = req.comparators.iter().map(|c| semver::Comparator {
        op: match c.op {
            Op::Exact => SemverOp::Exact, Op::Greater => SemverOp::Greater,
            Op::GreaterEq => SemverOp::GreaterEq, Op::Less => SemverOp::Less,
            Op::LessEq => SemverOp::LessEq, Op::Tilde => SemverOp::Tilde,
            Op::Caret => SemverOp::Caret, Op::Wildcard => SemverOp::Wildcard,
        },
        major: c.major, minor: c.minor, patch: c.patch, pre: semver::Prerelease::EMPTY,
    }).collect();
    semver::VersionReq { comparators }.matches(&semver::Version::new(v.major, v.minor, v.patch))
}

} // verus!
