use crate::req::{min_comparator, to_min_req, VersionReq};
use crate::semver_calls::{req_matches, semver_matches};
use crate::version::{version_lt, Version};
use vstd::prelude::*;

verus! {

/// How disruptive a version change is expected to be for dependents.
#[derive(Clone, Copy, Debug, PartialEq, Eq, Structural)]
pub enum BumpKind {
    Patch,
    Minor,
    Major,
}

/// The severity policy: anything goes before `0.1`, minor bumps break before
/// `1.0`, and plain semver from `1.0` on.
pub open spec fn bump_kind_spec(cur: Version, new: Version) -> BumpKind {
    if cur.major == 0 && cur.minor == 0 {
        BumpKind::Major
    } else if cur.major == 0 {
        if new.major > 0 || new.minor > cur.minor {
            BumpKind::Major
        } else {
            BumpKind::Minor
        }
    } else if new.major != cur.major {
        BumpKind::Major
    } else if new.minor != cur.minor {
        BumpKind::Minor
    } else {
        BumpKind::Patch
    }
}

/// Classifies the change from `cur` to the strictly newer `new`.
pub fn bump_kind(cur: &Version, new: &Version) -> (r: BumpKind)
    requires
        version_lt(*cur, *new),
    ensures
        r == bump_kind_spec(*cur, *new),
        cur.major == 0 && cur.minor == 0 ==> r == BumpKind::Major,
        cur.major == 0 && cur.minor > 0 ==> (r == BumpKind::Major <==> (new.major > 0
            || new.minor > cur.minor)),
        cur.major == 0 && cur.minor > 0 && !(new.major > 0 || new.minor > cur.minor) ==> r
            == BumpKind::Minor,
        cur.major >= 1 ==> r == (if new.major != cur.major {
            BumpKind::Major
        } else if new.minor != cur.minor {
            BumpKind::Minor
        } else {
            BumpKind::Patch
        }),
{
    if cur.major == 0 && cur.minor == 0 {
        // 0.0.x -> anything: nothing is stable yet
        return BumpKind::Major;
    }
    if cur.major == 0 {
        if new.major > 0 {
            // stabilization: 0.x -> 1.x
            return BumpKind::Major;
        }
        if new.minor > cur.minor {
            // 0.x -> 0.y where y > x
            return BumpKind::Major;
        }
        // 0.x.y -> 0.x.z is surfaced as at least minor
        return BumpKind::Minor;
    }
    if new.major > cur.major {
        return BumpKind::Major;
    }
    if new.minor > cur.minor {
        return BumpKind::Minor;
    }
    BumpKind::Patch
}

/// What a dependent's requirement needs after its dependency is bumped.
#[derive(Debug, PartialEq)]
pub enum SemverUpdateKind {
    /// The requirement did not admit the old version: a workspace
    /// inconsistency or an intentional pin, which is left alone.
    CurrentRequirementDoesNotMatchVersion,
    /// The existing requirement can stay.
    ExistingReqCompatible,
    /// The requirement must become this one to admit the new version.
    UpdateReq(VersionReq),
}

/// The outcome owed when the requirement admits the old version or not
/// (`matches_old`) and the new one or not (`matches_new`).
pub open spec fn update_kind_ok(
    r: SemverUpdateKind,
    matches_old: bool,
    matches_new: bool,
    v1: Version,
    v2: Version,
) -> bool {
    match r {
        SemverUpdateKind::CurrentRequirementDoesNotMatchVersion => !matches_old,
        SemverUpdateKind::ExistingReqCompatible => matches_old && (matches_new || bump_kind_spec(
            v1,
            v2,
        ) != BumpKind::Major),
        SemverUpdateKind::UpdateReq(q) => matches_old && !matches_new && bump_kind_spec(v1, v2)
            == BumpKind::Major && q@ == seq![min_comparator(v2)],
    }
}

/// Decides the update from whether the requirement admits the old version
/// (`matches_old`) and the new one (`matches_new`).
pub fn update_kind_for(matches_old: bool, matches_new: bool, v1: &Version, v2: &Version) -> (r:
    SemverUpdateKind)
    requires
        matches_old && !matches_new ==> version_lt(*v1, *v2),
    ensures
        update_kind_ok(r, matches_old, matches_new, *v1, *v2),
        !matches_old ==> r == SemverUpdateKind::CurrentRequirementDoesNotMatchVersion,
        matches_old && matches_new ==> r == SemverUpdateKind::ExistingReqCompatible,
        matches_new ==> !(r is UpdateReq),
{
    if !matches_old {
        return SemverUpdateKind::CurrentRequirementDoesNotMatchVersion;
    }
    if matches_new {
        return SemverUpdateKind::ExistingReqCompatible;
    }
    match bump_kind(v1, v2) {
        BumpKind::Patch => SemverUpdateKind::ExistingReqCompatible,
        BumpKind::Minor => SemverUpdateKind::ExistingReqCompatible,
        BumpKind::Major => SemverUpdateKind::UpdateReq(to_min_req(v2)),
    }
}

/// Decides whether `req`, which a dependent holds on a package bumped from
/// `v1` to `v2`, can stay, must be left alone, or must be replaced.
pub fn updated_req(req: &VersionReq, v1: &Version, v2: &Version) -> (r: SemverUpdateKind)
    requires
        req_matches(req@, *v1) && !req_matches(req@, *v2) ==> version_lt(*v1, *v2),
    ensures
        update_kind_ok(r, req_matches(req@, *v1), req_matches(req@, *v2), *v1, *v2),
        !req_matches(req@, *v1) ==> r == SemverUpdateKind::CurrentRequirementDoesNotMatchVersion,
        req_matches(req@, *v1) && req_matches(req@, *v2) ==> r
            == SemverUpdateKind::ExistingReqCompatible,
        req_matches(req@, *v2) ==> !(r is UpdateReq),
{
    let matches_old = semver_matches(req, v1);
    let matches_new = semver_matches(req, v2);
    update_kind_for(matches_old, matches_new, v1, v2)
}

} // verus!
