use bump::{
    bump_kind, parse_req, parse_version, req_into_string, to_min_req, update_kind_for, updated_req,
    BumpKind, Comparator, Op, ParseError, SemverUpdateKind, Version, VersionReq,
};

fn v(s: &str) -> Version {
    parse_version(s).unwrap()
}

fn req(s: &str) -> VersionReq {
    parse_req(s).unwrap()
}

fn text(s: &str) -> String {
    req_into_string(&req(s))
}

#[test]
fn version_to_min_req() {
    assert_eq!(to_min_req(&v("0.0.1")), req("0.0.1"));
    assert_eq!(to_min_req(&v("0.1.0")), req("0.1"));
    assert_eq!(to_min_req(&v("0.1.1")), req("0.1.1"));
    assert_eq!(to_min_req(&v("1.0.0")), req("1"));
    assert_eq!(to_min_req(&v("1.1.0")), req("1.1"));
    assert_eq!(to_min_req(&v("1.0.1")), req("1.0.1"));
}

#[test]
fn analyze_bump_kind() {
    assert_eq!(bump_kind(&v("0.0.1"), &v("0.0.2")), BumpKind::Major);
    assert_eq!(bump_kind(&v("0.0.1"), &v("0.1.0")), BumpKind::Major);
    assert_eq!(bump_kind(&v("0.1.0"), &v("0.2.0")), BumpKind::Major);
    assert_eq!(bump_kind(&v("0.1.1"), &v("0.2.0")), BumpKind::Major);
    assert_eq!(bump_kind(&v("0.1.1"), &v("1.0.0")), BumpKind::Major);
    assert_eq!(bump_kind(&v("0.1.1"), &v("1.1.0")), BumpKind::Major);
    assert_eq!(bump_kind(&v("1.0.0"), &v("2.0.0")), BumpKind::Major);
    assert_eq!(bump_kind(&v("1.0.5"), &v("2.0.1")), BumpKind::Major);

    assert_eq!(bump_kind(&v("0.1.0"), &v("0.1.1")), BumpKind::Minor);
    assert_eq!(bump_kind(&v("0.1.3"), &v("0.1.7")), BumpKind::Minor);
    assert_eq!(bump_kind(&v("1.0.0"), &v("1.1.0")), BumpKind::Minor);
    assert_eq!(bump_kind(&v("1.0.0"), &v("1.2.3")), BumpKind::Minor);

    assert_eq!(bump_kind(&v("1.0.0"), &v("1.0.1")), BumpKind::Patch);
    assert_eq!(bump_kind(&v("1.0.0"), &v("1.0.3")), BumpKind::Patch);
    assert_eq!(bump_kind(&v("1.2.3"), &v("1.2.4")), BumpKind::Patch);
}

#[test]
fn updated_semver_req() {
    assert_eq!(
        updated_req(&req("1"), &v("2.3.4"), &v("2.3.5")),
        SemverUpdateKind::CurrentRequirementDoesNotMatchVersion,
    );

    assert_eq!(
        updated_req(&req("1"), &v("1.2.3"), &v("1.2.4")),
        SemverUpdateKind::ExistingReqCompatible,
    );

    assert_eq!(
        updated_req(&req("1.2"), &v("1.2.3"), &v("1.2.4")),
        SemverUpdateKind::ExistingReqCompatible,
    );

    assert_eq!(
        updated_req(&req("1.2.3"), &v("1.2.3"), &v("1.2.4")),
        SemverUpdateKind::ExistingReqCompatible,
    );

    assert_eq!(
        updated_req(&req("1"), &v("1.3.4"), &v("2.0.0")),
        SemverUpdateKind::UpdateReq(req("2")),
    );
}

#[test]
fn pre_stable_zero_minor_is_always_major() {
    assert_eq!(bump_kind(&v("0.0.7"), &v("0.0.8")), BumpKind::Major);
    assert_eq!(bump_kind(&v("0.0.7"), &v("3.4.5")), BumpKind::Major);
}

#[test]
fn pre_stable_bumps() {
    assert_eq!(bump_kind(&v("0.3.1"), &v("0.3.9")), BumpKind::Minor);
    assert_eq!(bump_kind(&v("0.3.1"), &v("0.4.0")), BumpKind::Major);
    assert_eq!(bump_kind(&v("0.3.1"), &v("1.0.0")), BumpKind::Major);
}

#[test]
fn stable_bump_follows_highest_differing_field() {
    assert_eq!(bump_kind(&v("2.5.9"), &v("3.0.0")), BumpKind::Major);
    assert_eq!(bump_kind(&v("2.5.9"), &v("2.6.0")), BumpKind::Minor);
    assert_eq!(bump_kind(&v("2.5.9"), &v("2.5.10")), BumpKind::Patch);
}

#[test]
fn stale_requirement_whatever_the_new_version() {
    assert_eq!(
        updated_req(&req(">=2"), &v("1.0.0"), &v("2.0.0")),
        SemverUpdateKind::CurrentRequirementDoesNotMatchVersion,
    );
    assert_eq!(
        updated_req(&req("=1.0.0"), &v("1.0.1"), &v("3.0.0")),
        SemverUpdateKind::CurrentRequirementDoesNotMatchVersion,
    );
}

#[test]
fn requirement_matching_new_version_stays() {
    assert_eq!(
        updated_req(&req(">=1"), &v("1.9.0"), &v("5.0.0")),
        SemverUpdateKind::ExistingReqCompatible,
    );
    assert_eq!(
        updated_req(&req("0.1"), &v("0.1.0"), &v("0.1.1")),
        SemverUpdateKind::ExistingReqCompatible,
    );
}

#[test]
fn pre_stable_break_rewrites_requirement() {
    assert_eq!(
        updated_req(&req("0.1"), &v("0.1.4"), &v("0.2.0")),
        SemverUpdateKind::UpdateReq(req("0.2")),
    );
    assert_eq!(
        updated_req(&req("=0.0.1"), &v("0.0.1"), &v("0.0.2")),
        SemverUpdateKind::UpdateReq(req("0.0.2")),
    );
}

#[test]
fn compatible_bump_outside_literal_range_stays() {
    assert_eq!(
        update_kind_for(true, false, &v("1.2.3"), &v("1.3.0")),
        SemverUpdateKind::ExistingReqCompatible,
    );
    assert_eq!(
        updated_req(&req("~1.2"), &v("1.2.3"), &v("1.3.0")),
        SemverUpdateKind::ExistingReqCompatible,
    );
    assert_eq!(
        updated_req(&req("=0.1.0"), &v("0.1.0"), &v("0.1.1")),
        SemverUpdateKind::ExistingReqCompatible,
    );
}

#[test]
fn update_kind_from_match_results() {
    assert_eq!(
        update_kind_for(false, true, &v("1.0.0"), &v("2.0.0")),
        SemverUpdateKind::CurrentRequirementDoesNotMatchVersion,
    );
    assert_eq!(
        update_kind_for(true, true, &v("1.0.0"), &v("2.0.0")),
        SemverUpdateKind::ExistingReqCompatible,
    );
    assert_eq!(
        update_kind_for(true, false, &v("1.0.0"), &v("2.1.0")),
        SemverUpdateKind::UpdateReq(req("2.1")),
    );
}

#[test]
fn min_req_serializes_without_caret() {
    assert_eq!(req_into_string(&to_min_req(&v("1.0.0"))), "1");
    assert_eq!(req_into_string(&to_min_req(&v("1.1.0"))), "1.1");
    assert_eq!(req_into_string(&to_min_req(&v("1.0.1"))), "1.0.1");
    assert_eq!(req_into_string(&to_min_req(&v("10.20.300"))), "10.20.300");
    assert_eq!(req_into_string(&to_min_req(&v("0.0.0"))), "0");
}

#[test]
fn requirement_strings() {
    assert_eq!(text("^1.2"), "1.2");
    assert_eq!(text("1.2.3"), "1.2.3");
    assert_eq!(text("=1.2.3"), "=1.2.3");
    assert_eq!(text(">1"), ">1");
    assert_eq!(text(">=1.2, <2"), ">=1.2, <2");
    assert_eq!(text("<=0.9.12"), "<=0.9.12");
    assert_eq!(text("~1.2"), "~1.2");
    assert_eq!(text("1.*"), "1.*");
    assert_eq!(text("1.2.*"), "1.2.*");
    assert_eq!(text("*"), "*");
    assert_eq!(req_into_string(&VersionReq { comparators: vec![] }), "*");
    assert_eq!(text("18446744073709551615"), "18446744073709551615");
}

#[test]
fn version_parse_errors() {
    assert_eq!(parse_version("1.2"), Err(ParseError::Malformed));
    assert_eq!(parse_version("one"), Err(ParseError::Malformed));
    assert_eq!(parse_version("1.2.3-alpha"), Err(ParseError::PreRelease));
    assert_eq!(parse_version("1.2.3+build.5"), Err(ParseError::PreRelease));
    assert_eq!(parse_version("4.5.6"), Ok(Version::new(4, 5, 6)));
}

#[test]
fn requirement_parse_errors() {
    assert_eq!(parse_req("1.2.3.4"), Err(ParseError::Malformed));
    assert_eq!(parse_req(">=1.2.3-rc.1"), Err(ParseError::PreRelease));
    let unknown = vec![(None, 1u64, None, None, String::new())];
    assert_eq!(VersionReq::from_parts(&unknown), Err(ParseError::UnsupportedOperator));
    let parts = vec![(Some(Op::Tilde), 1u64, Some(2u64), None, String::new())];
    let expected = Comparator { op: Op::Tilde, major: 1, minor: Some(2), patch: None };
    assert_eq!(VersionReq::from_parts(&parts), Ok(VersionReq { comparators: vec![expected] }));
    assert_eq!(parse_req("~1.2"), Ok(VersionReq { comparators: vec![expected] }));
}

#[test]
fn version_order() {
    assert!(v("1.2.3").precedes(&v("1.2.4")));
    assert!(v("1.9.9").precedes(&v("2.0.0")));
    assert!(!v("1.2.3").precedes(&v("1.2.3")));
    assert!(!v("2.0.0").precedes(&v("1.9.9")));
}

#[test]
fn stale_requirement_with_lower_new_version() {
    assert_eq!(
        updated_req(&req("2"), &v("1.0.0"), &v("0.5.0")),
        SemverUpdateKind::CurrentRequirementDoesNotMatchVersion,
    );
    assert_eq!(
        update_kind_for(false, false, &v("1.0.0"), &v("0.5.0")),
        SemverUpdateKind::CurrentRequirementDoesNotMatchVersion,
    );
}

#[test]
fn requirement_admitting_both_versions_stays_whatever_their_order() {
    assert_eq!(
        updated_req(&req(">=1"), &v("3.0.0"), &v("2.0.0")),
        SemverUpdateKind::ExistingReqCompatible,
    );
    assert_eq!(
        updated_req(&req("1.2"), &v("1.2.4"), &v("1.2.4")),
        SemverUpdateKind::ExistingReqCompatible,
    );
    assert_eq!(
        update_kind_for(true, true, &v("2.0.0"), &v("1.0.0")),
        SemverUpdateKind::ExistingReqCompatible,
    );
}
