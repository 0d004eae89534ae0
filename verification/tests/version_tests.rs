use waybar_module_pacman_updates::package::{Package, UpdateType};
use waybar_module_pacman_updates::version::{
    is_version_newer, is_version_newer_with, newer_by_parsed, revision_of, sorts_after, tag_newer, SemVer,
};

fn chars(s: &str) -> Vec<char> {
    s.chars().collect()
}

fn semver(major: u64, minor: u64, patch: u64, pre: &str) -> SemVer {
    SemVer { major, minor, patch, pre: pre.to_string() }
}

#[test]
fn revision_counters_alone_decide() {
    assert!(is_version_newer("r100.x", "r99.y"));
    assert!(!is_version_newer("r99.x", "r100.y"));
    assert!(!is_version_newer("r100.x", "r100.y"));
    assert!(is_version_newer("1.0.0.r8.aaa", "9.0.0.r7.zzz"));
    assert!(!is_version_newer("9.0.0.r7.zzz", "1.0.0.r8.aaa"));
}

#[test]
fn revision_counters_overrule_the_host() {
    assert!(is_version_newer_with("r100.x", "r99.y", Some(false)));
    assert!(!is_version_newer_with("r99.x", "r100.y", Some(true)));
}

#[test]
fn host_verdict_stands_without_two_counters() {
    assert!(is_version_newer_with("1.0", "2.0", Some(true)));
    assert!(!is_version_newer_with("2.0", "1.0", Some(false)));
    assert!(is_version_newer_with("r5.a", "2.0", Some(true)));
}

#[test]
fn revision_is_read_from_the_first_tag() {
    assert_eq!(revision_of(&chars("r12.abc")), Some(12));
    assert_eq!(revision_of(&chars("1.2.3.r45.gabcdef-1")), Some(45));
    assert_eq!(revision_of(&chars("r1.r2.")), Some(1));
    assert_eq!(revision_of(&chars("rr5.")), Some(5));
    assert_eq!(revision_of(&chars("r007.x")), Some(7));
    assert_eq!(revision_of(&chars("r0.")), Some(0));
    assert_eq!(revision_of(&chars("rx.r9.")), Some(9));
}

#[test]
fn revision_needs_letter_digits_and_dot() {
    assert_eq!(revision_of(&chars("")), None);
    assert_eq!(revision_of(&chars("r")), None);
    assert_eq!(revision_of(&chars("r.")), None);
    assert_eq!(revision_of(&chars("r12")), None);
    assert_eq!(revision_of(&chars("r12-")), None);
    assert_eq!(revision_of(&chars("12.")), None);
    assert_eq!(revision_of(&chars("1.2.3")), None);
    assert_eq!(revision_of(&chars("R12.")), None);
}

#[test]
fn revision_that_does_not_fit_is_none() {
    assert_eq!(revision_of(&chars("r18446744073709551615.x")), Some(u64::MAX));
    assert_eq!(revision_of(&chars("r18446744073709551616.x")), None);
    assert_eq!(revision_of(&chars("r99999999999999999999999.x")), None);
    assert_eq!(revision_of(&chars("r99999999999999999999999.r5.")), None);
}

#[test]
fn strings_sort_by_their_first_difference() {
    assert!(sorts_after(&chars("b"), &chars("a")));
    assert!(!sorts_after(&chars("a"), &chars("b")));
    assert!(sorts_after(&chars("ab"), &chars("a")));
    assert!(!sorts_after(&chars("a"), &chars("ab")));
    assert!(!sorts_after(&chars("abc"), &chars("abc")));
    assert!(!sorts_after(&chars(""), &chars("")));
    assert!(sorts_after(&chars("a"), &chars("")));
    assert!(!sorts_after(&chars(""), &chars("a")));
    assert!(sorts_after(&chars("9"), &chars("10")));
}

#[test]
fn unparseable_strings_fall_back_to_their_order() {
    assert!(is_version_newer("zzz", "aaa"));
    assert!(!is_version_newer("aaa", "zzz"));
    assert!(!is_version_newer("same!", "same!"));
}

#[test]
fn empty_strings_are_never_newer() {
    assert!(!is_version_newer("", ""));
    assert!(!is_version_newer("", "1.0.0"));
    assert!(!is_version_newer("1.0.0", ""));
    assert!(!is_version_newer("abc", ""));
}

fn parsed(text: &str) -> Option<SemVer> {
    match lenient_semver::parse(text) {
        Ok(v) => Some(SemVer { major: v.major, minor: v.minor, patch: v.patch, pre: v.pre.as_str().to_string() }),
        Err(_) => None,
    }
}

#[test]
fn lenient_versions_fill_in_what_is_missing() {
    let v = parsed("1.2.3-rc1").unwrap();
    assert_eq!((v.major, v.minor, v.patch, v.pre.as_str()), (1, 2, 3, "rc1"));
    let v = parsed("v4").unwrap();
    assert_eq!((v.major, v.minor, v.patch, v.pre.as_str()), (4, 0, 0, ""));
    assert!(parsed("").is_none());
    assert_eq!(Package::determine_update_type("v4", "4.1"), UpdateType::Minor);
    assert_eq!(Package::determine_update_type("4", "5"), UpdateType::Major);
    assert_eq!(Package::determine_update_type("4.0.0.1", "4.0.1"), UpdateType::Patch);
    assert_eq!(Package::determine_update_type("", "4.0.1"), UpdateType::Other);
}

#[test]
fn release_ranks_above_prerelease() {
    assert!(tag_newer("", "rc1"));
    assert!(!tag_newer("rc1", ""));
    assert!(!tag_newer("", ""));
}

#[test]
fn prerelease_tags_go_by_semver_order() {
    assert!(tag_newer("rc2", "rc1"));
    assert!(!tag_newer("rc1", "rc2"));
    assert!(!tag_newer("rc1", "rc1"));
    assert!(tag_newer("beta", "alpha"));
    assert!(tag_newer("alpha.10", "alpha.9"));
    assert!(tag_newer("alpha", "1"));
    assert!(tag_newer("alpha.1", "alpha"));
}

#[test]
fn tags_that_semver_rejects_are_not_newer() {
    assert!(!tag_newer("b b", "a"));
    assert!(!tag_newer("b", "a a"));
    assert!(!tag_newer("01", "00"));
}

#[test]
fn semver_order_goes_field_by_field() {
    assert!(semver(2, 0, 0, "").is_after(&semver(1, 9, 9, "")));
    assert!(!semver(1, 9, 9, "").is_after(&semver(2, 0, 0, "")));
    assert!(semver(1, 3, 0, "").is_after(&semver(1, 2, 9, "")));
    assert!(!semver(1, 2, 9, "").is_after(&semver(1, 3, 0, "")));
    assert!(semver(1, 2, 1, "").is_after(&semver(1, 2, 0, "")));
    assert!(!semver(1, 2, 3, "").is_after(&semver(1, 2, 3, "")));
    assert!(semver(1, 2, 3, "").is_after(&semver(1, 2, 3, "rc1")));
    assert!(!semver(1, 2, 3, "rc1").is_after(&semver(1, 2, 3, "")));
    assert!(semver(1, 2, 3, "rc2").is_after(&semver(1, 2, 3, "rc1")));
    assert!(!semver(1, 2, 3, "rc9").is_after(&semver(1, 2, 4, "rc1")));
}

#[test]
fn newer_matches_order_of_parsed_versions() {
    let versions = [
        "1.2.1", "1.2.0", "1.2", "2", "1.9.9", "1.0.0", "1.0.0-rc1", "1.0.0-rc2", "v3.1", "3.0.9", "0.0.1",
        "1.0.0-alpha.1", "1.0.0-alpha", "10.0", "9.9.9", "1.0.0+build", "1.0.0-1", "1.0.0-2",
    ];
    for a in versions {
        for b in versions {
            let pa = parsed(a).unwrap();
            let pb = parsed(b).unwrap();
            assert_eq!(is_version_newer(a, b), pa.is_after(&pb), "{a} against {b}");
            assert!(!(is_version_newer(a, b) && is_version_newer(b, a)), "{a} against {b}");
        }
        assert!(!is_version_newer(a, a), "{a}");
    }
}

#[test]
fn magnitude_is_the_first_field_that_grew() {
    assert_eq!(UpdateType::between(&semver(1, 0, 0, ""), &semver(2, 0, 0, "")), UpdateType::Major);
    assert_eq!(UpdateType::between(&semver(1, 5, 5, ""), &semver(2, 0, 0, "")), UpdateType::Major);
    assert_eq!(UpdateType::between(&semver(1, 0, 0, ""), &semver(1, 1, 0, "")), UpdateType::Minor);
    assert_eq!(UpdateType::between(&semver(1, 0, 0, ""), &semver(1, 0, 1, "")), UpdateType::Patch);
    assert_eq!(UpdateType::between(&semver(1, 0, 0, "rc1"), &semver(1, 0, 0, "rc2")), UpdateType::Pre);
    assert_eq!(UpdateType::between(&semver(1, 0, 0, "rc1"), &semver(1, 0, 0, "")), UpdateType::Pre);
    assert_eq!(UpdateType::between(&semver(1, 0, 0, ""), &semver(1, 0, 0, "")), UpdateType::Other);
    assert_eq!(UpdateType::between(&semver(1, 0, 0, ""), &semver(1, 0, 0, "rc1")), UpdateType::Other);
    assert_eq!(UpdateType::between(&semver(2, 1, 1, ""), &semver(1, 0, 0, "")), UpdateType::Other);
}

#[test]
fn magnitude_chain_takes_first_match() {
    // The major number fell, the minor number grew: the second test wins.
    assert_eq!(UpdateType::between(&semver(2, 0, 0, ""), &semver(1, 5, 0, "")), UpdateType::Minor);
    assert_eq!(UpdateType::between(&semver(2, 5, 0, ""), &semver(1, 5, 7, "")), UpdateType::Patch);
}

#[test]
fn magnitude_of_version_strings() {
    assert_eq!(Package::determine_update_type("1.2.3", "2.0.0"), UpdateType::Major);
    assert_eq!(Package::determine_update_type("1.2.3", "1.3.0"), UpdateType::Minor);
    assert_eq!(Package::determine_update_type("1.2.3", "1.2.4"), UpdateType::Patch);
    assert_eq!(Package::determine_update_type("1.2.3-rc1", "1.2.3-rc2"), UpdateType::Pre);
    assert_eq!(Package::determine_update_type("1.2.3", "1.2.3"), UpdateType::Other);
    assert_eq!(Package::determine_update_type("???", "1.2.3"), UpdateType::Other);
    assert_eq!(Package::determine_update_type("1.2.3", "???"), UpdateType::Other);
}

#[test]
fn magnitude_is_the_same_each_time() {
    let first = Package::determine_update_type("1.2.3", "1.3.0");
    let second = Package::determine_update_type("1.2.3", "1.3.0");
    assert_eq!(first, second);
    let a = Package::new("x".to_string(), "0.9".to_string(), "1.0".to_string());
    let b = Package::new("y".to_string(), "0.9".to_string(), "1.0".to_string());
    assert_eq!(a.update_type, b.update_type);
    assert_eq!(a.update_type, UpdateType::Major);
}

#[test]
fn ordering_and_magnitude_may_disagree() {
    assert!(is_version_newer("r101.abc-1", "r100.abc-1"));
    assert_eq!(Package::determine_update_type("r100.abc-1", "r101.abc-1"), UpdateType::Other);
}

#[test]
fn magnitude_has_its_place_in_a_table_of_five() {
    assert_eq!(UpdateType::Major.index(), 0);
    assert_eq!(UpdateType::Minor.index(), 1);
    assert_eq!(UpdateType::Patch.index(), 2);
    assert_eq!(UpdateType::Pre.index(), 3);
    assert_eq!(UpdateType::Other.index(), 4);
}

#[test]
fn textual_tiers_given_what_was_parsed() {
    let a = Some(semver(1, 2, 1, ""));
    let b = Some(semver(1, 2, 0, ""));
    // Two parsed versions decide, whatever the strings hold.
    assert!(newer_by_parsed(&chars("aaa"), &chars("zzz"), &a, &b));
    assert!(!newer_by_parsed(&chars("zzz"), &chars("aaa"), &b, &a));
    // With one side unparsed the strings decide.
    assert!(newer_by_parsed(&chars("zzz"), &chars("aaa"), &None, &a));
    assert!(!newer_by_parsed(&chars("aaa"), &chars("zzz"), &a, &None));
    assert!(!newer_by_parsed(&chars("aaa"), &chars("aaa"), &None, &None));
    assert!(!newer_by_parsed(&chars("aaa"), &chars(""), &None, &None));
    assert!(!newer_by_parsed(&chars(""), &chars("aaa"), &None, &None));
}

#[test]
fn odd_strings_are_compared_and_classified_without_failing() {
    let odd = [
        "", " ", ".", "-", "+", "1.", "1..2", "1.2.3-", "1.2.3+", "1.2.3-01", "1.2.3-rc..1", "v", "vv1", "1.2.3.4.5.6",
        "99999999999999999999999999", "1.99999999999999999999999999.3", "1.2.3-99999999999999999999999999",
        "1:2.3-4", "2024.01.02", "r", "r.", "r1", "r1.", "0", "00", "01.02.03", "1.2.3 ", " 1.2.3", "1.2.3\n",
        "\u{e9}", "1.\u{e9}", "1.2.3-\u{e9}", "1.2.3-a_b", "1.2.3-a--b", "1.2.3-.", "1.2.3-a.", "1.2.3+a+b", "-1", "1-2-3",
        "1.2.3-rc1+build", "1.2.3.rc1", "1.2.3.Final", "1.2.3.RELEASE", "1.2.3-SNAPSHOT", "1.2.3_4",
    ];
    for a in odd {
        for b in odd {
            let first = is_version_newer(a, b);
            assert_eq!(first, is_version_newer(a, b), "{:?} against {:?}", a, b);
            let kind = Package::determine_update_type(a, b);
            assert_eq!(kind, Package::determine_update_type(a, b), "{:?} against {:?}", a, b);
            match (parsed(a), parsed(b)) {
                (Some(x), Some(y)) => assert_eq!(kind, UpdateType::between(&x, &y), "{:?} against {:?}", a, b),
                _ => assert_eq!(kind, UpdateType::Other, "{:?} against {:?}", a, b),
            }
        }
    }
}

#[test]
fn revision_counters_come_before_semantic_versions() {
    let a = "1.0.0-r5.x";
    let b = "2.0.0-r3.y";
    let pa = parsed(a).unwrap();
    let pb = parsed(b).unwrap();
    assert!(pb.is_after(&pa));
    assert!(is_version_newer(a, b));
    assert!(!is_version_newer(b, a));
}
