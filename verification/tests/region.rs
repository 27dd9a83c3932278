use hello_events::region::{default_region, determine_region, TargetLocation};

#[test]
fn test_determine_region() {
    let default_region = default_region();

    let r0 = determine_region(None);
    assert_eq!(default_region, r0);

    let r1 = determine_region(Some("us-west-2"));
    assert!(matches!(r1, TargetLocation::WellKnown { ref name } if name == "us-west-2"));

    let r2 = determine_region(Some("  us-west-2"));
    assert!(matches!(r2, TargetLocation::WellKnown { ref name } if name == "us-west-2"));
}

#[test]
fn default_location_values() {
    match default_region() {
        TargetLocation::Custom { name, endpoint } => {
            assert_eq!(name, "local");
            assert_eq!(endpoint, "http://localhost:8000");
        },
        other => panic!("the default location must be custom, got {:?}", other),
    }
}

#[test]
fn another_known_region_resolves() {
    let r = determine_region(Some("eu-central-1"));
    assert!(matches!(r, TargetLocation::WellKnown { ref name } if name == "eu-central-1"));
}

#[test]
fn alias_resolves_to_canonical_name() {
    // The parser recognises the unhyphenated alias and reports the canonical
    // hyphenated name, so the resolved name is not an echo of the input.
    let r = determine_region(Some("uswest2"));
    assert!(matches!(r, TargetLocation::WellKnown { ref name } if name == "us-west-2"));
}

#[test]
fn surrounding_whitespace_is_trimmed() {
    let r = determine_region(Some("\t us-west-2 \n"));
    assert!(matches!(r, TargetLocation::WellKnown { ref name } if name == "us-west-2"));
}

#[test]
fn unparsable_region_falls_back_to_default() {
    assert_eq!(determine_region(Some("not-a-region")), determine_region(None));
    assert_eq!(determine_region(Some("not-a-region")), default_region());
}

#[test]
fn blank_region_falls_back_to_default() {
    assert_eq!(determine_region(Some("   ")), default_region());
    assert_eq!(determine_region(Some("")), default_region());
}
