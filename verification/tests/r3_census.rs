use tender_supervisor::r3census::{
    anchor_class, r3_summary, register_prefixed, AnchorClass, R3Outcome, R3Tally,
};

fn anchors(pairs: &[(&str, &str)]) -> Vec<(String, String)> {
    pairs.iter().map(|(s, k)| (s.to_string(), k.to_string())).collect()
}

#[test]
fn a_letter_anywhere_sets_a_value_aside() {
    assert!(register_prefixed("HRB 12345"));
    assert!(register_prefixed("123x"));
    assert!(!register_prefixed("123 456-7"));
    assert!(!register_prefixed("١٢٣"), "non-ASCII digits are not letters");
    assert!(!register_prefixed(""));
}

#[test]
fn anchors_fall_into_none_ambiguous_or_one() {
    assert_eq!(anchor_class(&anchors(&[])), AnchorClass::Unanchored);
    assert_eq!(anchor_class(&anchors(&[("DK|SI", "1")])), AnchorClass::Unanchored);
    assert_eq!(anchor_class(&anchors(&[("DK:cvr", "1")])), AnchorClass::Anchored(0));
    assert_eq!(anchor_class(&anchors(&[("DK|SI", "1"), ("DK:cvr", "1")])), AnchorClass::Ambiguous);
    assert_eq!(anchor_class(&anchors(&[("DK:cvr", "1"), ("NO:orgnr", "1")])), AnchorClass::Ambiguous);
}

#[test]
fn the_r3_census_line_is_exact() {
    let mut t = R3Tally::new(6);
    for o in [
        R3Outcome::Corroborated,
        R3Outcome::Uncorroborated,
        R3Outcome::NoTarget,
        R3Outcome::Ambiguous,
        R3Outcome::Unanchored,
        R3Outcome::RegisterPrefixed,
    ] {
        t.record(o);
    }
    assert_eq!(
        r3_summary(&t),
        "r3-census (issue 300 Stage 3): 6 NULL-country identifier orgs — 1 anchored+corroborated \
         (R3 merge candidates), 1 anchored without name corroboration (edges), 1 anchored with no \
         standing target, 1 multi-scheme ambiguous (EBSCO class), 1 unanchored, 1 \
         register-prefixed (the separate R3 alternative)"
    );
}
