use tender_supervisor::r2sample::{r2_sample, SampleGroup};
use tender_supervisor::r2census::{
    r2_denials, r2_place, r2_summary, CanonicalKey, OrgIdRow, R2GroupStats, R2Place, R2Tally,
};

fn row(country: Option<&str>, kind: Option<&str>, identifier: &str) -> OrgIdRow {
    OrgIdRow {
        org_id: 1,
        country: country.map(|c| c.to_string()),
        kind: kind.map(|k| k.to_string()),
        identifier: identifier.to_string(),
    }
}

fn key(scheme: &str, key: &str, e1: bool) -> Option<CanonicalKey> {
    Some(CanonicalKey { scheme: scheme.to_string(), key: key.to_string(), e1 })
}

#[test]
fn denials_read_the_normalised_identifier() {
    assert_eq!(r2_denials(&row(Some("CZ"), Some("vat"), "cz 699-001 234")), (true, false));
    assert_eq!(r2_denials(&row(Some("CZ"), Some("national"), "CZ699001234")), (false, false));
    assert_eq!(r2_denials(&row(Some("ES"), Some("vat"), "es-u12345678")), (false, true));
    assert_eq!(r2_denials(&row(Some("ES"), Some("vat"), "ES B12345678")), (false, false));
    assert_eq!(r2_denials(&row(Some("ES"), None, "u-12345678")), (false, true));
    assert_eq!(r2_denials(&row(Some("PT"), None, "U12345678")), (false, false));
    assert_eq!(r2_denials(&row(None, None, "")), (false, false));
}

#[test]
fn a_row_lands_by_key_country_and_prefix() {
    assert!(matches!(r2_place(&row(Some("DE"), Some("vat"), "x"), None), R2Place::Unkeyed));
    assert!(matches!(
        r2_place(&row(None, Some("vat"), "x"), key("DE:vat", "1", true)),
        R2Place::NullCountry
    ));
    assert!(matches!(
        r2_place(&row(Some("AT"), Some("vat"), "x"), key("DE:vat", "1", true)),
        R2Place::PrefixContradiction
    ));
    match r2_place(&row(Some("EL"), Some("vat"), "x"), key("GR:vat", "99", true)) {
        R2Place::Group { country, scheme, key, e1, is_vat } => {
            assert_eq!((country.as_str(), scheme.as_str(), key.as_str(), e1, is_vat), ("GR", "GR:vat", "99", true, true));
        }
        _ => panic!("EL folds to GR"),
    }
    match r2_place(&row(Some("AT"), None, "x"), key("DE:hrb", "7", false)) {
        R2Place::Group { country, e1, is_vat, .. } => {
            assert_eq!((country.as_str(), e1, is_vat), ("AT", false, false));
        }
        _ => panic!("a national row is never a prefix contradiction"),
    }
}

#[test]
fn the_tally_counts_where_rows_land() {
    let mut t = R2Tally::new();
    t.observe(&row(Some("CZ"), Some("vat"), "CZ699001"), None);
    t.observe(&row(None, Some("vat"), "x"), key("DE:vat", "1", true));
    t.observe(&row(Some("DE"), Some("vat"), "x"), key("DE:vat", "1", true));
    t.observe(&row(Some("DE"), Some("vat"), "x"), key("DE:vat", "1", false));
    assert_eq!((t.scanned, t.unkeyed, t.null_country_keyed, t.keyed_e1, t.keyed_e2, t.cz699), (4, 1, 1, 1, 1, 1));
}

#[test]
fn group_statistics_sum_per_scheme_and_overall() {
    let mut g = R2GroupStats::new();
    g.add_group("DE:vat", &vec![(1, true), (2, false)], 3);
    g.add_group("DE:vat", &(0..9).map(|i| (i, true)).collect(), 0);
    g.add_group("FR:siren", &vec![(5, false)], 0);
    g.add_group("FR:siren", &vec![], 2);
    assert_eq!((g.groups_ge2, g.orgs_in_groups, g.mixed_kind, g.over_cap), (2, 11, 1, 1));
    assert_eq!((g.e2_attached, g.e2_orphan_keys), (3, 1));
    assert_eq!(g.schemes.len(), 1);
    let de = &g.schemes[0];
    assert_eq!((de.groups_ge2, de.orgs_in_groups, de.mixed_kind, de.over_cap, de.max_group), (2, 11, 1, 1, 9));
}

#[test]
fn the_r2_census_line_is_exact() {
    let mut t = R2Tally::new();
    t.observe(&row(Some("ES"), Some("vat"), "ESU1"), key("ES:vat", "U1", true));
    let mut g = R2GroupStats::new();
    g.add_group("ES:vat", &vec![(1, true), (2, true)], 1);
    assert_eq!(
        r2_summary(&t, &g),
        "r2-census (issue 300 Stage 2): 1 identifier-bearing orgs, 1 E1-keyed / 0 E2 (pad) / 0 no \
         key; 1 same-country groups >=2 holding 2 orgs (0 mixed vat+national, 0 over cap 8); 1 \
         pad rows attach to keyed groups, 0 pad-only keys; 0 NULL-country keyed (R3 pool), 0 \
         country/prefix contradictions; denials: 1 ES-UTE, 0 CZ699"
    );
}

fn group(size: u64, country: &str, scheme: &str, key: &str) -> SampleGroup {
    SampleGroup {
        size,
        country: country.to_string(),
        scheme: scheme.to_string(),
        key: key.to_string(),
    }
}

#[test]
fn the_sample_takes_the_widest_groups_ties_in_key_order() {
    let groups = vec![
        group(2, "DE", "DE:vat", "1"),
        group(5, "AT", "AT:uid", "9"),
        group(2, "AT", "AT:uid", "2"),
        group(3, "FR", "FR:siren", "7"),
        group(2, "AT", "AT:fn", "3"),
    ];
    assert_eq!(r2_sample(&groups), vec![1, 3, 4, 2, 0]);
}

#[test]
fn the_sample_stops_at_thirty() {
    let groups: Vec<_> = (0..40u64).map(|i| group(100 - i, "DE", "DE:vat", &format!("{i:02}"))).collect();
    let top = r2_sample(&groups);
    assert_eq!(top, (0..30usize).collect::<Vec<_>>());
    assert!(r2_sample(&vec![]).is_empty());
}
