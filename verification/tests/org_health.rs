use tender_supervisor::health::{
    health_summary, is_austrian_gln, vat_verdict, Checksum, GateCensus, GateTally, GlnTally,
    ParsedId, ParserVsStock, VatVerdict,
};
use tender_supervisor::spread::NameSpread;

fn census(scheme: &str, checksum: Checksum, lexicon: bool, sequence: bool) -> GateCensus {
    GateCensus {
        scheme: scheme.to_string(),
        checksum,
        lexicon,
        sequence,
        letter_run: false,
        short_vat: false,
        hex_hash: false,
        compound: false,
    }
}

#[test]
fn spread_counts_thresholds_and_keeps_the_first_widest() {
    let mut s = NameSpread::new();
    for (n, org) in [(1u64, 10i64), (2, 11), (6, 12), (20, 13), (25, 14), (25, 15), (0, 16)] {
        s.observe(n, org);
    }
    assert_eq!(s.orgs, 7);
    assert_eq!(s.ge2, 5);
    assert_eq!(s.ge6, 4);
    assert_eq!(s.ge20, 3);
    assert_eq!(s.max, (25, 14), "a later tie does not displace the first widest");
    assert_eq!(s.ranked(), vec![(25, 15), (25, 14), (20, 13), (6, 12), (2, 11), (1, 10), (0, 16)]);
}

#[test]
fn spread_of_nothing_is_empty() {
    let s = NameSpread::new();
    assert_eq!((s.orgs, s.ge2, s.max), (0, 0, (0, 0)));
    assert!(s.ranked().is_empty());
}

#[test]
fn spread_keeps_the_hundred_widest_in_rank_order() {
    let mut s = NameSpread::new();
    let mut all: Vec<(u64, i64)> = Vec::new();
    for i in 0..250i64 {
        let n = ((i * 37) % 101) as u64;
        s.observe(n, i);
        all.push((n, i));
    }
    all.sort_by(|a, b| b.cmp(a));
    all.truncate(100);
    assert_eq!(s.ranked(), all);
}

#[test]
fn gate_tally_excludes_condemned_ids_from_checksum_rates() {
    let mut g = GateTally::new();
    g.observe(census("PL:nip", Checksum::Pass, false, false));
    g.observe(census("PL:nip", Checksum::Fail, false, false));
    g.observe(census("PL:nip", Checksum::Pass, true, false));
    g.observe(census("FR:siret", Checksum::Unknown, false, true));
    g.observe(census("PL:nip", Checksum::Fail, false, true));
    assert_eq!((g.lexicon, g.sequence), (1, 2));
    assert_eq!(g.placeholder_total(), 2);
    assert_eq!(g.schemes.len(), 2);
    let pl = &g.schemes[0];
    assert_eq!((pl.scheme.as_str(), pl.pop, pl.pass, pl.fail), ("PL:nip", 4, 1, 1));
    let fr = &g.schemes[1];
    assert_eq!((fr.scheme.as_str(), fr.pop, fr.pass, fr.fail), ("FR:siret", 1, 0, 0));
}

#[test]
fn vat_verdicts_tell_the_three_directions_apart() {
    let parsed = |kind: &str, country: Option<&str>| ParsedId {
        kind: kind.to_string(),
        country: country.map(|c| c.to_string()),
    };
    assert_eq!(vat_verdict(Some("CH"), None), VatVerdict::Refused);
    assert_eq!(vat_verdict(Some("CH"), Some(&parsed("charity", Some("GB")))), VatVerdict::NoLongerVat);
    assert_eq!(vat_verdict(Some("GR"), Some(&parsed("vat", Some("EL")))), VatVerdict::CountryDiffers);
    assert_eq!(vat_verdict(None, Some(&parsed("vat", Some("DE")))), VatVerdict::CountryDiffers);
    assert_eq!(vat_verdict(Some("DE"), Some(&parsed("vat", Some("DE")))), VatVerdict::Agrees);
    let mut p = ParserVsStock::new();
    for v in [VatVerdict::Refused, VatVerdict::Agrees, VatVerdict::NoLongerVat, VatVerdict::Refused] {
        p.record(v);
    }
    assert_eq!((p.no_longer_vat, p.vat_country_differs, p.vat_refused), (1, 0, 2));
}

#[test]
fn austrian_gln_is_thirteen_digits_under_9110() {
    assert!(is_austrian_gln("9110012345678"));
    assert!(!is_austrian_gln("911001234567"), "twelve digits");
    assert!(!is_austrian_gln("91100123456789"), "fourteen digits");
    assert!(!is_austrian_gln("9120012345678"), "another prefix");
    assert!(!is_austrian_gln("911001234567X"), "a letter");
    assert!(!is_austrian_gln("9110０12345678"), "a non-ASCII digit");
}

#[test]
fn shared_glns_are_counted_and_single_country_ones_singled_out() {
    let mut g = GlnTally::new();
    g.observe("9110000000001", Some("AT"));
    g.observe("9110000000001", Some("NO"));
    g.observe("9110000000002", Some("AT"));
    g.observe("9110000000002", Some("AT"));
    g.observe("9110000000003", None);
    g.observe("DE123456789", Some("DE"));
    assert_eq!(g.rows, 5);
    assert_eq!(g.by_value.len(), 3);
    assert_eq!(g.by_value[0].1, vec!["AT".to_string(), "NO".to_string()]);
    assert_eq!(g.by_value[2].1, vec![String::new()]);
    assert_eq!(g.shared(), (2, 1));
}

#[test]
fn the_health_line_says_first_run_or_names_the_alarms() {
    let mut s = NameSpread::new();
    s.observe(3, 7);
    let mut g = GateTally::new();
    g.observe(census("AT:uid", Checksum::Pass, true, false));
    let p = ParserVsStock::new();
    let first = health_summary(&s, &g, &p, 2, 1, 0, &Vec::new(), false);
    assert_eq!(
        first,
        "org-merge-health census (issue 300): 1 identifier-bearing orgs, 1 with >=2 distinct \
         mention names, 0 >=6, 0 >=20, max 3 (org 7); gate census: 1 lexicon, 0 sequence, 0 \
         letter-run, 0 short-vat, 0 hex-hash, 0 compound hits (~1+ placeholder-keyed; checksum \
         rates now exclude condemned ids). Parser-vs-stock (issue 325 step 5): 0 no longer vat, \
         0 vat under another country, 0 now refused. Issue 327: 2 Austrian 9110 GLN row(s), 1 \
         value(s) held by more than one row (that class is wrong about two thirds of the time), \
         0 of them under a SINGLE country — first run, no baseline to compare against"
    );
    let quiet = health_summary(&s, &g, &p, 2, 1, 0, &Vec::new(), true);
    assert!(quiet.ends_with("0 of them under a SINGLE country"));
    let alarmed = health_summary(&s, &g, &p, 2, 1, 0, &vec!["a".to_string(), "b".to_string()], true);
    assert!(alarmed.ends_with("under a SINGLE country; PARSER-VS-STOCK ALARM(S): a, b"));
}
