use rtr_validator::matching::{derive_verdict, evaluate, find_entries, MatchResult, Verdict};
use rtr_validator::prefix::{AddressFamily, RoutePrefix};
use rtr_validator::roa::RouteOrigin;

fn prefix(text: &str) -> RoutePrefix {
    RoutePrefix::parse(text).unwrap()
}

fn roa(asn: u32, text: &str, max_len: Option<u8>) -> RouteOrigin {
    RouteOrigin::new(prefix(text), max_len, asn).unwrap()
}

#[test]
fn exact_match_only() {
    let roas = vec![roa(64500, "10.0.0.0/16", None)];
    let result = evaluate(&roas, &prefix("10.0.0.0/17"), None);
    assert_eq!(result.verdict, Verdict::NotFound);
    assert!(result.entries.is_empty());
}

#[test]
fn neither_covering_nor_more_specific_prefixes_match() {
    let roas = vec![
        roa(64500, "10.0.0.0/8", Some(24)),
        roa(64501, "10.0.0.0/15", Some(24)),
        roa(64502, "10.0.0.0/17", None),
        roa(64503, "10.0.0.0/24", None),
        roa(64504, "10.1.0.0/16", None),
    ];
    let result = evaluate(&roas, &prefix("10.0.0.0/16"), Some(64500));
    assert_eq!(result, MatchResult { entries: vec![], verdict: Verdict::NotFound });
}

#[test]
fn a_maximum_length_that_covers_the_query_does_not_make_a_match() {
    let roas = vec![roa(64500, "10.0.0.0/16", Some(24))];
    let result = evaluate(&roas, &prefix("10.0.0.0/24"), Some(64500));
    assert_eq!(result.verdict, Verdict::NotFound);
}

#[test]
fn max_length_defaults_to_the_prefix_length() {
    let roas = vec![roa(64500, "10.0.0.0/24", None)];
    let result = evaluate(&roas, &prefix("10.0.0.0/24"), None);
    assert_eq!(result.entries, vec![(64500, 24)]);
    assert_eq!(result.verdict, Verdict::Found);
    assert_eq!(roas[0].resolved_max_len(), 24);
}

#[test]
fn an_explicit_max_length_is_kept() {
    let roas = vec![roa(64500, "2001:db8::/32", Some(48)), roa(64501, "2001:db8::/32", None)];
    let result = evaluate(&roas, &prefix("2001:db8::/32"), None);
    assert_eq!(result.entries, vec![(64500, 48), (64501, 32)]);
    assert_eq!(roas[0].resolved_max_len(), 48);
}

#[test]
fn asn_narrowing() {
    let roas = vec![roa(64500, "10.0.0.0/24", Some(24)), roa(64501, "10.0.0.0/24", Some(24))];
    let target = prefix("10.0.0.0/24");

    let valid = evaluate(&roas, &target, Some(64500));
    assert_eq!(valid.verdict, Verdict::Valid);

    let invalid = evaluate(&roas, &target, Some(64502));
    assert_eq!(invalid.verdict, Verdict::Invalid);
    assert_eq!(invalid.authorized_asns(), vec![64500, 64501]);
    let labels: Vec<String> =
        invalid.authorized_asns().iter().map(|asn| format!("AS{}", asn)).collect();
    assert_eq!(format!("{:?}", labels), "[\"AS64500\", \"AS64501\"]");
}

#[test]
fn the_last_authorized_origin_is_found_too() {
    let roas = vec![
        roa(64500, "10.0.0.0/24", None),
        roa(64999, "10.0.1.0/24", None),
        roa(64501, "10.0.0.0/24", None),
    ];
    let target = prefix("10.0.0.0/24");
    assert_eq!(evaluate(&roas, &target, Some(64501)).verdict, Verdict::Valid);
    assert_eq!(evaluate(&roas, &target, Some(64999)).verdict, Verdict::Invalid);
    assert_eq!(evaluate(&roas, &target, Some(64999)).entries, vec![(64500, 24), (64501, 24)]);
}

#[test]
fn without_an_asn_the_full_matching_set_is_reported() {
    let roas = vec![
        roa(64500, "10.0.0.0/24", Some(28)),
        roa(64501, "10.0.0.0/24", None),
        roa(64500, "10.0.0.0/24", Some(28)),
    ];
    let result = evaluate(&roas, &prefix("10.0.0.0/24"), None);
    assert_eq!(
        result,
        MatchResult { entries: vec![(64500, 28), (64501, 24), (64500, 28)], verdict: Verdict::Found }
    );
}

#[test]
fn an_empty_set_matches_nothing() {
    let result = evaluate(&Vec::new(), &prefix("10.0.0.0/24"), Some(64500));
    assert_eq!(result, MatchResult { entries: vec![], verdict: Verdict::NotFound });
}

#[test]
fn family_separation() {
    let v4 = RoutePrefix { family: AddressFamily::V4, addr: 0x0a00_0000, len: 8 };
    let v6 = RoutePrefix { family: AddressFamily::V6, addr: 0x0a00_0000, len: 8 };
    let v4_roas = vec![RouteOrigin { prefix: v4, max_len: None, asn: 64500 }];
    let v6_roas = vec![RouteOrigin { prefix: v6, max_len: None, asn: 64500 }];

    assert_eq!(evaluate(&v6_roas, &v4, Some(64500)).verdict, Verdict::NotFound);
    assert_eq!(evaluate(&v4_roas, &v6, Some(64500)).verdict, Verdict::NotFound);
    assert_eq!(evaluate(&v4_roas, &v4, Some(64500)).verdict, Verdict::Valid);
    assert_eq!(evaluate(&v6_roas, &v6, Some(64500)).verdict, Verdict::Valid);
    assert!(!v4_roas[0].is_for(&v6));
    assert!(!v6_roas[0].is_for(&v4));
}

#[test]
fn family_separation_of_parsed_prefixes() {
    let roas = vec![roa(64500, "::/0", None), roa(64501, "::a00:0/8", None)];
    assert_eq!(evaluate(&roas, &prefix("0.0.0.0/0"), None).verdict, Verdict::NotFound);
    assert_eq!(evaluate(&roas, &prefix("10.0.0.0/8"), None).verdict, Verdict::NotFound);
    assert_eq!(evaluate(&roas, &prefix("::/0"), None).entries, vec![(64500, 0)]);
}

#[test]
fn idempotent_evaluation() {
    let roas = vec![
        roa(64500, "10.0.0.0/24", Some(24)),
        roa(64501, "10.0.0.0/24", None),
        roa(64502, "10.0.0.0/16", None),
    ];
    let target = prefix("10.0.0.0/24");
    for asn in [None, Some(64500), Some(64502)] {
        let first = evaluate(&roas, &target, asn);
        let second = evaluate(&roas, &target, asn);
        assert_eq!(first, second);
    }
    assert_eq!(roas.len(), 3);
}

#[test]
fn find_entries_keeps_the_order_of_the_set() {
    let roas = vec![
        roa(64502, "10.0.0.0/24", None),
        roa(64500, "10.0.0.0/24", Some(32)),
        roa(64501, "10.0.0.0/25", None),
    ];
    assert_eq!(find_entries(&roas, &prefix("10.0.0.0/24")), vec![(64502, 24), (64500, 32)]);
    assert_eq!(find_entries(&roas, &prefix("10.0.0.0/25")), vec![(64501, 25)]);
    assert_eq!(find_entries(&roas, &prefix("10.0.0.0/26")), vec![]);
}

#[test]
fn derive_verdict_covers_the_four_verdicts() {
    let entries = vec![(64500, 24), (64501, 24)];
    assert_eq!(derive_verdict(&Vec::new(), None), Verdict::NotFound);
    assert_eq!(derive_verdict(&Vec::new(), Some(64500)), Verdict::NotFound);
    assert_eq!(derive_verdict(&entries, None), Verdict::Found);
    assert_eq!(derive_verdict(&entries, Some(64500)), Verdict::Valid);
    assert_eq!(derive_verdict(&entries, Some(64501)), Verdict::Valid);
    assert_eq!(derive_verdict(&entries, Some(24)), Verdict::Invalid);
}

#[test]
fn a_route_origin_needs_a_max_length_at_least_its_prefix_length() {
    let p = prefix("10.0.0.0/24");
    assert_eq!(RouteOrigin::new(p, Some(23), 64500), None);
    assert_eq!(
        RouteOrigin::new(p, Some(24), 64500),
        Some(RouteOrigin { prefix: p, max_len: Some(24), asn: 64500 })
    );
    assert_eq!(
        RouteOrigin::new(p, None, 64500),
        Some(RouteOrigin { prefix: p, max_len: None, asn: 64500 })
    );
    let broken = RoutePrefix { family: AddressFamily::V4, addr: 0, len: 40 };
    assert_eq!(RouteOrigin::new(broken, None, 64500), None);
}
