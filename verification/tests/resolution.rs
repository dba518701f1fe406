use xshot::errors::Error;
use xshot::resolve::PropertyRead;
use xshot::resolve::Resolver;
use xshot::resolve::resolve_with_probes;
use xshot::target::TargetSpecifier;
use xshot::target::parse_window_id;
use xshot::text::MatchKind;

#[test]
fn whole_screen_resolves_to_root_without_requests() {
    let clients = vec![1, 2, 3];
    let props = vec![b"a".to_vec(), b"b".to_vec(), b"c".to_vec()];
    let trace = resolve_with_probes(&TargetSpecifier::WholeScreen, 42, clients, &props);
    assert_eq!(trace.outcome, Ok(42));
    assert_eq!(trace.list_queries, 0);
    assert_eq!(trace.probes, 0);
}

#[test]
fn only_kth_match_probes_exactly_k() {
    let clients = vec![10, 11, 12, 13];
    let props = vec![
        b"alpha terminal".to_vec(),
        b"beta browser".to_vec(),
        b"the editor".to_vec(),
        b"delta shell".to_vec(),
    ];
    let spec = TargetSpecifier::ByName("EdItOr".to_string());
    let trace = resolve_with_probes(&spec, 1, clients, &props);
    assert_eq!(trace.outcome, Ok(12));
    assert_eq!(trace.list_queries, 1);
    assert_eq!(trace.probes, 3);
}

#[test]
fn first_of_two_matches_wins_in_list_order() {
    // Both candidates match; the list order decides, not any other order.
    let clients = vec![30, 20];
    let props = vec![b"zz window".to_vec(), b"aa window".to_vec()];
    let spec = TargetSpecifier::ByName("window".to_string());
    let trace = resolve_with_probes(&spec, 1, clients, &props);
    assert_eq!(trace.outcome, Ok(30));
    assert_eq!(trace.probes, 1);
}

#[test]
fn no_match_probes_all_and_fails() {
    let clients = vec![10, 11, 12];
    let props = vec![b"one".to_vec(), b"two".to_vec(), b"three".to_vec()];
    let spec = TargetSpecifier::ByName("absent".to_string());
    let trace = resolve_with_probes(&spec, 1, clients, &props);
    assert_eq!(trace.outcome, Err(Error::TargetNotFound));
    assert_eq!(trace.list_queries, 1);
    assert_eq!(trace.probes, 3);
}

#[test]
fn empty_client_list_fails_without_probes() {
    let spec = TargetSpecifier::ByName("anything".to_string());
    let trace = resolve_with_probes(&spec, 1, vec![], &vec![]);
    assert_eq!(trace.outcome, Err(Error::TargetNotFound));
    assert_eq!(trace.list_queries, 1);
    assert_eq!(trace.probes, 0);
}

#[test]
fn class_search_reads_second_nul_field() {
    let clients = vec![100, 200];
    let props = vec![b"Other\0Other".to_vec(), b"X\0Firefox".to_vec()];
    let spec = TargetSpecifier::ByClass("firefox".to_string());
    let trace = resolve_with_probes(&spec, 1, clients, &props);
    assert_eq!(trace.outcome, Ok(200));
    assert_eq!(trace.list_queries, 1);
    assert_eq!(trace.probes, 2);
}

#[test]
fn class_search_ignores_first_nul_field() {
    // The needle occurs only in the first field, which a class search
    // never reads.
    let clients = vec![7];
    let props = vec![b"firefox\0Navigator".to_vec()];
    let spec = TargetSpecifier::ByClass("firefox".to_string());
    let trace = resolve_with_probes(&spec, 1, clients, &props);
    assert_eq!(trace.outcome, Err(Error::TargetNotFound));
}

#[test]
fn class_property_without_nul_is_read_whole() {
    let clients = vec![7];
    let props = vec![b"Emacs".to_vec()];
    let spec = TargetSpecifier::ByClass("emacs".to_string());
    let trace = resolve_with_probes(&spec, 1, clients, &props);
    assert_eq!(trace.outcome, Ok(7));
}

#[test]
fn matching_is_case_insensitive_both_ways() {
    let clients = vec![1];
    let props = vec![b"MY TERMINAL".to_vec()];
    let spec = TargetSpecifier::ByName("terminal".to_string());
    let trace = resolve_with_probes(&spec, 9, clients, &props);
    assert_eq!(trace.outcome, Ok(1));

    let clients = vec![2];
    let props = vec![b"my terminal".to_vec()];
    let spec = TargetSpecifier::ByName("TERMINAL".to_string());
    let trace = resolve_with_probes(&spec, 9, clients, &props);
    assert_eq!(trace.outcome, Ok(2));
}

#[test]
fn empty_property_is_skipped_as_non_match() {
    // An empty needle is contained in any text, so only the empty-property
    // rule makes the first candidate a non-match.
    let clients = vec![1, 2];
    let props = vec![vec![], b"x".to_vec()];
    let spec = TargetSpecifier::ByName(String::new());
    let trace = resolve_with_probes(&spec, 9, clients, &props);
    assert_eq!(trace.outcome, Ok(2));
    assert_eq!(trace.probes, 2);
}

#[test]
fn non_utf8_property_is_skipped_as_non_match() {
    let clients = vec![1, 2];
    let props = vec![vec![0xff, 0xfe, 0x61], b"target window".to_vec()];
    let spec = TargetSpecifier::ByName("target".to_string());
    let trace = resolve_with_probes(&spec, 9, clients, &props);
    assert_eq!(trace.outcome, Ok(2));
    assert_eq!(trace.probes, 2);
}

#[test]
fn identifier_resolves_locally_without_requests() {
    let clients = vec![1, 2];
    let props = vec![b"a".to_vec(), b"b".to_vec()];
    let spec = TargetSpecifier::ByIdentifier("0x2a".to_string());
    let trace = resolve_with_probes(&spec, 9, clients, &props);
    assert_eq!(trace.outcome, Ok(42));
    assert_eq!(trace.list_queries, 0);
    assert_eq!(trace.probes, 0);
}

#[test]
fn bad_identifier_is_rejected_before_any_request() {
    let spec = TargetSpecifier::ByIdentifier("zz".to_string());
    let trace = resolve_with_probes(&spec, 9, vec![], &vec![]);
    assert_eq!(trace.outcome, Err(Error::InvalidIdentifier));
    assert_eq!(trace.list_queries, 0);
    assert_eq!(trace.probes, 0);
}

#[test]
fn identifier_parsing_accepts_hex_forms() {
    assert_eq!(parse_window_id("0x2a"), Ok(42));
    assert_eq!(parse_window_id("2A"), Ok(42));
    assert_eq!(parse_window_id("deadbeef"), Ok(0xdead_beef));
    assert_eq!(parse_window_id("ffffffff"), Ok(u32::MAX));
    // Leading zeros keep the value in range even past eight digits.
    assert_eq!(parse_window_id("00000000ff"), Ok(255));
    // Every leading marker is stripped, as repeated prefix-trimming does.
    assert_eq!(parse_window_id("0x0x10"), Ok(16));
}

#[test]
fn identifier_parsing_rejects_bad_forms() {
    assert_eq!(parse_window_id(""), Err(Error::InvalidIdentifier));
    assert_eq!(parse_window_id("0x"), Err(Error::InvalidIdentifier));
    assert_eq!(parse_window_id("12g4"), Err(Error::InvalidIdentifier));
    // Only the lowercase marker is stripped; a capital X is no hex digit.
    assert_eq!(parse_window_id("0X2a"), Err(Error::InvalidIdentifier));
    assert_eq!(parse_window_id("-1"), Err(Error::InvalidIdentifier));
    assert_eq!(parse_window_id("1ffffffff"), Err(Error::InvalidIdentifier));
}

#[test]
fn failed_property_read_aborts_resolution() {
    let mut resolver = Resolver::new(MatchKind::Name, "a", vec![5, 6]);
    assert_eq!(resolver.pending_candidate(), Some(5));
    let out = resolver.offer_property(PropertyRead::Failed);
    assert_eq!(out, Some(Err(Error::ProtocolError)));
}

#[test]
fn resolver_walks_candidates_in_order() {
    let mut resolver = Resolver::new(MatchKind::Name, "wanted", vec![5, 6, 7]);
    assert_eq!(resolver.pending_candidate(), Some(5));
    let miss = b"other".to_vec();
    assert_eq!(resolver.offer_property(PropertyRead::Value(&miss)), None);
    assert_eq!(resolver.pending_candidate(), Some(6));
    let hit = b"the wanted one".to_vec();
    assert_eq!(resolver.offer_property(PropertyRead::Value(&hit)), Some(Ok(6)));
}

#[test]
fn resolver_reports_exhaustion_only_after_all_candidates() {
    let mut resolver = Resolver::new(MatchKind::Name, "wanted", vec![5]);
    let miss = b"other".to_vec();
    assert_eq!(resolver.offer_property(PropertyRead::Value(&miss)), None);
    assert_eq!(resolver.pending_candidate(), None);
    assert_eq!(resolver.exhausted(), Err(Error::TargetNotFound));
}
