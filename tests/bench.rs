use rpc_bench::endpoints::parse_endpoints;
use rpc_bench::outcome::{BenchmarkResult, Stamp};
use rpc_bench::probe::{Action, Event, Probe};
use rpc_bench::report::render_report;
use rpc_bench::text::decimal_text;

fn stamp(nanos: u64) -> Stamp {
    Stamp::new(nanos, 1_700_000_000_000)
}

fn probe_height(endpoint: &str, height: u64) -> Probe {
    let mut p = Probe::new(endpoint.to_string(), stamp(0), false);
    assert_eq!(p.next_action(), Action::QueryHeight);
    assert_eq!(p.on_event(Event::Height(height)), Action::Finish);
    p
}

#[test]
fn two_endpoints_reported_in_input_order() {
    let eps = parse_endpoints("http://a,http://b");
    assert_eq!(eps, vec!["http://a".to_string(), "http://b".to_string()]);
    let pa = probe_height(&eps[0], 100);
    let pb = probe_height(&eps[1], 100);
    // b finishes before a; the report still follows input order
    let rb = pb.finish(stamp(5_000));
    let ra = pa.finish(stamp(9_000));
    let report = render_report(&vec![ra, rb]);
    assert!(report.starts_with("\nBenchmark Results:\n=================\n"));
    assert_eq!(report.matches("Status: Success (Block Height: 100)").count(), 2);
    let a = report.find("\nEndpoint #1\n-----------\nEndpoint: http://a\n").unwrap();
    let b = report.find("\nEndpoint #2\n-----------\nEndpoint: http://b\n").unwrap();
    assert!(a < b);
    assert_eq!(report.matches("\nEndpoint #").count(), 2);
}

#[test]
fn empty_list_gives_empty_report() {
    let eps = parse_endpoints("");
    assert!(eps.is_empty());
    let report = render_report(&Vec::new());
    assert_eq!(report, "\nBenchmark Results:\n=================\n");
}

#[test]
fn parse_trims_and_skips_empty_pieces() {
    let eps = parse_endpoints(" http://x ,,\thttp://y\u{a0}, ,http://x");
    assert_eq!(
        eps,
        vec!["http://x".to_string(), "http://y".to_string(), "http://x".to_string()]
    );
    assert!(parse_endpoints(" , ,").is_empty());
    assert_eq!(parse_endpoints("solo"), vec!["solo".to_string()]);
}

#[test]
fn height_failure_finalizes_with_error() {
    let mut p = Probe::new("http://down".to_string(), stamp(10), true);
    let next = p.on_event(Event::HeightFailed("connection refused".to_string()));
    assert_eq!(next, Action::Finish);
    let r = p.finish(stamp(30));
    assert_eq!(r.error, Some("connection refused".to_string()));
    assert_eq!(r.block_height, None);
    assert!(r.end.is_some());
    assert_eq!(r.duration(), Some(20));
    let text = r.display();
    assert!(text.contains("\nStatus: Error: connection refused\n"));
    assert!(text.contains("\nError Details: connection refused\n"));
    assert!(text.contains("\nTransaction Signature: No signature\n"));
    assert!(text.contains("\nTransaction Block Height: N/A\n"));
}

#[test]
fn height_success_basic_variant() {
    let r = probe_height("http://up", 42).finish(stamp(7));
    assert_eq!(r.block_height, Some(42));
    assert_eq!(r.error, None);
    assert!(r.end.is_some());
    assert!(!r.display().contains("Error Details"));
}

#[test]
fn both_hash_methods_fail_no_submission() {
    let mut p = Probe::new("http://h".to_string(), stamp(0), true);
    assert_eq!(p.on_event(Event::Height(5)), Action::FetchLatestHash);
    assert_eq!(p.on_event(Event::LatestHash(false)), Action::FetchHashWithCommitment);
    assert_eq!(p.on_event(Event::HashWithCommitment(false)), Action::Finish);
    let r = p.finish(stamp(1));
    assert_eq!(
        r.error,
        Some("Failed to get blockhash: All available methods failed".to_string())
    );
    assert_eq!(r.transaction_signature, None);
    assert_eq!(r.block_height, Some(5));
}

#[test]
fn fallback_hash_method_leads_to_submission() {
    let mut p = Probe::new("http://h".to_string(), stamp(0), true);
    p.on_event(Event::Height(5));
    p.on_event(Event::LatestHash(false));
    assert_eq!(p.on_event(Event::HashWithCommitment(true)), Action::Submit);
}

#[test]
fn submission_kept_when_slot_lookup_fails() {
    let mut p = Probe::new("http://t".to_string(), stamp(0), true);
    p.on_event(Event::Height(9));
    assert_eq!(p.on_event(Event::LatestHash(true)), Action::Submit);
    assert_eq!(p.on_event(Event::Submitted("SiG".to_string())), Action::QuerySlot);
    assert_eq!(p.on_event(Event::SlotFailed("timeout".to_string())), Action::Finish);
    let r = p.finish(stamp(2));
    assert_eq!(r.transaction_signature, Some("SiG".to_string()));
    assert_eq!(
        r.error,
        Some("Failed to get transaction block height: timeout".to_string())
    );
    let text = r.display();
    assert!(text.contains("\nStatus: Success (Block Height: 9)\n"));
    assert!(text.contains("\nTransaction Signature: SiG\n"));
}

#[test]
fn full_transaction_probe() {
    let mut p = Probe::new("http://t".to_string(), stamp(0), true);
    p.on_event(Event::Height(9));
    p.on_event(Event::LatestHash(true));
    p.on_event(Event::Submitted("SiG".to_string()));
    assert_eq!(p.on_event(Event::Slot(12345)), Action::Finish);
    let r = p.finish(stamp(2));
    assert_eq!(r.transaction_block_height, Some(12345));
    assert_eq!(r.error, None);
    assert!(r.display().contains("\nTransaction Block Height: 12345\n"));
}

#[test]
fn submission_failure_recorded() {
    let mut p = Probe::new("http://t".to_string(), stamp(0), true);
    p.on_event(Event::Height(1));
    p.on_event(Event::LatestHash(true));
    assert_eq!(p.on_event(Event::SubmitFailed("rejected".to_string())), Action::Finish);
    let r = p.finish(stamp(2));
    assert_eq!(r.error, Some("Transaction failed: rejected".to_string()));
    assert_eq!(r.transaction_signature, None);
}

#[test]
fn mismatched_event_changes_nothing() {
    let mut p = Probe::new("http://m".to_string(), stamp(0), true);
    assert_eq!(p.on_event(Event::Slot(3)), Action::QueryHeight);
    assert_eq!(p.result.transaction_block_height, None);
}

#[test]
fn display_is_repeatable() {
    let r = probe_height("http://r", 100).finish(stamp(1_500_000));
    let first = r.display();
    let second = r.display();
    assert_eq!(first, second);
}

#[test]
fn unfinished_record_renders_placeholders() {
    let r = BenchmarkResult::new("http://n".to_string(), stamp(0));
    let text = r.display();
    assert!(text.starts_with("Endpoint: http://n\nStart Time: "));
    assert!(text.contains("\nEnd Time: N/A\n"));
    assert!(text.contains("\nStatus: Unknown Status\n"));
    assert!(text.ends_with("\nDuration: N/A\n"));
    assert_eq!(r.duration(), None);
}

#[test]
fn duration_and_times_are_rendered() {
    let r = probe_height("http://d", 1).finish(Stamp::new(1_500_000, 1_700_000_000_123));
    let text = r.display();
    assert!(text.ends_with("\nDuration: 1.50ms\n"));
    assert!(r.start.wall_text.contains(".000"));
    assert!(r.end.as_ref().unwrap().wall_text.contains(".123"));
    assert!(r.start.wall_text.starts_with("2023-11-1"));
}

#[test]
fn wall_time_before_epoch_shows_millis() {
    let st = Stamp::new(0, -1);
    assert!(st.wall_text.contains(".999"));
    assert!(st.wall_text.starts_with("19"));
    let st = Stamp::new(0, -86_400_000 * 365 + 7);
    assert!(st.wall_text.contains(".007"));
}

#[test]
fn completion_sets_end_after_start() {
    let mut r = BenchmarkResult::new("http://z".to_string(), stamp(40));
    r.complete(Stamp::new(90, 1_700_000_000_042));
    assert_eq!(r.duration(), Some(50));
    assert!(r.end.as_ref().unwrap().wall_text.contains(".042"));
}

#[test]
fn decimal_rendering() {
    assert_eq!(decimal_text(0), "0");
    assert_eq!(decimal_text(7), "7");
    assert_eq!(decimal_text(1050), "1050");
    assert_eq!(decimal_text(u64::MAX), "18446744073709551615");
}
