use website_status_checker::args::{assemble_batch, parse_args};
use website_status_checker::backlog::Backlog;
use website_status_checker::collector::ResultCollector;
use website_status_checker::lines::{filter_url_lines, line_is_kept};
use website_status_checker::numbers::{parse_u64, u64_to_dec};
use website_status_checker::outcome::ProbeOutcome;
use website_status_checker::record::CheckRecord;
use website_status_checker::render::{render_report, render_status_line};
use website_status_checker::retry::{run_retry_trace, RetrySession, RetryStep, DEFAULT_RETRY_DELAY_MS};

fn strings(v: &[&str]) -> Vec<String> {
    v.iter().map(|s| s.to_string()).collect()
}

fn failure(msg: &str) -> ProbeOutcome {
    ProbeOutcome::Failure(msg.to_string())
}

// --- retry controller ---

#[test]
fn always_failing_transport_uses_all_attempts() {
    // retries = 3: exactly 4 attempts, 3 delays of 100 ms.
    let trace = vec![
        failure("dns error"),
        failure("dns error"),
        failure("dns error"),
        failure("dns error"),
    ];
    let run = run_retry_trace(&trace, 3, DEFAULT_RETRY_DELAY_MS);
    assert_eq!(run.attempts_made, 4);
    assert_eq!(run.total_delay_ms, 300);
    assert!(matches!(run.final_outcome, ProbeOutcome::Failure(_)));
}

#[test]
fn immediate_success_needs_one_attempt_and_no_delay() {
    let trace = vec![ProbeOutcome::Success(200), failure("unused")];
    let run = run_retry_trace(&trace, 1, DEFAULT_RETRY_DELAY_MS);
    assert_eq!(run.attempts_made, 1);
    assert_eq!(run.total_delay_ms, 0);
    assert!(matches!(run.final_outcome, ProbeOutcome::Success(200)));
}

#[test]
fn success_on_third_attempt_after_two_failures() {
    // retries = 2: failures on attempts 0 and 1, success on attempt 2.
    let trace = vec![
        failure("connection refused"),
        failure("connection refused"),
        ProbeOutcome::Success(200),
    ];
    let run = run_retry_trace(&trace, 2, DEFAULT_RETRY_DELAY_MS);
    assert!(matches!(run.final_outcome, ProbeOutcome::Success(200)));
    assert_eq!(run.attempts_made, 3);
    assert_eq!(run.total_delay_ms, 200);
}

#[test]
fn http_error_status_is_not_retried() {
    // A 500 is a completed transport: the probe is done after one attempt.
    let trace = vec![ProbeOutcome::Success(500), ProbeOutcome::Success(200)];
    let run = run_retry_trace(&trace, 1, DEFAULT_RETRY_DELAY_MS);
    assert_eq!(run.attempts_made, 1);
    assert!(matches!(run.final_outcome, ProbeOutcome::Success(500)));
}

#[test]
fn session_steps_match_the_policy() {
    let mut s = RetrySession::new(1, DEFAULT_RETRY_DELAY_MS);
    match s.decide(&failure("timeout")) {
        RetryStep::RetryAfterMs(d) => assert_eq!(d, 100),
        RetryStep::Finish => panic!("first failure with budget left must retry"),
    }
    // Budget exhausted: the second failure finishes the loop.
    assert!(matches!(s.decide(&failure("timeout")), RetryStep::Finish));
}

#[test]
fn session_finishes_on_error_status() {
    let mut s = RetrySession::new(5, DEFAULT_RETRY_DELAY_MS);
    assert!(matches!(s.decide(&ProbeOutcome::Success(503)), RetryStep::Finish));
}

// --- backlog and collector ---

#[test]
fn backlog_hands_out_each_url_once_in_order() {
    let mut b = Backlog::new(strings(&["http://a", "http://b", "http://c"]));
    assert_eq!(b.total(), 3);
    assert_eq!(b.claim().unwrap(), "http://a");
    assert_eq!(b.claim().unwrap(), "http://b");
    assert_eq!(b.claim().unwrap(), "http://c");
    assert!(b.claim().is_none());
    assert!(b.claim().is_none());
}

#[test]
fn collector_reports_completion_exactly_at_the_batch_size() {
    let mut c = ResultCollector::new(2);
    assert!(!c.is_complete());
    c.push(CheckRecord::new(
        "http://a".to_string(),
        ProbeOutcome::Success(200),
        12,
        1,
    ));
    assert!(!c.is_complete());
    c.push(CheckRecord::new(
        "http://b".to_string(),
        failure("dns error"),
        340,
        2,
    ));
    assert!(c.is_complete());
    assert_eq!(c.count(), 2);
    let records = c.into_records();
    assert_eq!(records.len(), 2);
    assert_eq!(records[0].url, "http://a");
    assert_eq!(records[1].url, "http://b");
}

#[test]
fn one_record_per_url_whatever_the_claim_interleaving() {
    // Two drains of the same batch, claims interleaved differently across
    // simulated workers: same number of records, same set of URLs.
    let urls = ["http://a", "http://b", "http://c", "http://d"];
    let mut seen_first: Vec<String> = Vec::new();
    let mut seen_second: Vec<String> = Vec::new();
    for (publish_at_once, seen) in [(true, &mut seen_first), (false, &mut seen_second)] {
        let mut b = Backlog::new(strings(&urls));
        let mut c = ResultCollector::new(b.total());
        let mut pending: Vec<String> = Vec::new();
        while let Some(url) = b.claim() {
            if publish_at_once {
                c.push(CheckRecord::new(url, ProbeOutcome::Success(200), 1, 1));
            } else {
                // A run whose workers finish in the opposite order.
                pending.push(url);
            }
        }
        while let Some(u) = pending.pop() {
            c.push(CheckRecord::new(u, ProbeOutcome::Success(200), 1, 1));
        }
        assert!(c.is_complete());
        for r in c.into_records() {
            seen.push(r.url);
        }
    }
    assert_ne!(seen_first, seen_second);
    seen_first.sort();
    seen_second.sort();
    assert_eq!(seen_first, seen_second);
    assert_eq!(seen_first, strings(&urls));
}

// --- numerals ---

#[test]
fn renders_decimal_numerals_exactly() {
    assert_eq!(u64_to_dec(0), "0");
    assert_eq!(u64_to_dec(7), "7");
    assert_eq!(u64_to_dec(200), "200");
    assert_eq!(u64_to_dec(12345), "12345");
    assert_eq!(u64_to_dec(u64::MAX), "18446744073709551615");
}

#[test]
fn parses_decimal_numerals_exactly() {
    assert_eq!(parse_u64("0"), Some(0));
    assert_eq!(parse_u64("42"), Some(42));
    assert_eq!(parse_u64("007"), Some(7));
    assert_eq!(parse_u64("18446744073709551615"), Some(u64::MAX));
    assert_eq!(parse_u64("18446744073709551616"), None);
    assert_eq!(parse_u64(""), None);
    assert_eq!(parse_u64("12a"), None);
    assert_eq!(parse_u64("-3"), None);
    assert_eq!(parse_u64(" 5"), None);
}

// --- command line ---

#[test]
fn defaults_hold_without_arguments() {
    let cfg = parse_args(&strings(&[]), 8).unwrap();
    assert_eq!(cfg.workers, 8);
    assert_eq!(cfg.timeout_secs, 5);
    assert_eq!(cfg.retries, 0);
    assert!(cfg.file_path.is_none());
    assert!(cfg.positional_urls.is_empty());
}

#[test]
fn recognizes_every_option_and_positional_urls() {
    let cfg = parse_args(
        &strings(&[
            "http://a",
            "--workers",
            "4",
            "--timeout",
            "10",
            "--retries",
            "2",
            "--file",
            "sites.txt",
            "http://b",
        ]),
        8,
    )
    .unwrap();
    assert_eq!(cfg.workers, 4);
    assert_eq!(cfg.timeout_secs, 10);
    assert_eq!(cfg.retries, 2);
    assert_eq!(cfg.file_path.as_deref(), Some("sites.txt"));
    assert_eq!(cfg.positional_urls, strings(&["http://a", "http://b"]));
}

#[test]
fn a_repeated_option_keeps_its_last_value() {
    let cfg = parse_args(&strings(&["--retries", "1", "--retries", "3"]), 8).unwrap();
    assert_eq!(cfg.retries, 3);
}

#[test]
fn a_flag_without_its_value_is_a_usage_error() {
    assert!(parse_args(&strings(&["--file"]), 8).is_err());
    assert!(parse_args(&strings(&["http://a", "--workers"]), 8).is_err());
}

#[test]
fn an_unknown_option_is_a_usage_error() {
    assert!(parse_args(&strings(&["--frob"]), 8).is_err());
    assert!(parse_args(&strings(&["--"]), 8).is_err());
}

#[test]
fn an_unparseable_number_is_a_usage_error() {
    assert!(parse_args(&strings(&["--workers", "many"]), 8).is_err());
    assert!(parse_args(&strings(&["--timeout", ""]), 8).is_err());
    assert!(parse_args(&strings(&["--retries", "18446744073709551616"]), 8).is_err());
}

#[test]
fn zero_workers_are_refused() {
    assert!(parse_args(&strings(&["--workers", "0"]), 8).is_err());
    assert!(parse_args(&strings(&["--workers", "1"]), 8).is_ok());
}

#[test]
fn empty_batch_is_a_usage_error_before_any_probing() {
    // No file, no positional URLs: the process exits with the usage code
    // without any network activity.
    assert!(assemble_batch(Vec::new(), None).is_err());
    assert!(assemble_batch(Vec::new(), Some(Vec::new())).is_err());
}

#[test]
fn batch_joins_positional_urls_and_file_urls_in_order() {
    let urls = assemble_batch(
        strings(&["http://a"]),
        Some(strings(&["http://b", "http://c"])),
    )
    .unwrap();
    assert_eq!(urls, strings(&["http://a", "http://b", "http://c"]));
    let only_positional = assemble_batch(strings(&["http://a"]), None).unwrap();
    assert_eq!(only_positional, strings(&["http://a"]));
}

// --- URL list lines ---

#[test]
fn keeps_urls_and_skips_blanks_and_comments() {
    assert!(line_is_kept("http://a"));
    assert!(line_is_kept("  http://a"));
    assert!(!line_is_kept(""));
    assert!(!line_is_kept("   "));
    assert!(!line_is_kept("\t"));
    assert!(!line_is_kept("# comment"));
    assert!(!line_is_kept("   # indented comment"));
    let kept = filter_url_lines(strings(&[
        "http://a",
        "",
        "  ",
        "# comment",
        "  # another",
        " http://b ",
    ]));
    // Kept lines stay exactly as read, untrimmed.
    assert_eq!(kept, strings(&["http://a", " http://b "]));
}

// --- rendering ---

#[test]
fn console_line_shows_url_status_and_elapsed() {
    let ok = CheckRecord::new(
        "http://a".to_string(),
        ProbeOutcome::Success(200),
        123,
        1_700_000_000,
    );
    assert_eq!(render_status_line(&ok), "http://a - 200 - 123ms");
    let bad = CheckRecord::new(
        "http://b".to_string(),
        failure("connection refused"),
        250,
        1_700_000_000,
    );
    assert_eq!(render_status_line(&bad), "http://b - connection refused - 250ms");
}

#[test]
fn report_renders_success_records_with_numeric_status() {
    let records = vec![CheckRecord::new(
        "http://a".to_string(),
        ProbeOutcome::Success(200),
        123,
        1_700_000_000,
    )];
    assert_eq!(
        render_report(&records),
        "[\n  { \"url\": \"http://a\", \"status\": 200, \"time_ms\": 123, \"timestamp\": 1700000000 }\n]\n"
    );
}

#[test]
fn report_joins_records_with_commas() {
    let records = vec![
        CheckRecord::new("http://a".to_string(), ProbeOutcome::Success(301), 5, 10),
        CheckRecord::new("http://b".to_string(), failure("timeout"), 5100, 11),
    ];
    assert_eq!(
        render_report(&records),
        "[\n  { \"url\": \"http://a\", \"status\": 301, \"time_ms\": 5, \"timestamp\": 10 },\n  { \"url\": \"http://b\", \"status\": \"timeout\", \"time_ms\": 5100, \"timestamp\": 11 }\n]\n"
    );
}

#[test]
fn two_unreachable_urls_with_one_retry_each() {
    // Both URLs unreachable with retries = 1: two entries, both with a
    // string status, each with at least one retry delay in its elapsed
    // time.
    let urls = strings(&["http://a.invalid", "http://b.invalid"]);
    let mut backlog = Backlog::new(urls);
    let mut collector = ResultCollector::new(backlog.total());
    while let Some(url) = backlog.claim() {
        let trace = vec![failure("dns error"), failure("dns error")];
        let run = run_retry_trace(&trace, 1, DEFAULT_RETRY_DELAY_MS);
        assert_eq!(run.attempts_made, 2);
        // Elapsed covers all attempts, so it is at least the retry delay.
        let elapsed_ms = run.total_delay_ms;
        assert!(elapsed_ms >= 100);
        collector.push(CheckRecord::new(url, run.final_outcome, elapsed_ms, 0));
    }
    assert!(collector.is_complete());
    let records = collector.into_records();
    assert_eq!(records.len(), 2);
    let report = render_report(&records);
    assert_eq!(report.matches("\"status\": \"dns error\"").count(), 2);
    assert_eq!(report.matches("\"url\"").count(), 2);
}
