use testssl_batch::config::{ConfigError, ScanConfig, DEFAULT_CONCURRENCY, DEFAULT_TIMEOUT_SECS};
use testssl_batch::outcome::{
    classify_exit, poll_delay, scan_args, wait_step, ScanOutcome, WaitStep, SCAN_COMMAND,
};
use testssl_batch::scheduler::{Event, Scheduler};
use testssl_batch::sink::{aborted, output_path, report, write_plan, FailureKind, LogRecord};
use testssl_batch::targets::{input_mode, parse_targets, targets_from, InputMode};

/// Runs a whole batch through the scheduler with a stub executor, the way the
/// driver does, and returns the files planned, the log records, the order of
/// starts and the largest number of tasks seen running at once.
fn run_stub_batch(
    targets: &[&str],
    limit: usize,
    dir: &str,
    stub: &dyn Fn(&str) -> ScanOutcome,
) -> (Vec<(String, String)>, Vec<LogRecord>, Vec<usize>, usize) {
    let mut s = Scheduler::new(targets.len(), limit);
    let mut in_flight: Vec<usize> = Vec::new();
    let mut files = Vec::new();
    let mut records = Vec::new();
    let mut started = Vec::new();
    let mut peak = 0;
    while !s.is_done() {
        match s.next_event() {
            Event::Dispatch => {
                let i = s.dispatch().unwrap();
                started.push(i);
                in_flight.push(i);
                peak = peak.max(in_flight.len());
            }
            Event::Finish => {
                let i = in_flight.remove(0);
                let outcome = stub(targets[i]);
                if let Some(plan) = write_plan(dir, targets[i], &outcome) {
                    files.push((plan.path, plan.contents));
                }
                records.push(report(targets[i], &outcome, None));
                s.finish();
            }
        }
    }
    (files, records, started, peak)
}

fn stub_three(t: &str) -> ScanOutcome {
    match t {
        "10.0.0.1" => ScanOutcome::Success("OK1".to_string()),
        "10.0.0.2" => ScanOutcome::Success("OK2".to_string()),
        _ => ScanOutcome::LaunchError("no such host".to_string()),
    }
}

#[test]
fn three_targets_two_slots() {
    let targets = ["10.0.0.1", "10.0.0.2", "bad-host"];
    let config = ScanConfig::new(2, 5, false, "out".to_string()).unwrap();
    let (files, records, started, peak) =
        run_stub_batch(&targets, config.concurrency, &config.output_dir, &stub_three);
    assert_eq!(
        files,
        vec![
            ("out/test_ssl-10.0.0.1".to_string(), "OK1".to_string()),
            ("out/test_ssl-10.0.0.2".to_string(), "OK2".to_string()),
        ]
    );
    assert_eq!(records.len(), 3);
    assert!(matches!(&records[0], LogRecord::Completed(t) if t == "10.0.0.1"));
    assert!(matches!(&records[1], LogRecord::Completed(t) if t == "10.0.0.2"));
    assert!(matches!(&records[2],
        LogRecord::Failed(t, FailureKind::LaunchError, d) if t == "bad-host" && d == "no such host"));
    assert_eq!(started, vec![0, 1, 2]);
    assert!(peak <= 2);
    assert_eq!(peak, 2);
}

#[test]
fn many_targets_respect_limit() {
    let names: Vec<String> = (0..25).map(|i| format!("host{}", i)).collect();
    let targets: Vec<&str> = names.iter().map(|s| s.as_str()).collect();
    let stub = |t: &str| ScanOutcome::Success(format!("body of {}", t));
    let (files, records, started, peak) = run_stub_batch(&targets, 3, "d", &stub);
    assert_eq!(started, (0..25).collect::<Vec<usize>>());
    assert_eq!(peak, 3);
    assert_eq!(files.len(), 25);
    assert_eq!(records.len(), 25);
    assert_eq!(files[7], ("d/test_ssl-host7".to_string(), "body of host7".to_string()));
}

#[test]
fn empty_batch_is_done_at_once() {
    let mut s = Scheduler::new(0, 4);
    assert!(s.is_done());
    assert_eq!(s.dispatch(), None);
    assert!(!s.has_running());
    let stub = |_: &str| -> ScanOutcome { panic!("no task may run") };
    let (files, records, started, peak) = run_stub_batch(&[], 4, "d", &stub);
    assert!(files.is_empty() && records.is_empty() && started.is_empty());
    assert_eq!(peak, 0);
}

#[test]
fn dispatch_stops_at_limit() {
    let mut s = Scheduler::new(5, 2);
    assert_eq!(s.next_event(), Event::Dispatch);
    assert_eq!(s.dispatch(), Some(0));
    assert_eq!(s.dispatch(), Some(1));
    assert_eq!(s.next_event(), Event::Finish);
    assert_eq!(s.dispatch(), None);
    assert_eq!(s.running, 2);
    s.finish();
    assert_eq!(s.running, 1);
    assert_eq!(s.finished, 1);
    assert_eq!(s.dispatch(), Some(2));
    assert!(!s.is_done());
}

#[test]
fn finish_without_running_task_changes_nothing() {
    let mut s = Scheduler::new(2, 1);
    s.finish();
    assert_eq!(s, Scheduler::new(2, 1));
}

#[test]
fn rerun_overwrites_with_same_contents() {
    let targets = ["a.example", "b.example"];
    let stub = |t: &str| ScanOutcome::Success(format!("report {}", t));
    let first = run_stub_batch(&targets, 2, "o", &stub).0;
    let second = run_stub_batch(&targets, 2, "o", &stub).0;
    assert_eq!(first, second);
    assert_eq!(first[0].1, "report a.example");
}

#[test]
fn a_failed_write_does_not_stop_others() {
    let ok = ScanOutcome::Success("x".to_string());
    let r = report("t1", &ok, Some("permission denied".to_string()));
    assert!(matches!(&r,
        LogRecord::Failed(t, FailureKind::WriteError, d) if t == "t1" && d == "permission denied"));
    let r2 = report("t2", &ok, None);
    assert!(matches!(&r2, LogRecord::Completed(t) if t == "t2"));
    let a = aborted("t3");
    assert!(matches!(&a, LogRecord::Failed(t, FailureKind::Aborted, d) if t == "t3" && d.is_empty()));
}

#[test]
fn reports_for_each_failure_kind() {
    let pf = ScanOutcome::ProcessFailure(Some(2), "bad args".to_string());
    assert!(matches!(&report("h", &pf, None),
        LogRecord::Failed(t, FailureKind::ProcessFailure, d) if t == "h" && d == "bad args"));
    assert!(matches!(&report("h", &ScanOutcome::TimedOut, None),
        LogRecord::Failed(t, FailureKind::TimedOut, d) if t == "h" && d.is_empty()));
    let le = ScanOutcome::LaunchError("not found".to_string());
    assert!(matches!(&report("h", &le, None),
        LogRecord::Failed(_, FailureKind::LaunchError, d) if d == "not found"));
}

#[test]
fn no_file_unless_success() {
    assert!(write_plan("d", "h", &ScanOutcome::TimedOut).is_none());
    assert!(write_plan("d", "h", &ScanOutcome::ProcessFailure(None, String::new())).is_none());
    assert!(write_plan("d", "h", &ScanOutcome::LaunchError("x".to_string())).is_none());
    let p = write_plan("/tmp/r", "example.org", &ScanOutcome::Success("body".to_string())).unwrap();
    assert_eq!(p.path, "/tmp/r/test_ssl-example.org");
    assert_eq!(p.contents, "body");
}

#[test]
fn output_path_layout() {
    assert_eq!(output_path("results", "10.1.2.3"), "results/test_ssl-10.1.2.3");
    assert_eq!(output_path("", "x"), "/test_ssl-x");
    assert_ne!(output_path("r", "a"), output_path("r", "b"));
}

#[test]
fn exit_zero_is_success_with_stdout() {
    let o = classify_exit(Some(0), b"scan ok\n", b"noise");
    assert!(matches!(o, ScanOutcome::Success(ref t) if t == "scan ok\n"));
}

#[test]
fn exit_nonzero_is_failure_with_stderr() {
    let o = classify_exit(Some(1), b"partial", b"boom");
    assert!(matches!(o, ScanOutcome::ProcessFailure(Some(1), ref e) if e == "boom"));
    let s = classify_exit(None, b"", b"killed");
    assert!(matches!(s, ScanOutcome::ProcessFailure(None, ref e) if e == "killed"));
}

#[test]
fn invalid_bytes_are_replaced() {
    let o = classify_exit(Some(0), &[b'o', 0xff, b'k'], b"");
    assert!(matches!(o, ScanOutcome::Success(ref t) if t == "o\u{FFFD}k"));
}

#[test]
fn command_line_of_a_scan() {
    assert_eq!(SCAN_COMMAND, "testssl.sh");
    assert_eq!(scan_args("10.0.0.1", false), vec!["10.0.0.1".to_string()]);
    assert_eq!(
        scan_args("example.org", true),
        vec!["example.org".to_string(), "--verbose".to_string()]
    );
}

#[test]
fn wait_steps_around_the_timeout() {
    assert_eq!(wait_step(false, 0, 5), WaitStep::Poll);
    assert_eq!(wait_step(false, 4999, 5), WaitStep::Poll);
    assert_eq!(wait_step(false, 5000, 5), WaitStep::Kill);
    assert_eq!(wait_step(false, 60000, 5), WaitStep::Kill);
    assert_eq!(wait_step(true, 60000, 5), WaitStep::Collect);
    assert_eq!(wait_step(false, u64::MAX, u64::MAX), WaitStep::Poll);
}

#[test]
fn poll_delay_never_passes_the_timeout() {
    assert_eq!(poll_delay(0, 5, 100), 100);
    assert_eq!(poll_delay(4950, 5, 100), 50);
    assert_eq!(poll_delay(4900, 5, 100), 100);
    assert_eq!(poll_delay(0, u64::MAX, 100), 100);
}

#[test]
fn timed_out_scan_is_killed_in_bounded_steps() {
    let mut elapsed: u64 = 0;
    let mut looks = 0;
    loop {
        match wait_step(false, elapsed, 1) {
            WaitStep::Kill => break,
            WaitStep::Poll => elapsed += poll_delay(elapsed, 1, 300),
            WaitStep::Collect => unreachable!(),
        }
        looks += 1;
    }
    assert_eq!(elapsed, 1000);
    assert_eq!(looks, 4);
}

#[test]
fn parse_lines_of_a_file() {
    assert_eq!(parse_targets("a\nb\n"), vec!["a", "b"]);
    assert_eq!(parse_targets("a\r\nb"), vec!["a", "b"]);
    assert_eq!(parse_targets("a\n\nb\n"), vec!["a", "", "b"]);
    assert_eq!(parse_targets(" a \n"), vec![" a "]);
    assert_eq!(parse_targets("a\r"), vec!["a\r"]);
    assert_eq!(parse_targets("\n"), vec![""]);
}

#[test]
fn empty_file_gives_no_targets() {
    assert!(parse_targets("").is_empty());
}

#[test]
fn targets_from_each_mode() {
    assert_eq!(targets_from(InputMode::Ip, "10.0.0.9", ""), vec!["10.0.0.9"]);
    assert_eq!(targets_from(InputMode::File, "list.txt", "x\ny\n"), vec!["x", "y"]);
}

#[test]
fn input_modes() {
    assert_eq!(input_mode("ip"), Ok(InputMode::Ip));
    assert_eq!(input_mode("file"), Ok(InputMode::File));
    assert_eq!(input_mode("url"), Err(ConfigError::InvalidInputMode));
    assert_eq!(input_mode(""), Err(ConfigError::InvalidInputMode));
}

#[test]
fn config_validation() {
    assert_eq!(DEFAULT_CONCURRENCY, 4);
    assert_eq!(DEFAULT_TIMEOUT_SECS, 30);
    assert_eq!(ScanConfig::new(0, 30, false, "o".to_string()).unwrap_err(), ConfigError::ZeroConcurrency);
    assert_eq!(ScanConfig::new(4, 0, false, "o".to_string()).unwrap_err(), ConfigError::ZeroTimeout);
    let c = ScanConfig::new(4, 30, true, "o".to_string()).unwrap();
    assert_eq!((c.concurrency, c.timeout_secs, c.verbose, c.output_dir.as_str()), (4, 30, true, "o"));
}
