//! One scan of one target: the command line it runs, how the wait for the
//! external process is bounded, and how its exit is classified.
use vstd::prelude::*;
use vstd::string::*;

verus! {

/// The external scanning command.
pub const SCAN_COMMAND: &'static str = "testssl.sh";

/// The flag appended to the command line when verbosity is requested.
pub const VERBOSE_FLAG: &'static str = "--verbose";

/// The terminal outcome of one scan.
#[derive(Clone, Debug)]
pub enum ScanOutcome {
    /// The process exited with status 0; its standard output as text.
    Success(String),
    /// The process exited otherwise: its exit code (none if a signal ended it)
    /// and its standard error as text.
    ProcessFailure(Option<i32>, String),
    /// The process outlived the timeout and was terminated.
    TimedOut,
    /// The process could not be started.
    LaunchError(String),
}

/// What the driver of one external process does next.
#[derive(Clone, Copy, Debug, PartialEq, Eq, Structural)]
pub enum WaitStep {
    /// The process has exited: collect its output and classify it.
    Collect,
    /// The timeout has passed: terminate the process and reap it.
    Kill,
    /// Keep waiting, then look again.
    Poll,
}

/// The text that `String::from_utf8_lossy` makes of a byte sequence.
pub uninterp spec fn lossy_text(b: Seq<u8>) -> Seq<char>;

/// Relies on `String::from_utf8_lossy`: decoding never fails, invalid
/// sequences are replaced, and the text depends on the bytes alone.
#[verifier::external_body]
fn decode_lossy(b: &[u8]) -> (r: String)
    ensures
        r@ == lossy_text(b@),
        b@.len() == 0 ==> r@.len() == 0,
{
    String::from_utf8_lossy(b).into_owned()
}

/// The arguments given to the scanning command for one target.
pub open spec fn scan_args_of(target: Seq<char>, verbose: bool) -> Seq<Seq<char>> {
    if verbose {
        seq![target, VERBOSE_FLAG@]
    } else {
        seq![target]
    }
}

/// The arguments of the scanning command: the target, then the verbosity flag if set.
pub fn scan_args(target: &str, verbose: bool) -> (r: Vec<String>)
    ensures
        r@.len() == scan_args_of(target@, verbose).len(),
        forall|i: int| 0 <= i < r@.len() ==> #[trigger] r@[i]@ == scan_args_of(target@, verbose)[i],
{
    let mut args: Vec<String> = Vec::new();
    args.push(String::from_str(target));
    if verbose {
        args.push(String::from_str(VERBOSE_FLAG));
    }
    args
}

/// The outcome of a process that exited with `code` (none when a signal ended it).
pub open spec fn exit_outcome_is(
    r: ScanOutcome,
    code: Option<i32>,
    stdout: Seq<u8>,
    stderr: Seq<u8>,
) -> bool {
    if code == Some(0i32) {
        r matches ScanOutcome::Success(text) && text@ == lossy_text(stdout)
    } else {
        r matches ScanOutcome::ProcessFailure(c, text) && c == code && text@ == lossy_text(stderr)
    }
}

/// Classifies a process that exited: status 0 is success carrying the standard
/// output, any other status a failure carrying the code and the standard error.
pub fn classify_exit(code: Option<i32>, stdout: &[u8], stderr: &[u8]) -> (r: ScanOutcome)
    ensures
        exit_outcome_is(r, code, stdout@, stderr@),
{
    match code {
        Some(0i32) => ScanOutcome::Success(decode_lossy(stdout)),
        _ => ScanOutcome::ProcessFailure(code, decode_lossy(stderr)),
    }
}

/// Whether `elapsed_ms` milliseconds have reached a timeout of `timeout_secs` seconds.
pub open spec fn expired(elapsed_ms: u64, timeout_secs: u64) -> bool {
    elapsed_ms as int >= 1000 * timeout_secs as int
}

/// The step taken for a process that has run `elapsed_ms` milliseconds.
pub open spec fn wait_step_of(exited: bool, elapsed_ms: u64, timeout_secs: u64) -> WaitStep {
    if exited {
        WaitStep::Collect
    } else if expired(elapsed_ms, timeout_secs) {
        WaitStep::Kill
    } else {
        WaitStep::Poll
    }
}

/// The next step for a process that has run `elapsed_ms` milliseconds under a
/// timeout of `timeout_secs` seconds: an exit is collected even at the limit;
/// otherwise the process is killed once the timeout is reached.
pub fn wait_step(exited: bool, elapsed_ms: u64, timeout_secs: u64) -> (r: WaitStep)
    ensures
        r == wait_step_of(exited, elapsed_ms, timeout_secs),
{
    if exited {
        WaitStep::Collect
    } else if (timeout_secs as u128) * 1000 <= elapsed_ms as u128 {
        WaitStep::Kill
    } else {
        WaitStep::Poll
    }
}

/// The sleep before the next look: the interval, or what is left of the timeout.
pub open spec fn poll_delay_of(elapsed_ms: u64, timeout_secs: u64, interval_ms: u64) -> int {
    if elapsed_ms + interval_ms <= 1000 * timeout_secs {
        interval_ms as int
    } else {
        1000 * timeout_secs - elapsed_ms
    }
}

/// How long to sleep before looking again: the poll interval, cut short so the
/// next look falls no later than the timeout.
pub fn poll_delay(elapsed_ms: u64, timeout_secs: u64, interval_ms: u64) -> (r: u64)
    requires
        !expired(elapsed_ms, timeout_secs),
    ensures
        r as int == poll_delay_of(elapsed_ms, timeout_secs, interval_ms),
{
    let left: u128 = (timeout_secs as u128) * 1000 - elapsed_ms as u128;
    if (interval_ms as u128) <= left {
        interval_ms
    } else {
        left as u64
    }
}

/// The wait for an external process is bounded by its timeout: before the
/// timeout each sleep is positive (when the interval is) and ends no later than
/// the timeout, and at the timeout a process that has not exited is killed.
pub proof fn lemma_wait_bounded(elapsed_ms: u64, timeout_secs: u64, interval_ms: u64)
    ensures
        expired(elapsed_ms, timeout_secs) ==> wait_step_of(false, elapsed_ms, timeout_secs)
            == WaitStep::Kill,
        !expired(elapsed_ms, timeout_secs) && interval_ms > 0 ==> {
            &&& 0 < poll_delay_of(elapsed_ms, timeout_secs, interval_ms)
            &&& elapsed_ms + poll_delay_of(elapsed_ms, timeout_secs, interval_ms) <= 1000
                * timeout_secs
        },
{
}

} // verus!
