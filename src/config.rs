//! The configuration shared, read-only, by every task of a batch.
use vstd::prelude::*;

verus! {

/// Tasks that may run at once unless configured otherwise.
pub const DEFAULT_CONCURRENCY: usize = 4;

/// Seconds a scan may run unless configured otherwise.
pub const DEFAULT_TIMEOUT_SECS: u64 = 30;

/// A configuration that cannot be used, or a startup choice that is not known.
#[derive(Clone, Copy, Debug, PartialEq, Eq, Structural)]
pub enum ConfigError {
    /// The input mode is neither `ip` nor `file`.
    InvalidInputMode,
    /// The concurrency limit is zero.
    ZeroConcurrency,
    /// The timeout is zero seconds.
    ZeroTimeout,
}

/// The batch's configuration.
#[derive(Clone, Debug)]
pub struct ScanConfig {
    pub concurrency: usize,
    pub timeout_secs: u64,
    pub verbose: bool,
    pub output_dir: String,
}

impl ScanConfig {
    pub open spec fn wf(&self) -> bool {
        self.concurrency >= 1 && self.timeout_secs >= 1
    }

    /// A configuration from its parts; the limit and the timeout must be positive.
    pub fn new(concurrency: usize, timeout_secs: u64, verbose: bool, output_dir: String) -> (r:
        Result<ScanConfig, ConfigError>)
        ensures
            concurrency == 0 ==> r == Err::<ScanConfig, ConfigError>(ConfigError::ZeroConcurrency),
            concurrency >= 1 && timeout_secs == 0 ==> r == Err::<ScanConfig, ConfigError>(
                ConfigError::ZeroTimeout,
            ),
            concurrency >= 1 && timeout_secs >= 1 ==> (r matches Ok(c) && c.wf() && c.concurrency
                == concurrency && c.timeout_secs == timeout_secs && c.verbose == verbose
                && c.output_dir@ == output_dir@),
    {
        if concurrency == 0 {
            Err(ConfigError::ZeroConcurrency)
        } else if timeout_secs == 0 {
            Err(ConfigError::ZeroTimeout)
        } else {
            Ok(ScanConfig { concurrency, timeout_secs, verbose, output_dir })
        }
    }
}

} // verus!
