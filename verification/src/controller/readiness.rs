//! Pod readiness monitoring: configuration and evaluation of a check.
use vstd::prelude::*;

use crate::text::{decimal, format_decimal};
use crate::time::Duration;

verus! {

/// Configuration for pod readiness checks.
#[derive(Debug, Clone, Copy, PartialEq, Eq, Structural)]
pub struct ReadinessConfig {
    /// Maximum time to wait for pods to become ready.
    pub timeout: Duration,
    /// Delay between readiness checks.
    pub check_interval: Duration,
}

impl Default for ReadinessConfig {
    fn default() -> (c: Self)
        ensures
            c.timeout.spec_secs() == 300 && c.timeout.spec_subsec_nanos() == 0,
            c.check_interval.spec_secs() == 5 && c.check_interval.spec_subsec_nanos() == 0,
    {
        ReadinessConfig { timeout: Duration::from_secs(300), check_interval: Duration::from_secs(5) }
    }
}

/// Outcome of a pod readiness check.
#[derive(Debug, Clone, PartialEq, Eq)]
pub enum ReadinessOutcome {
    /// All pods are ready.
    Ready,
    /// Pods are not yet ready; more checks remain.
    Pending { elapsed: Duration, timeout: Duration },
    /// The readiness timeout was exceeded.
    TimedOut { message: String },
}

/// The message of a readiness timeout.
pub open spec fn timed_out_message(elapsed: Duration, timeout: Duration) -> Seq<char> {
    "Pods not ready after "@ + decimal(elapsed.spec_secs()) + "s (timeout: "@ + decimal(timeout.spec_secs())
        + "s)"@
}

/// Evaluate the readiness state given the current elapsed time and
/// whether pods are ready.
pub fn evaluate_readiness(pods_ready: bool, elapsed: Duration, config: &ReadinessConfig) -> (r: ReadinessOutcome)
    ensures
        pods_ready ==> r == ReadinessOutcome::Ready,
        !pods_ready && elapsed.total_nanos() >= config.timeout.total_nanos() ==> (r matches ReadinessOutcome::TimedOut {
            message,
        } && message@ == timed_out_message(elapsed, config.timeout)),
        !pods_ready && elapsed.total_nanos() < config.timeout.total_nanos() ==> r == (ReadinessOutcome::Pending {
            elapsed,
            timeout: config.timeout,
        }),
{
    if pods_ready {
        return ReadinessOutcome::Ready;
    }
    if elapsed.at_least(&config.timeout) {
        let mut message = "Pods not ready after ".to_owned();
        let e = format_decimal(elapsed.as_secs());
        message.append(e.as_str());
        message.append("s (timeout: ");
        let t = format_decimal(config.timeout.as_secs());
        message.append(t.as_str());
        message.append("s)");
        return ReadinessOutcome::TimedOut { message };
    }
    ReadinessOutcome::Pending { elapsed, timeout: config.timeout }
}

/// The number of readiness checks that fit in the timeout: one for a zero
/// interval, otherwise the timeout over the interval in whole milliseconds,
/// capped at `u32::MAX`.
pub open spec fn spec_max_checks(config: ReadinessConfig) -> u32 {
    if config.check_interval.total_nanos() == 0 {
        1
    } else {
        let n = (config.timeout.total_nanos() / 1_000_000) / (config.check_interval.total_nanos() / 1_000_000);
        if n <= u32::MAX {
            n as u32
        } else {
            u32::MAX
        }
    }
}

/// Calculate the maximum number of check iterations given the config.
///
/// An interval shorter than one millisecond (but not zero) has no whole
/// milliseconds to divide by and is not accepted.
pub fn max_checks(config: &ReadinessConfig) -> (r: u32)
    requires
        config.check_interval.total_nanos() == 0 || config.check_interval.total_nanos() >= 1_000_000,
    ensures
        r == spec_max_checks(*config),
{
    if config.check_interval.is_zero() {
        return 1;
    }
    let interval = config.check_interval.as_millis();
    let n = config.timeout.as_millis() / interval;
    if n <= 0xffff_ffff {
        n as u32
    } else {
        u32::MAX
    }
}

} // verus!
