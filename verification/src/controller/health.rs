//! Readiness flag shared with the health endpoints.
use std::sync::atomic::{AtomicBool, Ordering};
use vstd::prelude::*;

use crate::text::{decimal, format_decimal, str_eq};

verus! {

/// Shared state for health probes.
///
/// The flag is an atomic shared between tasks; the contracts of these
/// methods say nothing of its value, which other tasks may change.
pub struct HealthState {
    /// True once the controller is fully started and watching resources.
    ready: AtomicBool,
}

impl HealthState {
    /// A state that is not ready.
    pub fn new() -> (s: Self) {
        HealthState { ready: AtomicBool::new(false) }
    }

    /// Mark the controller as ready to serve traffic.
    pub fn set_ready(&self) {
        self.ready.store(true, Ordering::SeqCst);
    }

    /// Check whether the controller is ready.
    pub fn is_ready(&self) -> (b: bool) {
        self.ready.load(Ordering::SeqCst)
    }
}

impl Default for HealthState {
    fn default() -> (s: Self) {
        HealthState::new()
    }
}

/// The status line and body a probe of `path` is answered with: `/healthz`
/// is always OK, `/readyz` is OK only once ready, anything else is not found.
pub open spec fn spec_probe_reply(path: Seq<char>, ready: bool) -> (Seq<char>, Seq<char>) {
    if path == "/healthz"@ {
        ("200 OK"@, "ok"@)
    } else if path == "/readyz"@ {
        if ready {
            ("200 OK"@, "ready"@)
        } else {
            ("503 Service Unavailable"@, "not ready"@)
        }
    } else {
        ("404 Not Found"@, "not found"@)
    }
}

/// Decide the status and body of the answer to a probe of `path`.
pub fn probe_reply(path: &str, ready: bool) -> (r: (&'static str, &'static str))
    ensures
        (r.0@, r.1@) == spec_probe_reply(path@, ready),
{
    if str_eq(path, "/healthz") {
        ("200 OK", "ok")
    } else if str_eq(path, "/readyz") {
        if ready {
            ("200 OK", "ready")
        } else {
            ("503 Service Unavailable", "not ready")
        }
    } else {
        ("404 Not Found", "not found")
    }
}

/// The HTTP response text of a probe of `path`.
pub open spec fn spec_probe_response(path: Seq<char>, ready: bool) -> Seq<char> {
    let (status, body) = spec_probe_reply(path, ready);
    "HTTP/1.1 "@ + status + "\r\nContent-Length: "@ + decimal(body.len()) + "\r\nContent-Type: text/plain\r\n\r\n"@
        + body
}

/// Build the HTTP response to a probe of `path`.
pub fn probe_response(path: &str, ready: bool) -> (r: String)
    ensures
        r@ == spec_probe_response(path@, ready),
{
    let (status, body) = probe_reply(path, ready);
    let mut r = "HTTP/1.1 ".to_owned();
    r.append(status);
    r.append("\r\nContent-Length: ");
    let n = body.unicode_len();
    let len = format_decimal(n as u64);
    r.append(len.as_str());
    r.append("\r\nContent-Type: text/plain\r\n\r\n");
    r.append(body);
    r
}

} // verus!
