use multitool::controller::health::{probe_reply, probe_response, HealthState};
use multitool::text::second_word_of_first_line;

#[test]
fn health_state_defaults_not_ready() {
    let state = HealthState::new();
    assert!(!state.is_ready());
}

#[test]
fn health_state_set_ready() {
    let state = HealthState::new();
    state.set_ready();
    assert!(state.is_ready());
}

#[test]
fn health_state_default_is_not_ready() {
    let state = HealthState::default();
    assert!(!state.is_ready());
    state.set_ready();
    state.set_ready();
    assert!(state.is_ready());
}

#[test]
fn probe_replies() {
    assert_eq!(probe_reply("/healthz", false), ("200 OK", "ok"));
    assert_eq!(probe_reply("/readyz", false), ("503 Service Unavailable", "not ready"));
    assert_eq!(probe_reply("/readyz", true), ("200 OK", "ready"));
    assert_eq!(probe_reply("/other", true), ("404 Not Found", "not found"));
}

#[test]
fn probe_responses_are_exact() {
    assert_eq!(
        probe_response("/healthz", false),
        "HTTP/1.1 200 OK\r\nContent-Length: 2\r\nContent-Type: text/plain\r\n\r\nok"
    );
    assert_eq!(
        probe_response("/readyz", false),
        "HTTP/1.1 503 Service Unavailable\r\nContent-Length: 9\r\nContent-Type: text/plain\r\n\r\nnot ready"
    );
}

#[test]
fn probe_path_is_second_word_of_request_line() {
    assert_eq!(second_word_of_first_line("GET /healthz HTTP/1.1\r\n\r\n"), "/healthz");
    assert_eq!(second_word_of_first_line("  GET\t/readyz  HTTP/1.1"), "/readyz");
    assert_eq!(second_word_of_first_line("GET\n/readyz"), "");
    assert_eq!(second_word_of_first_line(""), "");
    assert_eq!(second_word_of_first_line("GET"), "");
    assert_eq!(second_word_of_first_line("GET\u{3000}/x y"), "/x");
}
