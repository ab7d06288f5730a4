use sovereign_agent::agent::Agent;
use sovereign_agent::notify::NotifyError;
use sovereign_agent::notify::SendOutcome;
use sovereign_agent::notify::TransportError;
use sovereign_agent::notify::classify_outcome;

#[test]
fn success_response_yields_its_body() {
    let outcome = SendOutcome::Response { status: 200, body: "ok".to_string() };
    assert_eq!(Agent::notify_response(outcome), Ok("ok".to_string()));
}

#[test]
fn timeout_yields_notify_error_wrapping_timeout() {
    let r = Agent::notify_response(SendOutcome::TimedOut);
    assert_eq!(r, Err(NotifyError { cause: TransportError::Timeout }));
}

#[test]
fn status_500_yields_status_error_with_code() {
    let outcome = SendOutcome::Response { status: 500, body: "server error".to_string() };
    assert_eq!(classify_outcome(outcome), Err(TransportError::Status(500)));
}

#[test]
fn connect_failure_yields_connect_error() {
    assert_eq!(classify_outcome(SendOutcome::ConnectFailed), Err(TransportError::Connect));
    let r = Agent::notify_response(SendOutcome::ConnectFailed);
    assert_eq!(r, Err(NotifyError { cause: TransportError::Connect }));
}

#[test]
fn body_read_failure_yields_decode_error() {
    assert_eq!(classify_outcome(SendOutcome::DecodeFailed), Err(TransportError::Decode));
}

#[test]
fn whole_2xx_range_counts_as_success() {
    let r204 = classify_outcome(SendOutcome::Response { status: 204, body: String::new() });
    assert_eq!(r204, Ok(String::new()));
    let r299 = classify_outcome(SendOutcome::Response { status: 299, body: "b".to_string() });
    assert_eq!(r299, Ok("b".to_string()));
}

#[test]
fn statuses_bordering_2xx_are_errors() {
    let r199 = classify_outcome(SendOutcome::Response { status: 199, body: "x".to_string() });
    assert_eq!(r199, Err(TransportError::Status(199)));
    let r300 = classify_outcome(SendOutcome::Response { status: 300, body: "x".to_string() });
    assert_eq!(r300, Err(TransportError::Status(300)));
}

#[test]
fn notify_failure_does_not_lose_stored_data() {
    let mut agent = Agent::new();
    agent.store_data("k".to_string(), "v".to_string());
    let r = Agent::notify_response(SendOutcome::TimedOut);
    assert!(r.is_err());
    assert_eq!(agent.retrieve_data("k"), Some("v".to_string()));
}
