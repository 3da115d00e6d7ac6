use delayed_webhook::outcome::{failures, Attempt, Outcome};

fn status(url: &str, code: u16) -> Attempt {
    Attempt { url: url.to_string(), outcome: Outcome::Status(code) }
}

fn broken(url: &str, text: &str) -> Attempt {
    Attempt { url: url.to_string(), outcome: Outcome::TransportError(text.to_string()) }
}

#[test]
fn success_is_no_failure() {
    assert!(!Outcome::Status(200).is_failure());
    assert!(!Outcome::Status(204).is_failure());
    assert!(!Outcome::Status(301).is_failure());
    assert!(!Outcome::Status(100).is_failure());
}

#[test]
fn client_and_server_errors_are_failures() {
    assert!(Outcome::Status(400).is_failure());
    assert!(Outcome::Status(404).is_failure());
    assert!(Outcome::Status(499).is_failure());
    assert!(Outcome::Status(500).is_failure());
    assert!(Outcome::Status(503).is_failure());
    assert!(Outcome::Status(599).is_failure());
}

#[test]
fn error_range_ends_are_exact() {
    assert!(!Outcome::Status(399).is_failure());
    assert!(Outcome::Status(400).is_failure());
    assert!(Outcome::Status(599).is_failure());
    assert!(!Outcome::Status(600).is_failure());
    assert!(!Outcome::Status(0).is_failure());
    assert!(!Outcome::Status(u16::MAX).is_failure());
}

#[test]
fn transport_error_is_a_failure() {
    assert!(Outcome::TransportError(String::from("connection refused")).is_failure());
    assert!(Outcome::TransportError(String::new()).is_failure());
}

#[test]
fn failures_keep_the_failed_attempts_in_order() {
    let attempts = vec![
        status("http://a/1", 200),
        status("http://a/2", 404),
        broken("http://a/3", "connection refused"),
        status("http://a/4", 302),
        status("http://a/5", 500),
        status("http://a/6", 201),
    ];
    assert_eq!(
        failures(&attempts),
        vec![
            status("http://a/2", 404),
            broken("http://a/3", "connection refused"),
            status("http://a/5", 500),
        ]
    );
    // the attempts are left as they were
    assert_eq!(attempts.len(), 6);
}

#[test]
fn all_successes_give_no_entry() {
    let attempts = vec![status("http://a/1", 200), status("http://a/2", 202)];
    assert_eq!(failures(&attempts), vec![]);
    assert_eq!(failures(&Vec::new()), vec![]);
}

#[test]
fn every_failure_gives_its_own_entry() {
    let attempts = vec![status("http://a", 500), status("http://a", 500), broken("http://a", "x")];
    assert_eq!(failures(&attempts), attempts);
}
