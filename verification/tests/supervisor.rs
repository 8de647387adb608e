use flickerled::secure_string::SecureString;
use flickerled::status::WifiStatus;
use flickerled::supervisor::{AuthMethod, LinkPhase, Supervisor, WifiNetwork, BACKOFF_MILLIS};

fn network(ssid: &str) -> WifiNetwork {
    WifiNetwork {
        ssid: ssid.to_string(),
        auth_method: AuthMethod::Wpa2Personal,
        password: SecureString::new(String::from("SECRET-REDACTED")),
    }
}

#[test]
fn attempts_cycle_through_every_candidate() {
    // With three candidates and nothing but failures, seven attempts target
    // 0, 1, 2, 0, 1, 2, 0: every candidate is retried, none is skipped.
    let mut sup = Supervisor::new(vec![network("a"), network("b"), network("c")]);
    let mut status = WifiStatus::new();
    let mut attempted = Vec::new();
    for _ in 0..7 {
        let i = sup.begin_attempt();
        attempted.push(i);
        let backoff = sup.on_connect_result(false, &mut status);
        assert_eq!(backoff, BACKOFF_MILLIS);
    }
    assert_eq!(attempted, vec![0, 1, 2, 0, 1, 2, 0]);
    assert!(!status.is_connected());
}

#[test]
fn failure_then_success_raises_signal_once() {
    // Candidate "a" fails, the supervisor backs off, then candidate "b"
    // succeeds: the signal reads false, false, then true, in that order.
    let mut sup = Supervisor::new(vec![network("a"), network("b")]);
    let mut status = WifiStatus::new();
    assert!(!status.is_connected());

    let first = sup.begin_attempt();
    assert_eq!(first, 0);
    assert_eq!(sup.candidate(first).ssid, "a");
    let backoff = sup.on_connect_result(false, &mut status);
    assert_eq!(backoff, BACKOFF_MILLIS);
    assert!(!status.is_connected());

    let second = sup.begin_attempt();
    assert_eq!(second, 1);
    assert_eq!(sup.candidate(second).ssid, "b");
    let backoff = sup.on_connect_result(true, &mut status);
    assert_eq!(backoff, 0);
    assert!(status.is_connected());
}

#[test]
fn link_loss_lowers_signal_and_moves_on() {
    let mut sup = Supervisor::new(vec![network("a"), network("b")]);
    let mut status = WifiStatus::new();

    let i = sup.begin_attempt();
    assert_eq!(i, 0);
    sup.on_connect_result(true, &mut status);
    assert!(status.is_connected());

    sup.on_link_lost(&mut status);
    assert!(!status.is_connected());

    // The next attempt targets the next candidate, not the one that fell.
    let i = sup.begin_attempt();
    assert_eq!(i, 1);
}

#[test]
fn single_candidate_is_retried_forever() {
    let mut sup = Supervisor::new(vec![network("only")]);
    let mut status = WifiStatus::new();
    for _ in 0..4 {
        let i = sup.begin_attempt();
        assert_eq!(i, 0);
        sup.on_connect_result(false, &mut status);
    }
}
