use flickerled::status::WifiStatus;

#[test]
fn fresh_signal_reads_false() {
    let status = WifiStatus::new();
    assert!(!status.is_connected());
}

#[test]
fn set_true_is_observed() {
    let mut status = WifiStatus::new();
    status.set_connected(true);
    assert!(status.is_connected());
}

#[test]
fn reset_then_set_lets_a_new_wait_return() {
    // A wait that starts after set(false) directly followed by set(true)
    // observes true on its very first poll, so it returns at once.
    let mut status = WifiStatus::new();
    status.set_connected(true);
    status.set_connected(false);
    status.set_connected(true);
    assert!(status.is_connected());
}

#[test]
fn last_write_wins() {
    let mut status = WifiStatus::new();
    status.set_connected(true);
    status.set_connected(false);
    assert!(!status.is_connected());
}
