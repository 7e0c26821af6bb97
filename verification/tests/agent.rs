use drriga_agent::agent::{
    load_driver_hmac_key, load_server_public_key, send_to_server, IntegrityAction,
    IntegrityMonitor, MAX_INTEGRITY_FAILURES,
};

#[test]
fn shutdown_after_three_consecutive_violations() {
    let mut m = IntegrityMonitor::new();
    assert_eq!(m.record(Some(false)), IntegrityAction::Violation { consecutive: 1, shutdown: false });
    assert_eq!(m.record(Some(false)), IntegrityAction::Violation { consecutive: 2, shutdown: false });
    assert_eq!(m.record(Some(false)), IntegrityAction::Violation { consecutive: 3, shutdown: true });
    assert_eq!(MAX_INTEGRITY_FAILURES, 3);
}

#[test]
fn intact_report_resets_the_run() {
    let mut m = IntegrityMonitor::new();
    m.record(Some(false));
    m.record(Some(false));
    assert_eq!(m.record(Some(true)), IntegrityAction::Healthy);
    assert_eq!(m.record(Some(false)), IntegrityAction::Violation { consecutive: 1, shutdown: false });
}

#[test]
fn failed_queries_neither_reset_nor_count() {
    let mut m = IntegrityMonitor::new();
    m.record(Some(false));
    assert_eq!(m.record(None), IntegrityAction::QueryFailed);
    m.record(Some(false));
    assert_eq!(m.record(None), IntegrityAction::QueryFailed);
    assert_eq!(m.record(Some(false)), IntegrityAction::Violation { consecutive: 3, shutdown: true });
}

#[test]
fn unprovisioned_keys_are_zero() {
    assert_eq!(load_server_public_key(), [0u8; 32]);
    assert_eq!(load_driver_hmac_key(), [0u8; 32]);
}

#[test]
fn reports_are_taken_as_sent() {
    assert!(send_to_server(&[1, 2, 3]).is_ok());
}
