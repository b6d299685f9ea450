use nicer::platform::Platform;

#[test]
fn unix_platforms() {
    assert!(Platform::Linux.is_unix());
    assert!(Platform::MacOs.is_unix());
    assert!(!Platform::Windows.is_unix());
}

#[test]
fn interrupts_are_forwarded_on_unix_only() {
    assert!(Platform::Linux.forwards_interrupts());
    assert!(Platform::MacOs.forwards_interrupts());
    assert!(!Platform::Windows.forwards_interrupts());
}

#[test]
fn signals_are_reported_on_unix_only() {
    assert!(Platform::Linux.reports_signals());
    assert!(Platform::MacOs.reports_signals());
    assert!(!Platform::Windows.reports_signals());
}

#[test]
fn wakelock_support() {
    assert!(!Platform::Linux.supports_wakelock());
    assert!(Platform::MacOs.supports_wakelock());
    assert!(Platform::Windows.supports_wakelock());
}
