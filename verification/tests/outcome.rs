use nicer::outcome::{ExitOutcome, FALLBACK_CODE, FALLBACK_SIGNAL, SIGNAL_BASE};
use nicer::platform::Platform;

#[test]
fn normal_exit_code_is_propagated() {
    for platform in [Platform::Linux, Platform::MacOs, Platform::Windows] {
        for code in 0..=255 {
            let outcome = ExitOutcome::from_status(Some(code), None);
            assert_eq!(outcome, ExitOutcome::Code(code));
            assert!(outcome.is_representable());
            assert_eq!(outcome.exit_code(platform), code);
        }
    }
}

#[test]
fn exit_code_outside_a_byte_is_kept() {
    assert_eq!(ExitOutcome::Code(-1).exit_code(Platform::Linux), -1);
    assert_eq!(ExitOutcome::Code(1000).exit_code(Platform::Windows), 1000);
    assert_eq!(ExitOutcome::Code(i32::MAX).exit_code(Platform::MacOs), i32::MAX);
    assert_eq!(ExitOutcome::Code(i32::MIN).exit_code(Platform::MacOs), i32::MIN);
}

#[test]
fn signal_gives_128_plus_its_number() {
    let terminated = ExitOutcome::from_status(None, Some(15));
    assert_eq!(terminated, ExitOutcome::Signaled(15));
    assert_eq!(terminated.exit_code(Platform::Linux), 143);
    let interrupted = ExitOutcome::from_status(None, Some(2));
    assert_eq!(interrupted.exit_code(Platform::MacOs), 130);
    for signal in 1..=64 {
        assert_eq!(ExitOutcome::Signaled(signal).exit_code(Platform::Linux), 128 + signal);
    }
}

#[test]
fn unknown_signal_counts_as_kill() {
    let outcome = ExitOutcome::from_status(None, None);
    assert_eq!(outcome, ExitOutcome::Unknown);
    assert_eq!(outcome.exit_code(Platform::Linux), 137);
    assert_eq!(outcome.exit_code(Platform::MacOs), 137);
    assert_eq!(
        outcome.exit_code(Platform::Linux),
        ExitOutcome::Signaled(9).exit_code(Platform::Linux)
    );
}

#[test]
fn platform_without_signals_falls_back() {
    assert_eq!(ExitOutcome::Unknown.exit_code(Platform::Windows), 127);
    assert_eq!(ExitOutcome::Signaled(15).exit_code(Platform::Windows), 127);
    assert_eq!(ExitOutcome::Code(0).exit_code(Platform::Windows), 0);
}

#[test]
fn code_wins_over_signal() {
    assert_eq!(ExitOutcome::from_status(Some(3), Some(9)), ExitOutcome::Code(3));
    assert_eq!(ExitOutcome::from_status(Some(0), Some(15)).exit_code(Platform::Linux), 0);
}

#[test]
fn largest_representable_signal() {
    let edge = ExitOutcome::Signaled(i32::MAX - 128);
    assert!(edge.is_representable());
    assert_eq!(edge.exit_code(Platform::Linux), i32::MAX);
    assert!(!ExitOutcome::Signaled(i32::MAX - 127).is_representable());
    assert!(!ExitOutcome::Signaled(i32::MAX).is_representable());
    assert!(ExitOutcome::Signaled(i32::MIN).is_representable());
    assert!(ExitOutcome::Unknown.is_representable());
    assert!(ExitOutcome::Code(i32::MAX).is_representable());
}

#[test]
fn negative_signal_is_added_as_it_is() {
    assert_eq!(ExitOutcome::Signaled(-5).exit_code(Platform::Linux), 123);
}

#[test]
fn outcome_constants() {
    assert_eq!(SIGNAL_BASE, 128);
    assert_eq!(FALLBACK_SIGNAL, 9);
    assert_eq!(FALLBACK_CODE, 127);
}

#[test]
fn exit_code_is_the_same_each_time() {
    for platform in [Platform::Linux, Platform::MacOs, Platform::Windows] {
        for outcome in [ExitOutcome::Code(7), ExitOutcome::Signaled(11), ExitOutcome::Unknown] {
            assert_eq!(outcome.exit_code(platform), outcome.exit_code(platform));
        }
    }
}
