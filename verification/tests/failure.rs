use nicer::failure::{Failure, FAILURE_STATUS};

#[test]
fn context_of_each_failure() {
    assert_eq!(
        Failure::Priority { os_error: Some(13) }.context(),
        "Setting background process priority"
    );
    assert_eq!(Failure::Priority { os_error: None }.context(), "Setting background process priority");
    assert_eq!(Failure::Spawn.context(), "Unable to spawn program");
    assert_eq!(Failure::Handler.context(), "Unable to set the signal handler");
    assert_eq!(Failure::Delivery.context(), "Unable to kill the program");
    assert_eq!(Failure::Wait.context(), "Unable to wait for the program");
}

#[test]
fn failures_exit_non_zero() {
    assert_eq!(FAILURE_STATUS, 1);
    for failure in [
        Failure::Priority { os_error: Some(1) },
        Failure::Spawn,
        Failure::Handler,
        Failure::Delivery,
        Failure::Wait,
    ] {
        assert_eq!(failure.exit_code(), 1);
        assert_ne!(failure.exit_code(), 0);
    }
}
