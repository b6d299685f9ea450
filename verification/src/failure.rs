//! The failures that end a run before the child's own end does.

use vstd::prelude::*;

verus! {

/// The exit code of a run that failed.
pub const FAILURE_STATUS: i32 = 1;

/// The step of a run that failed.
#[derive(Clone, Copy, Debug, PartialEq, Eq)]
pub enum Failure {
    /// The priority could not be lowered; the system's error, if it gave one.
    Priority { os_error: Option<i32> },
    /// The program could not be spawned.
    Spawn,
    /// The interrupt handler could not be installed.
    Handler,
    /// The interrupt could not be delivered to the child.
    Delivery,
    /// The child could not be waited for.
    Wait,
}

/// What the user is told of a failure.
pub open spec fn context_of(failure: Failure) -> Seq<char> {
    match failure {
        Failure::Priority { .. } => "Setting background process priority"@,
        Failure::Spawn => "Unable to spawn program"@,
        Failure::Handler => "Unable to set the signal handler"@,
        Failure::Delivery => "Unable to kill the program"@,
        Failure::Wait => "Unable to wait for the program"@,
    }
}

impl Failure {
    /// What the user is told of this failure.
    pub fn context(&self) -> (s: &'static str)
        ensures
            s@ == context_of(*self),
    {
        match self {
            Failure::Priority { .. } => "Setting background process priority",
            Failure::Spawn => "Unable to spawn program",
            Failure::Handler => "Unable to set the signal handler",
            Failure::Delivery => "Unable to kill the program",
            Failure::Wait => "Unable to wait for the program",
        }
    }

    /// The exit code of a run that ends with this failure: never zero.
    pub fn exit_code(&self) -> (code: i32)
        ensures
            code == FAILURE_STATUS,
            code != 0,
    {
        FAILURE_STATUS
    }
}

} // verus!
