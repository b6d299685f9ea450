//! How a child ended, and the exit code the supervisor answers with.

use vstd::prelude::*;
use crate::platform::Platform;

verus! {

/// The signal assumed to have ended a child when the platform names none.
pub const FALLBACK_SIGNAL: i32 = 9;

/// What is added to a signal's number to make an exit code.
pub const SIGNAL_BASE: i32 = 128;

/// The exit code for a child without one where signals are not reported.
pub const FALLBACK_CODE: i32 = 127;

/// How the child ended.
#[derive(Clone, Copy, Debug, PartialEq, Eq, Structural)]
pub enum ExitOutcome {
    /// It exited by itself with this code.
    Code(i32),
    /// A signal with this number ended it.
    Signaled(i32),
    /// It ended without a code, and no signal is known.
    Unknown,
}

/// The outcome that a wait reports: the code where there is one, else the
/// signal where there is one.
pub open spec fn outcome_of(code: Option<i32>, signal: Option<i32>) -> ExitOutcome {
    match code {
        Some(c) => ExitOutcome::Code(c),
        None => match signal {
            Some(s) => ExitOutcome::Signaled(s),
            None => ExitOutcome::Unknown,
        },
    }
}

/// The exit code the supervisor owes for an outcome: the child's own code;
/// else, where signals are reported, 128 plus the signal's number, with 9
/// standing for an unknown signal; else 127.
pub open spec fn translated(platform: Platform, outcome: ExitOutcome) -> int {
    match outcome {
        ExitOutcome::Code(c) => c as int,
        ExitOutcome::Signaled(s) => if platform.spec_reports_signals() {
            SIGNAL_BASE + s
        } else {
            FALLBACK_CODE as int
        },
        ExitOutcome::Unknown => if platform.spec_reports_signals() {
            SIGNAL_BASE + FALLBACK_SIGNAL
        } else {
            FALLBACK_CODE as int
        },
    }
}

impl ExitOutcome {
    /// Whether the exit code for this outcome fits the machine's integer.
    pub open spec fn representable(self) -> bool {
        self matches ExitOutcome::Signaled(s) ==> SIGNAL_BASE + s <= i32::MAX
    }

    /// Reads the outcome off what a wait reports.
    pub fn from_status(code: Option<i32>, signal: Option<i32>) -> (r: ExitOutcome)
        ensures
            r == outcome_of(code, signal),
    {
        match code {
            Some(c) => ExitOutcome::Code(c),
            None => match signal {
                Some(s) => ExitOutcome::Signaled(s),
                None => ExitOutcome::Unknown,
            },
        }
    }

    /// Whether the exit code for this outcome fits the machine's integer.
    pub fn is_representable(self) -> (r: bool)
        ensures
            r == self.representable(),
    {
        match self {
            ExitOutcome::Signaled(s) => s <= i32::MAX - SIGNAL_BASE,
            _ => true,
        }
    }

    /// The exit code the supervisor owes for this outcome.
    pub fn exit_code(self, platform: Platform) -> (r: i32)
        requires
            self.representable(),
        ensures
            r == translated(platform, self),
            self matches ExitOutcome::Code(c) ==> r == c,
            platform.spec_reports_signals() ==> (self matches ExitOutcome::Signaled(s) ==> r == 128 + s),
    {
        match self {
            ExitOutcome::Code(c) => c,
            ExitOutcome::Signaled(s) => if platform.reports_signals() {
                SIGNAL_BASE + s
            } else {
                FALLBACK_CODE
            },
            ExitOutcome::Unknown => if platform.reports_signals() {
                SIGNAL_BASE + FALLBACK_SIGNAL
            } else {
                FALLBACK_CODE
            },
        }
    }
}

} // verus!
