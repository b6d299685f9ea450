//! The platforms the supervisor runs on, and what each of them can do.

use vstd::prelude::*;

verus! {

/// A family of operating systems with one set of capabilities.
#[derive(Clone, Copy, Debug, PartialEq, Eq, Structural)]
pub enum Platform {
    /// A Unix other than macOS.
    Linux,
    /// macOS.
    MacOs,
    /// Windows.
    Windows,
}

impl Platform {
    /// Whether the platform is a Unix.
    pub open spec fn spec_is_unix(self) -> bool {
        self != Platform::Windows
    }

    /// Whether an interrupt of the supervisor can be relayed to the child.
    pub open spec fn spec_forwards_interrupts(self) -> bool {
        self.spec_is_unix()
    }

    /// Whether the platform tells which signal ended a child.
    pub open spec fn spec_reports_signals(self) -> bool {
        self.spec_is_unix()
    }

    /// Whether the platform has a call that keeps the host awake.
    pub open spec fn spec_supports_wakelock(self) -> bool {
        self != Platform::Linux
    }

    /// Whether the platform is a Unix.
    #[verifier::when_used_as_spec(spec_is_unix)]
    pub fn is_unix(self) -> (r: bool)
        ensures
            r == self.spec_is_unix(),
    {
        match self {
            Platform::Linux | Platform::MacOs => true,
            Platform::Windows => false,
        }
    }

    /// Whether an interrupt of the supervisor can be relayed to the child.
    #[verifier::when_used_as_spec(spec_forwards_interrupts)]
    pub fn forwards_interrupts(self) -> (r: bool)
        ensures
            r == self.spec_forwards_interrupts(),
    {
        match self {
            Platform::Linux | Platform::MacOs => true,
            Platform::Windows => false,
        }
    }

    /// Whether the platform tells which signal ended a child.
    #[verifier::when_used_as_spec(spec_reports_signals)]
    pub fn reports_signals(self) -> (r: bool)
        ensures
            r == self.spec_reports_signals(),
    {
        match self {
            Platform::Linux | Platform::MacOs => true,
            Platform::Windows => false,
        }
    }

    /// Whether the platform has a call that keeps the host awake.
    #[verifier::when_used_as_spec(spec_supports_wakelock)]
    pub fn supports_wakelock(self) -> (r: bool)
        ensures
            r == self.spec_supports_wakelock(),
    {
        match self {
            Platform::MacOs | Platform::Windows => true,
            Platform::Linux => false,
        }
    }
}

} // verus!
