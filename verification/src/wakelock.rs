//! Keeping the host awake while the child runs.

use vstd::prelude::*;
use vstd::string::StringExecFns;
use crate::platform::Platform;
use crate::text::{append_decimal, decimal, lemma_occurs_between, occurs_in};

verus! {

/// What the description of an assertion says of the child: the program's
/// name between quotes, then its process id in decimal.
pub open spec fn description(program: Seq<char>, pid: u32) -> Seq<char> {
    "Hi from Rust! We're keeping your Mac awake on behalf of \""@ + program + "\" (pid "@
        + decimal(pid as nat) + ")"@
}

/// What has to be done to keep the host awake.
#[derive(Debug, PartialEq, Eq)]
pub enum WakelockRequest {
    /// Create a power assertion of macOS with these details.
    Assertion { details: String },
    /// Tell Windows that the system is required, until told otherwise.
    ExecutionState,
    /// Tell the user that this platform cannot be kept awake.
    Notice,
}

/// A request without the machine's strings.
pub enum WakelockModel {
    /// A power assertion with these details.
    Assertion { details: Seq<char> },
    /// The execution state of Windows.
    ExecutionState,
    /// A notice to the user.
    Notice,
}

/// The request a platform serves for a child: an assertion that names the
/// program and its process id where the platform has assertions, its own
/// call where it has another, and a notice where it has none.
pub open spec fn request_for(platform: Platform, program: Seq<char>, pid: u32) -> WakelockModel {
    match platform {
        Platform::MacOs => WakelockModel::Assertion { details: description(program, pid) },
        Platform::Windows => WakelockModel::ExecutionState,
        Platform::Linux => WakelockModel::Notice,
    }
}

impl WakelockModel {
    /// Whether serving the request calls into the platform's power management.
    pub open spec fn prevents_sleep(self) -> bool {
        !(self is Notice)
    }
}

impl View for WakelockRequest {
    type V = WakelockModel;

    open spec fn view(&self) -> WakelockModel {
        match self {
            WakelockRequest::Assertion { details } => WakelockModel::Assertion {
                details: details@,
            },
            WakelockRequest::ExecutionState => WakelockModel::ExecutionState,
            WakelockRequest::Notice => WakelockModel::Notice,
        }
    }
}

/// The kind of assertion that is created: one that keeps an idle system
/// from sleeping.
pub fn assertion_type() -> (s: &'static str)
    ensures
        s@ == "PreventUserIdleSystemSleep"@,
{
    "PreventUserIdleSystemSleep"
}

/// The name under which assertions are created.
pub fn assertion_name() -> (s: &'static str)
    ensures
        s@ == "nicer"@,
{
    "nicer"
}

/// What the user is told where the host cannot be kept awake.
pub fn unsupported_notice() -> (s: &'static str)
    ensures
        s@ == "Linux has no caffeine, sadly."@,
{
    "Linux has no caffeine, sadly."
}

/// The description of the assertion held for a child.
pub fn wakelock_description(program: &str, pid: u32) -> (details: String)
    ensures
        details@ == description(program@, pid),
        occurs_in(program@, details@),
        occurs_in(decimal(pid as nat), details@),
{
    let mut details = String::from_str(
        "Hi from Rust! We're keeping your Mac awake on behalf of \"",
    );
    details.append(program);
    details.append("\" (pid ");
    append_decimal(&mut details, pid);
    details.append(")");
    proof {
        lemma_description_names_child(program@, pid);
    }
    details
}

/// The description of an assertion contains the program's name and the
/// process id in decimal.
pub proof fn lemma_description_names_child(program: Seq<char>, pid: u32)
    ensures
        occurs_in(program, description(program, pid)),
        occurs_in(decimal(pid as nat), description(program, pid)),
{
    let head = "Hi from Rust! We're keeping your Mac awake on behalf of \""@;
    let mid = "\" (pid "@;
    let number = decimal(pid as nat);
    let tail = ")"@;
    lemma_occurs_between(head, program, mid + number + tail);
    assert(head + program + (mid + number + tail) =~= description(program, pid));
    lemma_occurs_between(head + program + mid, number, tail);
    assert((head + program + mid) + number + tail =~= description(program, pid));
}

/// The request that keeps the host awake for a child, as far as the
/// platform can.
pub fn wakelock_request(platform: Platform, program: &str, pid: u32) -> (request: WakelockRequest)
    ensures
        request@ == request_for(platform, program@, pid),
{
    match platform {
        Platform::MacOs => WakelockRequest::Assertion {
            details: wakelock_description(program, pid),
        },
        Platform::Windows => WakelockRequest::ExecutionState,
        Platform::Linux => WakelockRequest::Notice,
    }
}

} // verus!
