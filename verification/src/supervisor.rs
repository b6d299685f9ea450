//! The supervisor's decisions: from where a run stands and what has just
//! happened to where it stands next and what has to be done.

use vstd::prelude::*;
use crate::failure::Failure;
use crate::outcome::{translated, ExitOutcome};
use crate::platform::Platform;
use crate::priority::{accepted, adjustment_accepted, first_step, plan, step_after, PriorityStep};
use crate::wakelock::{request_for, wakelock_request, WakelockModel, WakelockRequest};

verus! {

/// What a run was asked to do. It is made once and never changed.
#[derive(Clone, Debug, PartialEq, Eq)]
pub struct Invocation {
    /// The name of the program, or a path to it.
    pub program: String,
    /// The arguments handed to the program, in order.
    pub args: Vec<String>,
    /// Whether the host is to be kept awake while the program runs.
    pub caffeinate: bool,
}

/// An invocation without the machine's strings.
pub struct InvocationModel {
    pub program: Seq<char>,
    pub args: Seq<Seq<char>>,
    pub caffeinate: bool,
}

impl View for Invocation {
    type V = InvocationModel;

    open spec fn view(&self) -> InvocationModel {
        InvocationModel {
            program: self.program@,
            args: Seq::new(self.args@.len(), |i: int| self.args@[i]@),
            caffeinate: self.caffeinate,
        }
    }
}

/// Where a run stands.
#[derive(Clone, Copy, Debug, PartialEq, Eq)]
pub enum Phase {
    /// The priority is being lowered; `done` calls of the plan succeeded and
    /// the next one is under way.
    Adjusting { done: usize },
    /// The program is being spawned.
    Spawning,
    /// The child runs and the host is being told to stay awake.
    Caffeinating { pid: u32 },
    /// The child runs and the interrupt handler is being installed.
    Installing { pid: u32 },
    /// The child runs and is waited for.
    Waiting { pid: u32 },
    /// The child has ended; the run ends with this code.
    Exited { code: i32 },
    /// The run has failed.
    Failed { failure: Failure },
}

impl Phase {
    /// The process id of the child, from its spawning to its end.
    pub open spec fn child(self) -> Option<u32> {
        match self {
            Phase::Caffeinating { pid } => Some(pid),
            Phase::Installing { pid } => Some(pid),
            Phase::Waiting { pid } => Some(pid),
            _ => None,
        }
    }

    /// Whether the run is over.
    pub open spec fn is_over(self) -> bool {
        self is Exited || self is Failed
    }

    /// Whether no child has been spawned yet, and none has failed to be.
    pub open spec fn before_spawn(self) -> bool {
        self is Adjusting || self is Spawning
    }
}

/// What has just happened.
#[derive(Clone, Copy, Debug, PartialEq, Eq)]
pub enum Event {
    /// A call that lowers the priority returned `status`; `os_error` is the
    /// error the system then held.
    Adjusted { status: i64, os_error: Option<i32> },
    /// The program was spawned as the process `pid`.
    Spawned { pid: u32 },
    /// The program could not be spawned.
    SpawnFailed,
    /// The request to keep the host awake was served.
    WakelockDone,
    /// The interrupt handler was installed.
    HandlerInstalled,
    /// The interrupt handler could not be installed.
    HandlerFailed,
    /// The user interrupted the supervisor.
    Interrupted,
    /// The interrupt could not be delivered to the child.
    DeliveryFailed,
    /// The child ended.
    ChildExited { outcome: ExitOutcome },
    /// The wait for the child failed.
    WaitFailed,
}

impl Event {
    /// Whether the exit code that the event asks for fits the machine's integer.
    pub open spec fn representable(self) -> bool {
        self matches Event::ChildExited { outcome } ==> outcome.representable()
    }

    /// Whether the exit code that the event asks for fits the machine's integer.
    pub fn is_representable(&self) -> (r: bool)
        ensures
            r == self.representable(),
    {
        match self {
            Event::ChildExited { outcome } => outcome.is_representable(),
            _ => true,
        }
    }
}

/// What has to be done next.
#[derive(Debug, PartialEq, Eq)]
pub enum Action {
    /// Make this call to lower the priority, and report its result.
    Adjust { step: PriorityStep },
    /// Spawn the program with its arguments, and report the child.
    Spawn,
    /// Serve this request to keep the host awake, and report when done.
    AcquireWakelock { request: WakelockRequest },
    /// Install the interrupt handler, and report whether it stands.
    InstallHandler,
    /// Wait for the child, and report how it ended.
    Wait,
    /// Send an interrupt to the process `pid`.
    Forward { pid: u32 },
    /// End the run with this exit code.
    Exit { code: i32 },
    /// Tell the user of the failure and end the run with a code other than zero.
    Abort { failure: Failure },
    /// Nothing: the event has no meaning where the run stands.
    Ignore,
}

/// An action without the machine's strings.
pub enum ActionModel {
    Adjust { step: PriorityStep },
    Spawn,
    AcquireWakelock { request: WakelockModel },
    InstallHandler,
    Wait,
    Forward { pid: u32 },
    Exit { code: i32 },
    Abort { failure: Failure },
    Ignore,
}

impl View for Action {
    type V = ActionModel;

    open spec fn view(&self) -> ActionModel {
        match self {
            Action::Adjust { step } => ActionModel::Adjust { step: *step },
            Action::Spawn => ActionModel::Spawn,
            Action::AcquireWakelock { request } => ActionModel::AcquireWakelock {
                request: request@,
            },
            Action::InstallHandler => ActionModel::InstallHandler,
            Action::Wait => ActionModel::Wait,
            Action::Forward { pid } => ActionModel::Forward { pid: *pid },
            Action::Exit { code } => ActionModel::Exit { code: *code },
            Action::Abort { failure } => ActionModel::Abort { failure: *failure },
            Action::Ignore => ActionModel::Ignore,
        }
    }
}

/// A supervisor without the machine's strings: the platform it runs on,
/// what it was asked to do, and where the run stands.
pub struct SupervisorModel {
    pub platform: Platform,
    pub invocation: InvocationModel,
    pub phase: Phase,
}

impl SupervisorModel {
    /// The same supervisor in another phase.
    pub open spec fn at(self, phase: Phase) -> SupervisorModel {
        SupervisorModel { phase, ..self }
    }

    /// The run fails: it is over, and the user is told.
    pub open spec fn fail(self, failure: Failure) -> (SupervisorModel, ActionModel) {
        (self.at(Phase::Failed { failure }), ActionModel::Abort { failure })
    }

    /// The event has no meaning here: nothing changes, nothing is done.
    pub open spec fn ignore(self) -> (SupervisorModel, ActionModel) {
        (self, ActionModel::Ignore)
    }

    /// What follows once the host has been told to stay awake, or was not
    /// to be told: the handler is installed where interrupts can be
    /// forwarded, else the child is waited for.
    pub open spec fn guard(self, pid: u32) -> (SupervisorModel, ActionModel) {
        if self.platform.spec_forwards_interrupts() {
            (self.at(Phase::Installing { pid }), ActionModel::InstallHandler)
        } else {
            (self.at(Phase::Waiting { pid }), ActionModel::Wait)
        }
    }

    /// What follows the spawning of the child: the host is told to stay
    /// awake if the invocation asks for it.
    pub open spec fn welcome(self, pid: u32) -> (SupervisorModel, ActionModel) {
        if self.invocation.caffeinate {
            (
                self.at(Phase::Caffeinating { pid }),
                ActionModel::AcquireWakelock {
                    request: request_for(self.platform, self.invocation.program, pid),
                },
            )
        } else {
            self.guard(pid)
        }
    }

    /// What follows a call that lowered the priority: the next call of the
    /// plan, or the spawning after the last.
    pub open spec fn lower_further(self, done: usize) -> (SupervisorModel, ActionModel) {
        if done + 1 < plan(self.platform).len() {
            (
                self.at(Phase::Adjusting { done: (done + 1) as usize }),
                ActionModel::Adjust { step: plan(self.platform)[done + 1] },
            )
        } else {
            (self.at(Phase::Spawning), ActionModel::Spawn)
        }
    }

    /// An interrupt of the supervisor is sent on to the child where the
    /// platform forwards interrupts; the run stays where it stands.
    pub open spec fn relay(self, pid: u32) -> (SupervisorModel, ActionModel) {
        if self.platform.spec_forwards_interrupts() {
            (self, ActionModel::Forward { pid })
        } else {
            self.ignore()
        }
    }

    /// The run ends with the child: the exit code is the one owed for its
    /// outcome.
    pub open spec fn conclude(self, outcome: ExitOutcome) -> (SupervisorModel, ActionModel) {
        let code = translated(self.platform, outcome) as i32;
        (self.at(Phase::Exited { code }), ActionModel::Exit { code })
    }
}

/// The first state of a run, in which the first call of the plan is under way.
pub open spec fn initial(platform: Platform, invocation: InvocationModel) -> SupervisorModel {
    SupervisorModel { platform, invocation, phase: Phase::Adjusting { done: 0 } }
}

/// The first action of a run: the first call of the plan.
pub open spec fn first_action(platform: Platform) -> ActionModel {
    ActionModel::Adjust { step: plan(platform)[0] }
}

/// The state that follows `s` on `event`, and what has to be done.
pub open spec fn next(s: SupervisorModel, event: Event) -> (SupervisorModel, ActionModel) {
    match (s.phase, event) {
        (Phase::Adjusting { done }, Event::Adjusted { status, os_error }) => {
            if accepted(s.platform, status, os_error) {
                s.lower_further(done)
            } else {
                s.fail(Failure::Priority { os_error })
            }
        },
        (Phase::Spawning, Event::Spawned { pid }) => s.welcome(pid),
        (Phase::Spawning, Event::SpawnFailed) => s.fail(Failure::Spawn),
        (Phase::Caffeinating { pid }, Event::WakelockDone) => s.guard(pid),
        (Phase::Installing { pid }, Event::HandlerInstalled) => (
            s.at(Phase::Waiting { pid }),
            ActionModel::Wait,
        ),
        (Phase::Installing { pid }, Event::HandlerFailed) => s.fail(Failure::Handler),
        (Phase::Installing { pid }, Event::Interrupted) => s.relay(pid),
        (Phase::Installing { pid }, Event::DeliveryFailed) => s.fail(Failure::Delivery),
        (Phase::Waiting { pid }, Event::Interrupted) => s.relay(pid),
        (Phase::Waiting { pid }, Event::DeliveryFailed) => s.fail(Failure::Delivery),
        (Phase::Waiting { pid }, Event::ChildExited { outcome }) => s.conclude(outcome),
        (Phase::Waiting { pid }, Event::WaitFailed) => s.fail(Failure::Wait),
        _ => s.ignore(),
    }
}

/// The supervisor of one run.
#[derive(Debug)]
pub struct Supervisor {
    platform: Platform,
    invocation: Invocation,
    phase: Phase,
}

impl View for Supervisor {
    type V = SupervisorModel;

    closed spec fn view(&self) -> SupervisorModel {
        SupervisorModel {
            platform: self.platform,
            invocation: self.invocation@,
            phase: self.phase,
        }
    }
}

impl Supervisor {
    /// Starts a run: the supervisor, and the first thing to do.
    pub fn new(platform: Platform, invocation: Invocation) -> (r: (Supervisor, Action))
        ensures
            r.0@ == initial(platform, invocation@),
            r.1@ == first_action(platform),
    {
        (
            Supervisor { platform, invocation, phase: Phase::Adjusting { done: 0 } },
            Action::Adjust { step: first_step(platform) },
        )
    }

    /// The platform the run is on.
    pub fn platform(&self) -> (p: Platform)
        ensures
            p == self@.platform,
    {
        self.platform
    }

    /// What the run was asked to do.
    pub fn invocation(&self) -> (inv: &Invocation)
        ensures
            inv@ == self@.invocation,
    {
        &self.invocation
    }

    /// Where the run stands.
    pub fn phase(&self) -> (p: Phase)
        ensures
            p == self@.phase,
    {
        self.phase
    }

    /// The process id of the child, while there is one.
    pub fn child(&self) -> (pid: Option<u32>)
        ensures
            pid == self@.phase.child(),
    {
        match self.phase {
            Phase::Caffeinating { pid } => Some(pid),
            Phase::Installing { pid } => Some(pid),
            Phase::Waiting { pid } => Some(pid),
            _ => None,
        }
    }

    fn fail(&mut self, failure: Failure) -> (action: Action)
        ensures
            (final(self)@, action@) == old(self)@.fail(failure),
    {
        self.phase = Phase::Failed { failure };
        Action::Abort { failure }
    }

    fn guard(&mut self, pid: u32) -> (action: Action)
        ensures
            (final(self)@, action@) == old(self)@.guard(pid),
    {
        if self.platform.forwards_interrupts() {
            self.phase = Phase::Installing { pid };
            Action::InstallHandler
        } else {
            self.phase = Phase::Waiting { pid };
            Action::Wait
        }
    }

    fn welcome(&mut self, pid: u32) -> (action: Action)
        ensures
            (final(self)@, action@) == old(self)@.welcome(pid),
    {
        if self.invocation.caffeinate {
            self.phase = Phase::Caffeinating { pid };
            Action::AcquireWakelock {
                request: wakelock_request(self.platform, self.invocation.program.as_str(), pid),
            }
        } else {
            self.guard(pid)
        }
    }

    fn lower_further(&mut self, done: usize) -> (action: Action)
        ensures
            (final(self)@, action@) == old(self)@.lower_further(done),
    {
        match step_after(self.platform, done) {
            Some(step) => {
                self.phase = Phase::Adjusting { done: done + 1 };
                Action::Adjust { step }
            },
            None => {
                self.phase = Phase::Spawning;
                Action::Spawn
            },
        }
    }

    fn relay(&self, pid: u32) -> (action: Action)
        ensures
            (self@, action@) == self@.relay(pid),
    {
        if self.platform.forwards_interrupts() {
            Action::Forward { pid }
        } else {
            Action::Ignore
        }
    }

    fn conclude(&mut self, outcome: ExitOutcome) -> (action: Action)
        requires
            outcome.representable(),
        ensures
            (final(self)@, action@) == old(self)@.conclude(outcome),
    {
        let code = outcome.exit_code(self.platform);
        self.phase = Phase::Exited { code };
        Action::Exit { code }
    }

    /// Takes in what has just happened: the run moves on, and the result
    /// says what has to be done next.
    pub fn step(&mut self, event: Event) -> (action: Action)
        requires
            event.representable(),
        ensures
            (final(self)@, action@) == next(old(self)@, event),
    {
        match (self.phase, event) {
            (Phase::Adjusting { done }, Event::Adjusted { status, os_error }) => {
                if adjustment_accepted(self.platform, status, os_error) {
                    self.lower_further(done)
                } else {
                    self.fail(Failure::Priority { os_error })
                }
            },
            (Phase::Spawning, Event::Spawned { pid }) => self.welcome(pid),
            (Phase::Spawning, Event::SpawnFailed) => self.fail(Failure::Spawn),
            (Phase::Caffeinating { pid }, Event::WakelockDone) => self.guard(pid),
            (Phase::Installing { pid }, Event::HandlerInstalled) => {
                self.phase = Phase::Waiting { pid };
                Action::Wait
            },
            (Phase::Installing { pid }, Event::HandlerFailed) => self.fail(Failure::Handler),
            (Phase::Installing { pid }, Event::Interrupted) => self.relay(pid),
            (Phase::Installing { pid }, Event::DeliveryFailed) => self.fail(Failure::Delivery),
            (Phase::Waiting { pid }, Event::Interrupted) => self.relay(pid),
            (Phase::Waiting { pid }, Event::DeliveryFailed) => self.fail(Failure::Delivery),
            (Phase::Waiting { pid }, Event::ChildExited { outcome }) => self.conclude(outcome),
            (Phase::Waiting { pid }, Event::WaitFailed) => self.fail(Failure::Wait),
            _ => Action::Ignore,
        }
    }
}

} // verus!
