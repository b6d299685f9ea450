//! What holds of every run of the supervisor, whatever happens to it.

use vstd::prelude::*;
use crate::failure::{Failure, FAILURE_STATUS};
use crate::outcome::{translated, ExitOutcome};
use crate::platform::Platform;
use crate::priority::{accepted, plan};
use crate::supervisor::{initial, next, ActionModel, Event, InvocationModel, Phase, SupervisorModel};
use crate::text::{decimal, occurs_in};
use crate::wakelock::{lemma_description_names_child, WakelockModel};

verus! {

/// Where a supervisor stands after a sequence of events.
pub open spec fn run(s: SupervisorModel, events: Seq<Event>) -> SupervisorModel
    decreases events.len(),
{
    if events.len() == 0 {
        s
    } else {
        next(run(s, events.drop_last()), events.last()).0
    }
}

/// What a supervisor asks for on each event of a sequence.
pub open spec fn actions(s: SupervisorModel, events: Seq<Event>) -> Seq<ActionModel> {
    Seq::new(events.len(), |i: int| next(run(s, events.take(i)), events[i]).1)
}

/// Whether an action touches the child or the host's sleep: whether it
/// acquires a wakelock, installs the handler, waits or forwards.
pub open spec fn concerns_child(action: ActionModel) -> bool {
    action is AcquireWakelock || action is InstallHandler || action is Wait || action is Forward
}

/// The platform and the invocation of a run never change.
pub proof fn law_invocation_immutable(s: SupervisorModel, events: Seq<Event>)
    ensures
        run(s, events).platform == s.platform,
        run(s, events).invocation == s.invocation,
    decreases events.len(),
{
    if events.len() > 0 {
        law_invocation_immutable(s, events.drop_last());
    }
}

/// A child that exits by itself with a code gives the run that code.
pub proof fn law_exit_code_is_the_childs(s: SupervisorModel, code: i32)
    requires
        s.phase is Waiting,
    ensures
        next(s, Event::ChildExited { outcome: ExitOutcome::Code(code) }).1 == (ActionModel::Exit {
            code,
        }),
        next(s, Event::ChildExited { outcome: ExitOutcome::Code(code) }).0.phase == (Phase::Exited {
            code,
        }),
        translated(s.platform, ExitOutcome::Code(code)) == code,
{
}

/// Where signals are reported, a child that a signal ended gives the run
/// the code 128 plus the signal's number.
pub proof fn law_signal_exit_code(s: SupervisorModel, signal: i32)
    requires
        s.phase is Waiting,
        s.platform.spec_reports_signals(),
        128 + signal <= i32::MAX,
    ensures
        next(s, Event::ChildExited { outcome: ExitOutcome::Signaled(signal) }).1 == (
        ActionModel::Exit { code: (128 + signal) as i32 }),
        translated(s.platform, ExitOutcome::Signaled(signal)) == 128 + signal,
        translated(s.platform, ExitOutcome::Unknown) == 128 + 9,
{
}

/// Where signals are not reported, a child without a code gives the run
/// the code 127.
pub proof fn law_fallback_exit_code(s: SupervisorModel, outcome: ExitOutcome)
    requires
        s.phase is Waiting,
        !s.platform.spec_reports_signals(),
        !(outcome is Code),
    ensures
        next(s, Event::ChildExited { outcome }).1 == (ActionModel::Exit { code: 127 }),
{
}

/// A run that is over stays as it is and asks for nothing more.
pub proof fn law_over_is_final(s: SupervisorModel, events: Seq<Event>)
    requires
        s.phase.is_over(),
    ensures
        run(s, events) == s,
        forall|i: int| 0 <= i < events.len() ==> (#[trigger] actions(s, events)[i]) is Ignore,
    decreases events.len(),
{
    if events.len() > 0 {
        law_over_is_final(s, events.drop_last());
        assert forall|i: int| 0 <= i < events.len() implies (#[trigger] actions(s, events)[i])
            is Ignore by {
            law_over_is_final(s, events.take(i));
        }
    }
}

/// Once a run has left the phases before the spawn it never returns to them.
pub proof fn lemma_before_spawn_is_prefix_closed(s: SupervisorModel, events: Seq<Event>, i: int)
    requires
        0 <= i <= events.len(),
        run(s, events).phase.before_spawn(),
    ensures
        run(s, events.take(i)).phase.before_spawn(),
    decreases events.len() - i,
{
    if i == events.len() {
        assert(events.take(i) =~= events);
    } else {
        lemma_before_spawn_is_prefix_closed(s, events, i + 1);
        let longer = events.take(i + 1);
        assert(longer.drop_last() =~= events.take(i));
    }
}

/// As long as no child has been spawned, nothing was asked for but calls
/// that lower the priority and the spawn itself.
pub proof fn law_nothing_before_spawn(s: SupervisorModel, events: Seq<Event>, i: int)
    requires
        0 <= i < events.len(),
        run(s, events).phase.before_spawn(),
    ensures
        !concerns_child(actions(s, events)[i]),
        !(actions(s, events)[i] is Exit),
        !(actions(s, events)[i] is Abort),
{
    lemma_before_spawn_is_prefix_closed(s, events, i);
    lemma_before_spawn_is_prefix_closed(s, events, i + 1);
    let longer = events.take(i + 1);
    assert(longer.drop_last() =~= events.take(i));
    assert(longer.last() == events[i]);
}

/// If the program cannot be spawned, the run fails with a code other than
/// zero: no wakelock was or will be acquired, no handler installed, and
/// the child is never waited for.
pub proof fn law_spawn_failure_is_fatal(
    s: SupervisorModel,
    before: Seq<Event>,
    after: Seq<Event>,
    i: int,
)
    requires
        run(s, before).phase is Spawning,
        0 <= i < before.len() + 1 + after.len(),
    ensures
        run(s, before.push(Event::SpawnFailed) + after).phase == (Phase::Failed {
            failure: Failure::Spawn,
        }),
        actions(s, before.push(Event::SpawnFailed) + after)[before.len() as int] == (
        ActionModel::Abort { failure: Failure::Spawn }),
        !concerns_child(actions(s, before.push(Event::SpawnFailed) + after)[i]),
        !(actions(s, before.push(Event::SpawnFailed) + after)[i] is Exit),
        FAILURE_STATUS != 0,
{
    let failed = before.push(Event::SpawnFailed);
    let all = failed + after;
    let n = before.len() as int;
    assert(failed.drop_last() =~= before);
    let f = run(s, failed);
    assert(f.phase == Phase::Failed { failure: Failure::Spawn });
    lemma_run_concat(s, failed, after);
    law_over_is_final(f, after);
    assert(all.take(n) =~= before);
    assert(all[n] == Event::SpawnFailed);
    if i < n {
        assert(all.take(i) =~= before.take(i));
        assert(all[i] == before[i]);
        assert(actions(s, all)[i] == actions(s, before)[i]);
        law_nothing_before_spawn(s, before, i);
    } else if i > n {
        let j = i - n - 1;
        assert(all.take(i) =~= failed + after.take(j));
        lemma_run_concat(s, failed, after.take(j));
        law_over_is_final(f, after.take(j));
        assert(all[i] == after[j]);
        assert(actions(f, after)[j] is Ignore);
    }
}

/// Running one sequence of events after another is running the two as one.
pub proof fn lemma_run_concat(s: SupervisorModel, first: Seq<Event>, second: Seq<Event>)
    ensures
        run(s, first + second) == run(run(s, first), second),
    decreases second.len(),
{
    if second.len() == 0 {
        assert(first + second =~= first);
    } else {
        lemma_run_concat(s, first, second.drop_last());
        assert((first + second).drop_last() =~= first + second.drop_last());
        assert((first + second).last() == second.last());
    }
}

/// A run that was not asked to keep the host awake never asks for a wakelock.
pub proof fn law_no_wakelock_unless_asked(s: SupervisorModel, events: Seq<Event>, i: int)
    requires
        !s.invocation.caffeinate,
        0 <= i < events.len(),
    ensures
        !(actions(s, events)[i] is AcquireWakelock),
{
    law_invocation_immutable(s, events.take(i));
}

/// A request to keep the host awake is made only right after the spawn,
/// for the child that was spawned; where the platform has assertions, the
/// description names the invocation's program and the child's process id.
pub proof fn law_wakelock_names_child(s: SupervisorModel, event: Event)
    requires
        next(s, event).1 is AcquireWakelock,
    ensures
        s.invocation.caffeinate,
        s.phase is Spawning,
        event is Spawned,
        next(s, event).0.phase == (Phase::Caffeinating { pid: event->pid }),
        s.platform == Platform::MacOs ==> (next(s, event).1->request matches WakelockModel::Assertion {
            details,
        } && occurs_in(s.invocation.program, details) && occurs_in(
            decimal(event->pid as nat),
            details,
        )),
        s.platform == Platform::Linux <==> !next(s, event).1->request.prevents_sleep(),
{
    lemma_description_names_child(s.invocation.program, event->pid);
}

/// Where interrupts are forwarded, an interrupt while the child is waited
/// for is sent on to the child, and the run still waits for that child.
pub proof fn law_interrupt_reaches_child(s: SupervisorModel, pid: u32)
    requires
        s.platform.spec_forwards_interrupts(),
        s.phase == (Phase::Waiting { pid }) || s.phase == (Phase::Installing { pid }),
    ensures
        next(s, Event::Interrupted) == (s, ActionModel::Forward { pid }),
{
}

/// A run has one child: the process id it holds never changes, and an
/// interrupt is only ever sent to that process.
pub proof fn law_one_child(s: SupervisorModel, event: Event)
    ensures
        s.phase.child().is_some() ==> next(s, event).0.phase.child() == s.phase.child() || next(
            s,
            event,
        ).0.phase.is_over(),
        next(s, event).1 matches ActionModel::Forward { pid } ==> s.phase.child() == Some(pid),
        next(s, event).1 is Wait ==> next(s, event).0.phase.child().is_some(),
        next(s, event).1 is InstallHandler ==> next(s, event).0.phase.child().is_some(),
{
}

/// Runs do not depend on one another: on the same platform, with the same
/// invocation and the same events, two runs pass through the same states
/// and ask for the same actions.
pub proof fn law_runs_are_independent(
    platform: Platform,
    first: InvocationModel,
    second: InvocationModel,
    events: Seq<Event>,
    again: Seq<Event>,
)
    requires
        first.program == second.program,
        first.args =~= second.args,
        first.caffeinate == second.caffeinate,
        events =~= again,
    ensures
        run(initial(platform, first), events) == run(initial(platform, second), again),
        actions(initial(platform, first), events) == actions(initial(platform, second), again),
{
}

/// How far a run has come.
pub open spec fn progress(phase: Phase) -> nat {
    match phase {
        Phase::Adjusting { .. } => 0,
        Phase::Spawning => 1,
        Phase::Caffeinating { .. } => 2,
        Phase::Installing { .. } => 3,
        Phase::Waiting { .. } => 4,
        Phase::Exited { .. } => 5,
        Phase::Failed { .. } => 5,
    }
}

/// How many of the events report a call that lowered the priority.
pub open spec fn lowered(platform: Platform, events: Seq<Event>) -> nat
    decreases events.len(),
{
    if events.len() == 0 {
        0
    } else {
        let before = lowered(platform, events.drop_last());
        match events.last() {
            Event::Adjusted { status, os_error } => if accepted(platform, status, os_error) {
                before + 1
            } else {
                before
            },
            _ => before,
        }
    }
}

/// A run never goes back: what it has reached after some of the events it
/// has still reached after all of them.
pub proof fn law_phases_only_advance(s: SupervisorModel, events: Seq<Event>, i: int)
    requires
        0 <= i <= events.len(),
    ensures
        progress(run(s, events.take(i)).phase) <= progress(run(s, events).phase),
    decreases events.len() - i,
{
    if i == events.len() {
        assert(events.take(i) =~= events);
    } else {
        law_phases_only_advance(s, events, i + 1);
        let longer = events.take(i + 1);
        assert(longer.drop_last() =~= events.take(i));
    }
}

/// The spawn, the wakelock, the handler, the wait and the end of the run
/// are each asked for at most once.
pub proof fn law_asked_once(s: SupervisorModel, events: Seq<Event>, i: int, j: int)
    requires
        0 <= i < j < events.len(),
    ensures
        !(actions(s, events)[i] is Spawn && actions(s, events)[j] is Spawn),
        !(actions(s, events)[i] is AcquireWakelock && actions(s, events)[j] is AcquireWakelock),
        !(actions(s, events)[i] is InstallHandler && actions(s, events)[j] is InstallHandler),
        !(actions(s, events)[i] is Wait && actions(s, events)[j] is Wait),
        !(actions(s, events)[i] is Exit && actions(s, events)[j] is Exit),
        !(actions(s, events)[i] is Abort && actions(s, events)[j] is Abort),
{
    let upto = events.take(j);
    let after = upto.take(i + 1);
    law_phases_only_advance(s, upto, i + 1);
    assert(after =~= events.take(i + 1));
    assert(after.drop_last() =~= events.take(i));
    assert(after.last() == events[i]);
}

/// A run has one child: whenever it holds a process id, it is the same one.
pub proof fn law_one_child_per_run(s: SupervisorModel, events: Seq<Event>, i: int)
    requires
        0 <= i <= events.len(),
        run(s, events.take(i)).phase.child().is_some(),
        run(s, events).phase.child().is_some(),
    ensures
        run(s, events.take(i)).phase.child() == run(s, events).phase.child(),
    decreases events.len() - i,
{
    if i == events.len() {
        assert(events.take(i) =~= events);
    } else {
        let shorter = events.drop_last();
        assert(shorter.take(i) =~= events.take(i));
        law_phases_only_advance(s, shorter, i);
        law_one_child(run(s, shorter), events.last());
        law_one_child_per_run(s, shorter, i);
    }
}

/// The priority is lowered before anything else: while a run lowers it,
/// it has made as many calls of the plan as were reported done, and a run
/// that has come further, or has failed at a later step, has made them all.
pub proof fn law_priority_before_spawn(
    platform: Platform,
    invocation: InvocationModel,
    events: Seq<Event>,
)
    ensures
        run(initial(platform, invocation), events).phase matches Phase::Adjusting { done } ==> done
            == lowered(platform, events) && done < plan(platform).len(),
        !(run(initial(platform, invocation), events).phase is Adjusting) && !(run(
            initial(platform, invocation),
            events,
        ).phase matches Phase::Failed { failure: Failure::Priority { .. } }) ==> lowered(
            platform,
            events,
        ) >= plan(platform).len(),
    decreases events.len(),
{
    if events.len() > 0 {
        law_priority_before_spawn(platform, invocation, events.drop_last());
        law_invocation_immutable(initial(platform, invocation), events.drop_last());
    }
}

} // verus!
