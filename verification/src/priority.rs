//! Lowering the supervisor's own priority before the child is spawned, so
//! that the child inherits it.

use vstd::prelude::*;
use crate::platform::Platform;

verus! {

/// The niceness asked for: the weakest claim on the processor.
pub const LOWEST_NICE: i32 = 19;

/// Says that an I/O priority is set for a whole process group.
pub const IOPRIO_WHO_PGRP: i32 = 2;

/// The I/O scheduling class that is served only when the disk is idle.
pub const IOPRIO_CLASS_IDLE: i32 = 3;

/// How many bits of an I/O priority lie below its class.
pub const IOPRIO_CLASS_SHIFT: i32 = 13;

/// One call that lowers a priority.
#[derive(Clone, Copy, Debug, PartialEq, Eq, Structural)]
pub enum PriorityStep {
    /// Give the process the lowest niceness.
    LowestNice,
    /// Put the process group into the idle I/O class.
    IdleIo,
    /// Mark the process as a background process of Darwin.
    DarwinBackground,
    /// Put the process into the idle priority class of Windows.
    IdleClass,
}

/// The calls a platform needs, in the order in which they are made.
pub open spec fn plan(platform: Platform) -> Seq<PriorityStep> {
    match platform {
        Platform::Linux => seq![PriorityStep::LowestNice, PriorityStep::IdleIo],
        Platform::MacOs => seq![PriorityStep::DarwinBackground],
        Platform::Windows => seq![PriorityStep::IdleClass],
    }
}

/// Whether a call that returned `status`, with `os_error` as the error the
/// system then holds, lowered the priority. On a Unix a failed call whose
/// error is zero counts as done; elsewhere only a status of zero does.
pub open spec fn accepted(platform: Platform, status: i64, os_error: Option<i32>) -> bool {
    status == 0 || (platform.is_unix() && os_error == Some(0i32))
}

/// An I/O priority: the class above the low bits, the level in them.
pub open spec fn ioprio(class: int, level: int) -> int {
    class * 8192 + level
}

/// The number of calls the platform needs.
pub fn plan_len(platform: Platform) -> (n: usize)
    ensures
        n == plan(platform).len(),
        n >= 1,
{
    match platform {
        Platform::Linux => 2,
        Platform::MacOs => 1,
        Platform::Windows => 1,
    }
}

/// The first call of the platform's plan.
pub fn first_step(platform: Platform) -> (step: PriorityStep)
    ensures
        step == plan(platform)[0],
{
    match platform {
        Platform::Linux => PriorityStep::LowestNice,
        Platform::MacOs => PriorityStep::DarwinBackground,
        Platform::Windows => PriorityStep::IdleClass,
    }
}

/// The call at place `index` of the platform's plan.
pub fn plan_step(platform: Platform, index: usize) -> (step: Option<PriorityStep>)
    ensures
        index < plan(platform).len() ==> step == Some(plan(platform)[index as int]),
        index >= plan(platform).len() ==> step.is_none(),
{
    match platform {
        Platform::Linux => if index == 0 {
            Some(PriorityStep::LowestNice)
        } else if index == 1 {
            Some(PriorityStep::IdleIo)
        } else {
            None
        },
        Platform::MacOs => if index == 0 {
            Some(PriorityStep::DarwinBackground)
        } else {
            None
        },
        Platform::Windows => if index == 0 {
            Some(PriorityStep::IdleClass)
        } else {
            None
        },
    }
}

/// The call that follows once `done` calls of the plan succeeded and one
/// more has: none after the last.
pub fn step_after(platform: Platform, done: usize) -> (step: Option<PriorityStep>)
    ensures
        done + 1 < plan(platform).len() ==> step == Some(plan(platform)[done + 1]),
        done + 1 >= plan(platform).len() ==> step.is_none(),
{
    if done >= plan_len(platform) {
        None
    } else {
        plan_step(platform, done + 1)
    }
}

/// The calls a platform needs, in the order in which they are made.
pub fn priority_plan(platform: Platform) -> (steps: Vec<PriorityStep>)
    ensures
        steps@ == plan(platform),
{
    let mut steps: Vec<PriorityStep> = Vec::new();
    match platform {
        Platform::Linux => {
            steps.push(PriorityStep::LowestNice);
            steps.push(PriorityStep::IdleIo);
        },
        Platform::MacOs => {
            steps.push(PriorityStep::DarwinBackground);
        },
        Platform::Windows => {
            steps.push(PriorityStep::IdleClass);
        },
    }
    assert(steps@ =~= plan(platform));
    steps
}

/// Whether a call that returned `status` lowered the priority.
pub fn adjustment_accepted(platform: Platform, status: i64, os_error: Option<i32>) -> (ok: bool)
    ensures
        ok == accepted(platform, status, os_error),
{
    if status == 0 {
        true
    } else if platform.is_unix() {
        match os_error {
            Some(e) => e == 0,
            None => false,
        }
    } else {
        false
    }
}

/// The I/O priority of a class and a level within it.
pub fn ioprio_value(class: i32, level: i32) -> (value: i32)
    requires
        0 <= class < 8,
        0 <= level < 8192,
    ensures
        value == ioprio(class as int, level as int),
{
    class * 8192 + level
}

/// The I/O priority asked for: the idle class at level zero.
pub fn idle_ioprio() -> (value: i32)
    ensures
        value == ioprio(IOPRIO_CLASS_IDLE as int, 0),
        value == 24576,
{
    ioprio_value(IOPRIO_CLASS_IDLE, 0)
}

} // verus!
