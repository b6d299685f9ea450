use nicer::platform::Platform;
use nicer::priority::{
    adjustment_accepted, first_step, idle_ioprio, ioprio_value, plan_len, plan_step,
    priority_plan, step_after, PriorityStep, IOPRIO_CLASS_IDLE, IOPRIO_CLASS_SHIFT,
    IOPRIO_WHO_PGRP, LOWEST_NICE,
};

#[test]
fn plan_of_each_platform() {
    assert_eq!(
        priority_plan(Platform::Linux),
        vec![PriorityStep::LowestNice, PriorityStep::IdleIo]
    );
    assert_eq!(priority_plan(Platform::MacOs), vec![PriorityStep::DarwinBackground]);
    assert_eq!(priority_plan(Platform::Windows), vec![PriorityStep::IdleClass]);
}

#[test]
fn plan_is_read_step_by_step() {
    for platform in [Platform::Linux, Platform::MacOs, Platform::Windows] {
        let steps = priority_plan(platform);
        assert_eq!(plan_len(platform), steps.len());
        assert_eq!(first_step(platform), steps[0]);
        for index in 0..steps.len() {
            assert_eq!(plan_step(platform, index), Some(steps[index]));
        }
        assert_eq!(plan_step(platform, steps.len()), None);
        assert_eq!(plan_step(platform, usize::MAX), None);
    }
}

#[test]
fn step_after_follows_the_plan() {
    assert_eq!(step_after(Platform::Linux, 0), Some(PriorityStep::IdleIo));
    assert_eq!(step_after(Platform::Linux, 1), None);
    assert_eq!(step_after(Platform::Linux, 2), None);
    assert_eq!(step_after(Platform::MacOs, 0), None);
    assert_eq!(step_after(Platform::Windows, 0), None);
    assert_eq!(step_after(Platform::Linux, usize::MAX), None);
}

#[test]
fn zero_status_is_accepted() {
    for platform in [Platform::Linux, Platform::MacOs, Platform::Windows] {
        assert!(adjustment_accepted(platform, 0, None));
        assert!(adjustment_accepted(platform, 0, Some(0)));
        assert!(adjustment_accepted(platform, 0, Some(13)));
    }
}

#[test]
fn zero_error_is_innocuous_on_unix() {
    assert!(adjustment_accepted(Platform::Linux, -1, Some(0)));
    assert!(adjustment_accepted(Platform::MacOs, -1, Some(0)));
    assert!(adjustment_accepted(Platform::MacOs, 5, Some(0)));
    assert!(!adjustment_accepted(Platform::Windows, -1, Some(0)));
}

#[test]
fn other_errors_are_refused() {
    for platform in [Platform::Linux, Platform::MacOs, Platform::Windows] {
        assert!(!adjustment_accepted(platform, -1, Some(13)));
        assert!(!adjustment_accepted(platform, -1, Some(3)));
        assert!(!adjustment_accepted(platform, -1, Some(-1)));
        assert!(!adjustment_accepted(platform, -1, None));
        assert!(!adjustment_accepted(platform, 1, None));
        assert!(!adjustment_accepted(platform, i64::MIN, Some(1)));
    }
}

#[test]
fn idle_io_priority_value() {
    assert_eq!(idle_ioprio(), 24576);
    assert_eq!(ioprio_value(IOPRIO_CLASS_IDLE, 0), 24576);
    assert_eq!(idle_ioprio(), IOPRIO_CLASS_IDLE << IOPRIO_CLASS_SHIFT);
}

#[test]
fn io_priority_of_class_and_level() {
    assert_eq!(ioprio_value(0, 0), 0);
    assert_eq!(ioprio_value(2, 4), 16388);
    assert_eq!(ioprio_value(1, 7), 8199);
    assert_eq!(ioprio_value(7, 8191), 65535);
}

#[test]
fn priority_constants() {
    assert_eq!(LOWEST_NICE, 19);
    assert_eq!(IOPRIO_WHO_PGRP, 2);
    assert_eq!(IOPRIO_CLASS_IDLE, 3);
    assert_eq!(IOPRIO_CLASS_SHIFT, 13);
}
