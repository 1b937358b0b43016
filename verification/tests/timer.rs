use hiit::ExerciseDefinition;
use hiit::IntervalTimer;
use hiit::Phase;
use hiit::TimerSnapshot;

fn definition(warmup: u32, exercise: u32, rest: u32, sets: u32) -> ExerciseDefinition {
    ExerciseDefinition::new(warmup, exercise, rest, sets).unwrap()
}

fn snap(phase: Phase, remaining_seconds: u32, remaining_sets: u32, running: bool) -> TimerSnapshot {
    TimerSnapshot {
        phase,
        remaining_seconds,
        remaining_sets,
        running,
    }
}

#[test]
fn construction_starts_running_in_warmup() {
    let t = IntervalTimer::new(definition(10, 30, 20, 4));
    assert_eq!(t.snapshot(), snap(Phase::Warmup, 10, 4, true));
    assert!(!t.is_complete());
}

#[test]
fn two_sets_scenario_runs_through_every_phase() {
    let mut t = IntervalTimer::new(definition(2, 2, 2, 2));
    assert_eq!(t.snapshot(), snap(Phase::Warmup, 2, 2, true));
    t.tick();
    assert_eq!(t.snapshot(), snap(Phase::Warmup, 1, 2, true));
    t.tick();
    assert_eq!(t.snapshot(), snap(Phase::Exercise, 2, 2, true));
    t.tick();
    t.tick();
    assert_eq!(t.snapshot(), snap(Phase::Rest, 2, 1, true));
    t.tick();
    t.tick();
    assert_eq!(t.snapshot(), snap(Phase::Exercise, 2, 1, true));
    t.tick();
    t.tick();
    assert_eq!(t.snapshot(), snap(Phase::Exercise, 0, 0, false));
    assert!(t.is_complete());
}

#[test]
fn single_set_never_visits_rest() {
    let mut t = IntervalTimer::new(definition(2, 3, 5, 1));
    let mut visited_rest = false;
    for _ in 0..20 {
        t.tick();
        if t.snapshot().phase == Phase::Rest {
            visited_rest = true;
        }
    }
    assert!(!visited_rest);
    assert_eq!(t.snapshot(), snap(Phase::Exercise, 0, 0, false));
}

#[test]
fn total_tick_count_matches_the_formula() {
    // warmup + sets * exercise + (sets - 1) * rest = 3 + 4 * 2 + 3 * 5 = 26
    let mut t = IntervalTimer::new(definition(3, 2, 5, 4));
    for _ in 0..25 {
        assert!(t.snapshot().running);
        t.tick();
    }
    assert!(t.snapshot().running);
    assert!(!t.is_complete());
    t.tick();
    assert_eq!(t.snapshot(), snap(Phase::Exercise, 0, 0, false));
    assert!(t.is_complete());
}

#[test]
fn tick_while_paused_leaves_the_snapshot_unchanged() {
    let mut t = IntervalTimer::new(definition(5, 3, 2, 2));
    t.tick();
    t.stop();
    let before = t.snapshot();
    t.tick();
    t.tick();
    assert_eq!(t.snapshot(), before);
}

#[test]
fn tick_in_terminal_state_is_ignored() {
    let mut t = IntervalTimer::new(definition(0, 1, 0, 1));
    t.tick();
    t.tick();
    assert!(t.is_complete());
    let terminal = t.snapshot();
    t.tick();
    assert_eq!(t.snapshot(), terminal);
}

#[test]
fn stop_twice_equals_stop_once() {
    let mut once = IntervalTimer::new(definition(4, 3, 2, 2));
    let mut twice = IntervalTimer::new(definition(4, 3, 2, 2));
    once.tick();
    twice.tick();
    once.stop();
    twice.stop();
    twice.stop();
    assert_eq!(once.snapshot(), twice.snapshot());
}

#[test]
fn start_twice_equals_start_once() {
    let mut once = IntervalTimer::new(definition(4, 3, 2, 2));
    let mut twice = IntervalTimer::new(definition(4, 3, 2, 2));
    once.tick();
    twice.tick();
    once.stop();
    twice.stop();
    once.start();
    twice.start();
    twice.start();
    assert_eq!(once.snapshot(), twice.snapshot());
    assert!(once.snapshot().running);
}

#[test]
fn start_in_terminal_state_is_a_no_op() {
    let mut t = IntervalTimer::new(definition(0, 1, 0, 1));
    t.tick();
    t.tick();
    let terminal = t.snapshot();
    assert!(!terminal.running);
    t.start();
    assert_eq!(t.snapshot(), terminal);
}

#[test]
fn stop_keeps_phase_countdown_and_sets() {
    let mut t = IntervalTimer::new(definition(1, 4, 2, 3));
    t.tick();
    t.tick();
    assert_eq!(t.snapshot(), snap(Phase::Exercise, 3, 3, true));
    t.stop();
    assert_eq!(t.snapshot(), snap(Phase::Exercise, 3, 3, false));
}

#[test]
fn reset_returns_to_the_initial_state_from_any_state() {
    let mut t = IntervalTimer::new(definition(2, 2, 2, 2));
    for _ in 0..5 {
        t.tick();
    }
    t.stop();
    t.reset();
    assert_eq!(t.snapshot(), snap(Phase::Warmup, 2, 2, true));
}

#[test]
fn reset_after_completion_restarts_the_protocol() {
    let mut t = IntervalTimer::new(definition(1, 1, 1, 1));
    t.tick();
    t.tick();
    assert!(t.is_complete());
    t.reset();
    assert_eq!(t.snapshot(), snap(Phase::Warmup, 1, 1, true));
    assert!(!t.is_complete());
}

#[test]
fn pause_and_resume_replay_the_uninterrupted_phase_sequence() {
    let mut straight = IntervalTimer::new(definition(2, 2, 2, 2));
    let mut paused = IntervalTimer::new(definition(2, 2, 2, 2));
    for step in 0..8 {
        if step == 3 {
            paused.stop();
            paused.tick();
            paused.tick();
            paused.start();
        }
        assert_eq!(straight.snapshot(), paused.snapshot());
        straight.tick();
        paused.tick();
    }
    assert_eq!(straight.snapshot(), paused.snapshot());
    assert!(straight.is_complete() && paused.is_complete());
}

#[test]
fn zero_warmup_shows_zero_for_one_tick_then_enters_exercise() {
    let mut t = IntervalTimer::new(definition(0, 3, 2, 2));
    assert_eq!(t.snapshot(), snap(Phase::Warmup, 0, 2, true));
    t.tick();
    assert_eq!(t.snapshot(), snap(Phase::Exercise, 3, 2, true));
}

#[test]
fn zero_rest_shows_zero_for_one_tick_then_enters_exercise() {
    let mut t = IntervalTimer::new(definition(0, 1, 0, 2));
    t.tick();
    assert_eq!(t.snapshot(), snap(Phase::Exercise, 1, 2, true));
    t.tick();
    assert_eq!(t.snapshot(), snap(Phase::Rest, 0, 1, true));
    t.tick();
    assert_eq!(t.snapshot(), snap(Phase::Exercise, 1, 1, true));
}

#[test]
fn largest_durations_count_down_without_trouble() {
    let mut t = IntervalTimer::new(definition(u32::MAX, u32::MAX, u32::MAX, u32::MAX));
    t.tick();
    assert_eq!(t.snapshot(), snap(Phase::Warmup, u32::MAX - 1, u32::MAX, true));
    t.reset();
    assert_eq!(t.snapshot(), snap(Phase::Warmup, u32::MAX, u32::MAX, true));
}
