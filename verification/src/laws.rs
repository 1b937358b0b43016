//! Laws of the timer's transition system, stated over the spec functions of
//! `timer` and proved once and for all: idempotence of the commands, that
//! pausing and resuming cannot skip or duplicate a phase transition, and the
//! exact number of ticks a protocol consumes from construction to
//! completion.

use vstd::prelude::*;

use crate::definition::ExerciseDefinition;
use crate::timer::initial_timer;
use crate::timer::spec_start;
use crate::timer::spec_stop;
use crate::timer::spec_tick;
use crate::timer::IntervalTimer;
use crate::timer::Phase;

verus! {

/// The state after `n` consecutive ticks.
pub open spec fn run_ticks(t: IntervalTimer, n: nat) -> IntervalTimer
    decreases n,
{
    if n == 0 {
        t
    } else {
        run_ticks(spec_tick(t), (n - 1) as nat)
    }
}

/// Stopping an already stopped timer changes nothing: two `stop`s in a row
/// leave the same state as one.
pub proof fn lemma_stop_idempotent(t: IntervalTimer)
    ensures
        spec_stop(spec_stop(t)) == spec_stop(t),
{
}

/// Starting an already started timer changes nothing: two `start`s in a row
/// leave the same state as one.
pub proof fn lemma_start_idempotent(t: IntervalTimer)
    ensures
        spec_start(spec_start(t)) == spec_start(t),
{
}

/// A tick delivered to a paused (or complete) timer is ignored, so any
/// number of them leaves the state unchanged.
pub proof fn lemma_ticks_while_paused(t: IntervalTimer, n: nat)
    requires
        !t.running,
    ensures
        run_ticks(t, n) == t,
    decreases n,
{
    if n > 0 {
        lemma_ticks_while_paused(t, (n - 1) as nat);
    }
}

/// Resuming a paused, unfinished timer restores exactly the state `stop`
/// saw: `start` after `stop` is the identity on a running timer.
pub proof fn lemma_resume_restores_state(t: IntervalTimer)
    requires
        t.wf(),
        t.running,
    ensures
        spec_start(spec_stop(t)) == t,
{
}

/// Pausing and resuming never skips or duplicates a phase transition: after
/// a stop, any number of ticks swallowed while paused, and a start, every
/// later tick leads through exactly the states — and so exactly the phases —
/// that it would have led through without the pause.
pub proof fn lemma_pause_resume_preserves_run(
    t: IntervalTimer,
    paused_ticks: nat,
    n: nat,
)
    requires
        t.wf(),
        t.running,
    ensures
        run_ticks(spec_start(run_ticks(spec_stop(t), paused_ticks)), n) == run_ticks(t, n),
{
    lemma_ticks_while_paused(spec_stop(t), paused_ticks);
    lemma_resume_restores_state(t);
}

/// How many ticks a phase showing `remaining` seconds takes to be left: one
/// per remaining second, and a single tick for a phase sitting at zero (a
/// zero-duration warm-up or rest is displayed for one tick period).
pub open spec fn phase_ticks(remaining: u32) -> int {
    if remaining == 0 {
        1
    } else {
        remaining as int
    }
}

/// How many ticks the protocol still needs from within an exercise phase
/// showing `remaining` seconds with `sets` sets (this one included) to go:
/// the rest of this exercise phase, then a rest and a full exercise phase
/// for each further set.
pub open spec fn exercise_phase_ticks(
    definition: ExerciseDefinition,
    remaining: u32,
    sets: u32,
) -> int
    decreases sets,
{
    if sets <= 1 {
        phase_ticks(remaining)
    } else {
        phase_ticks(remaining) + phase_ticks(definition.rest_seconds) + exercise_phase_ticks(
            definition,
            definition.exercise_seconds,
            (sets - 1) as u32,
        )
    }
}

/// How many ticks an unfinished running timer still needs to reach the
/// terminal state; zero once the protocol is complete.
pub open spec fn ticks_to_completion(t: IntervalTimer) -> int {
    if t.remaining_sets == 0 {
        0
    } else {
        match t.phase {
            Phase::Warmup => phase_ticks(t.remaining_seconds) + exercise_phase_ticks(
                t.definition,
                t.definition.exercise_seconds,
                t.remaining_sets,
            ),
            Phase::Exercise => exercise_phase_ticks(
                t.definition,
                t.remaining_seconds,
                t.remaining_sets,
            ),
            Phase::Rest => phase_ticks(t.remaining_seconds) + exercise_phase_ticks(
                t.definition,
                t.definition.exercise_seconds,
                t.remaining_sets,
            ),
        }
    }
}

/// An unfinished stretch of the protocol needs at least one tick.
proof fn lemma_exercise_phase_ticks_pos(definition: ExerciseDefinition, remaining: u32, sets: u32)
    ensures
        exercise_phase_ticks(definition, remaining, sets) >= 1,
    decreases sets,
{
    if sets > 1 {
        lemma_exercise_phase_ticks_pos(
            definition,
            definition.exercise_seconds,
            (sets - 1) as u32,
        );
    }
}

/// An unfinished timer needs at least one tick, whatever phase it is in.
proof fn lemma_completion_pos(t: IntervalTimer)
    requires
        t.remaining_sets >= 1,
    ensures
        ticks_to_completion(t) >= 1,
{
    lemma_exercise_phase_ticks_pos(t.definition, t.definition.exercise_seconds, t.remaining_sets);
    lemma_exercise_phase_ticks_pos(t.definition, t.remaining_seconds, t.remaining_sets);
}

/// Each tick of a running timer brings completion exactly one tick closer,
/// and the timer keeps running until, in the very tick that completes the
/// protocol, it stops itself.
proof fn lemma_tick_advances_completion(t: IntervalTimer)
    requires
        t.wf(),
        t.running,
    ensures
        spec_tick(t).wf(),
        ticks_to_completion(spec_tick(t)) == ticks_to_completion(t) - 1,
        spec_tick(t).running <==> ticks_to_completion(t) > 1,
{
    lemma_exercise_phase_ticks_pos(t.definition, t.definition.exercise_seconds, t.remaining_sets);
    if t.remaining_sets >= 1 {
        lemma_exercise_phase_ticks_pos(
            t.definition,
            t.definition.exercise_seconds,
            (t.remaining_sets - 1) as u32,
        );
    }
}

/// A running timer reaches the terminal state after exactly
/// `ticks_to_completion` ticks: it is still running, with sets to go, after
/// every earlier tick, and stopped with no sets to go after the last.
pub proof fn lemma_runs_to_completion(t: IntervalTimer, n: nat)
    requires
        t.wf(),
        t.running,
        ticks_to_completion(t) == n,
    ensures
        run_ticks(t, n).remaining_sets == 0,
        run_ticks(t, n).remaining_seconds == 0,
        !run_ticks(t, n).running,
        forall|k: nat| k < n ==> run_ticks(t, k).running && run_ticks(t, k).remaining_sets >= 1,
    decreases n,
{
    lemma_tick_advances_completion(t);
    lemma_completion_pos(t);
    let stepped = spec_tick(t);
    if n == 1 {
        if stepped.remaining_sets >= 1 {
            lemma_completion_pos(stepped);
        }
        assert(run_ticks(t, n) == stepped);
    } else {
        lemma_runs_to_completion(stepped, (n - 1) as nat);
        assert forall|k: nat| k < n implies run_ticks(t, k).running && run_ticks(
            t,
            k,
        ).remaining_sets >= 1 by {
            if k > 0 {
                assert(run_ticks(t, k) == run_ticks(stepped, (k - 1) as nat));
            }
        }
    }
}

/// Closed form of `exercise_phase_ticks` at the start of an exercise phase,
/// for a positive rest duration: each of the `sets` sets costs a full
/// exercise phase, and each but the last a full rest phase.
proof fn lemma_exercise_phase_ticks_closed(definition: ExerciseDefinition, sets: u32)
    requires
        definition.wf(),
        definition.rest_seconds >= 1,
        sets >= 1,
    ensures
        exercise_phase_ticks(definition, definition.exercise_seconds, sets) == sets
            * definition.exercise_seconds + (sets - 1) * definition.rest_seconds,
    decreases sets,
{
    let e = definition.exercise_seconds as int;
    let r = definition.rest_seconds as int;
    if sets == 1 {
        assert(1 * e == e && 0 * r == 0) by (nonlinear_arith);
    } else {
        lemma_exercise_phase_ticks_closed(definition, (sets - 1) as u32);
        assert(sets * e == (sets - 1) * e + e && (sets - 1) * r == (sets - 2) * r + r)
            by (nonlinear_arith);
    }
}

/// The exact tick budget of a whole protocol with positive warm-up and rest
/// durations: from construction, the timer is still running, with sets to
/// go, after every tick but the last of
/// `warmup + sets * exercise + (sets - 1) * rest`, and that last tick lands
/// it in the terminal state.
pub proof fn lemma_total_tick_count(definition: ExerciseDefinition)
    requires
        definition.wf(),
        definition.warmup_seconds >= 1,
        definition.rest_seconds >= 1,
    ensures
        ({
            let start_state = initial_timer(definition);
            let total = definition.warmup_seconds + definition.sets
                * definition.exercise_seconds + (definition.sets - 1) * definition.rest_seconds;
            &&& run_ticks(start_state, total as nat).remaining_sets == 0
            &&& run_ticks(start_state, total as nat).remaining_seconds == 0
            &&& !run_ticks(start_state, total as nat).running
            &&& forall|k: nat|
                k < total ==> run_ticks(start_state, k).running && run_ticks(
                    start_state,
                    k,
                ).remaining_sets >= 1
        }),
{
    let start_state = initial_timer(definition);
    lemma_exercise_phase_ticks_closed(definition, definition.sets);
    lemma_runs_to_completion(start_state, ticks_to_completion(start_state) as nat);
}

} // verus!
