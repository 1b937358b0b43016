//! The interval timer state machine.
//!
//! A timer owns its definition, the current phase, the countdown within the
//! phase, the number of sets still to go, and the running flag.  It is
//! driven by a serialized stream of commands (`start`, `stop`, `reset`) and
//! tick events, one tick per elapsed second.  Each operation's effect is
//! given by a spec function of the same name, so that the transition system
//! can be reasoned about as a whole (see the `laws` module).
//!
//! A phase entered with a zero configured duration (a zero warm-up or rest)
//! shows a zero countdown for one full tick period and is left on the next
//! tick: a tick decrements the countdown when it is positive, and advances
//! the phase exactly once when the countdown has reached zero.  Phase
//! advances never cascade within one tick.
//!
//! Completion is not a separate phase: the protocol is complete when
//! `remaining_sets == 0`, which forces `running == false` and a zero
//! countdown, with the phase left as `Exercise`.  A tick in that terminal
//! state, or while the timer is paused, changes nothing.

use vstd::prelude::*;

use crate::definition::ExerciseDefinition;

verus! {

/// The activity segment the timer is currently in.
///
/// Sequencing only ever follows `Warmup`, then alternating `Exercise` and
/// `Rest`, ending on an `Exercise`: rest never follows rest, and warm-up
/// occurs at most once, at the very start.
#[derive(Clone, Copy, Debug, PartialEq, Eq, Structural)]
pub enum Phase {
    Warmup,
    Exercise,
    Rest,
}

/// The read-only view of a timer handed to rendering or test code.
#[derive(Clone, Copy, Debug, PartialEq, Eq, Structural)]
pub struct TimerSnapshot {
    pub phase: Phase,
    pub remaining_seconds: u32,
    pub remaining_sets: u32,
    pub running: bool,
}

/// The interval timer state machine.  Construction starts it running on the
/// warm-up phase; it then advances one step per tick.
#[derive(Clone, Copy, Debug, PartialEq, Eq, Structural)]
pub struct IntervalTimer {
    pub definition: ExerciseDefinition,
    pub phase: Phase,
    pub remaining_seconds: u32,
    pub remaining_sets: u32,
    pub running: bool,
}

/// The state a freshly constructed (or reset) timer is in: warming up, all
/// sets ahead of it, running.
pub open spec fn initial_timer(definition: ExerciseDefinition) -> IntervalTimer {
    IntervalTimer {
        definition,
        phase: Phase::Warmup,
        remaining_seconds: definition.warmup_seconds,
        remaining_sets: definition.sets,
        running: true,
    }
}

/// The phase-advance rule, applied exactly once per tick when the countdown
/// has reached zero: warm-up and rest lead to an exercise phase; an exercise
/// phase consumes a set and leads to a rest phase, or, when it was the last
/// set, to the terminal state (phase left as `Exercise`, not running).
pub open spec fn spec_advance(t: IntervalTimer) -> IntervalTimer {
    match t.phase {
        Phase::Warmup => IntervalTimer {
            phase: Phase::Exercise,
            remaining_seconds: t.definition.exercise_seconds,
            ..t
        },
        Phase::Exercise => if t.remaining_sets <= 1 {
            IntervalTimer { remaining_seconds: 0, remaining_sets: 0, running: false, ..t }
        } else {
            IntervalTimer {
                phase: Phase::Rest,
                remaining_seconds: t.definition.rest_seconds,
                remaining_sets: (t.remaining_sets - 1) as u32,
                ..t
            }
        },
        Phase::Rest => IntervalTimer {
            phase: Phase::Exercise,
            remaining_seconds: t.definition.exercise_seconds,
            ..t
        },
    }
}

/// What one tick does: nothing unless the timer is running; otherwise the
/// countdown drops by one, and the phase advances in the same tick in which
/// the countdown reaches zero.  A countdown already at zero (a phase entered
/// with a zero duration) advances without decrementing further.
pub open spec fn spec_tick(t: IntervalTimer) -> IntervalTimer {
    if !t.running {
        t
    } else if t.remaining_seconds > 1 {
        IntervalTimer { remaining_seconds: (t.remaining_seconds - 1) as u32, ..t }
    } else {
        spec_advance(IntervalTimer { remaining_seconds: 0, ..t })
    }
}

/// What `stop` does: pause the countdown, keeping phase, countdown and set
/// count exactly where they were.
pub open spec fn spec_stop(t: IntervalTimer) -> IntervalTimer {
    IntervalTimer { running: false, ..t }
}

/// What `start` does: resume a paused, unfinished timer; a timer already
/// running, or one whose protocol is complete, is left unchanged.
pub open spec fn spec_start(t: IntervalTimer) -> IntervalTimer {
    if !t.running && t.remaining_sets >= 1 {
        IntervalTimer { running: true, ..t }
    } else {
        t
    }
}

impl IntervalTimer {
    /// The invariant every reachable timer state satisfies, between any two
    /// observable states:
    /// - the countdown never exceeds the current phase's configured duration;
    /// - warm-up occurs only before any set has been consumed;
    /// - an unfinished exercise phase has a positive countdown, since the
    ///   phase is entered with the (positive) exercise duration and left in
    ///   the tick in which the countdown reaches zero;
    /// - a consumed last set (`remaining_sets == 0`) means the protocol is
    ///   complete: not running, zero countdown, phase left as `Exercise`.
    pub open spec fn wf(self) -> bool {
        &&& self.definition.wf()
        &&& self.remaining_sets <= self.definition.sets
        &&& (self.phase == Phase::Warmup ==> self.remaining_seconds
            <= self.definition.warmup_seconds && self.remaining_sets == self.definition.sets)
        &&& (self.phase == Phase::Exercise ==> self.remaining_seconds
            <= self.definition.exercise_seconds)
        &&& (self.phase == Phase::Rest ==> self.remaining_seconds
            <= self.definition.rest_seconds)
        &&& (self.phase == Phase::Exercise && self.remaining_sets >= 1 ==> self.remaining_seconds
            >= 1)
        &&& (self.remaining_sets == 0 ==> !self.running && self.remaining_seconds == 0
            && self.phase == Phase::Exercise)
    }

    /// Whether the protocol has run to completion: every set's exercise
    /// phase is done, and the timer has stopped itself.
    pub open spec fn spec_is_complete(self) -> bool {
        self.remaining_sets == 0
    }

    /// Constructs a timer on the given definition, already running at the
    /// start of the warm-up phase.
    pub fn new(definition: ExerciseDefinition) -> (t: IntervalTimer)
        requires
            definition.wf(),
        ensures
            t == initial_timer(definition),
            t.wf(),
    {
        IntervalTimer {
            definition,
            phase: Phase::Warmup,
            remaining_seconds: definition.warmup_seconds,
            remaining_sets: definition.sets,
            running: true,
        }
    }

    /// The observable state: phase, countdown, sets still to go, and the
    /// running flag.
    pub fn snapshot(&self) -> (s: TimerSnapshot)
        ensures
            s.phase == self.phase,
            s.remaining_seconds == self.remaining_seconds,
            s.remaining_sets == self.remaining_sets,
            s.running == self.running,
    {
        TimerSnapshot {
            phase: self.phase,
            remaining_seconds: self.remaining_seconds,
            remaining_sets: self.remaining_sets,
            running: self.running,
        }
    }

    /// Whether the protocol has run to completion.
    pub fn is_complete(&self) -> (r: bool)
        ensures
            r == self.spec_is_complete(),
    {
        self.remaining_sets == 0
    }

    /// Resumes a paused timer.  Phase, countdown and set count are untouched:
    /// the timer picks up exactly where `stop` left it.  A no-op when already
    /// running or when the protocol is complete.
    pub fn start(&mut self)
        requires
            old(self).wf(),
        ensures
            *final(self) == spec_start(*old(self)),
            final(self).wf(),
    {
        if !self.running && self.remaining_sets >= 1 {
            self.running = true;
        }
    }

    /// Pauses the countdown, keeping phase, countdown and set count exactly
    /// where they were.  A no-op when already stopped.
    pub fn stop(&mut self)
        requires
            old(self).wf(),
        ensures
            *final(self) == spec_stop(*old(self)),
            final(self).wf(),
    {
        self.running = false;
    }

    /// Returns the timer to its initial state on the same definition,
    /// running at the start of the warm-up phase, whatever state it was in.
    pub fn reset(&mut self)
        requires
            old(self).wf(),
        ensures
            *final(self) == initial_timer(old(self).definition),
            final(self).wf(),
    {
        self.phase = Phase::Warmup;
        self.remaining_seconds = self.definition.warmup_seconds;
        self.remaining_sets = self.definition.sets;
        self.running = true;
    }

    /// Consumes one tick event.  Ignored while paused or complete, so a
    /// stale tick racing a stop is harmless; otherwise the countdown drops
    /// by one, and the phase advances in the same tick in which the
    /// countdown reaches zero (see `spec_tick` and `spec_advance`).
    pub fn tick(&mut self)
        requires
            old(self).wf(),
        ensures
            *final(self) == spec_tick(*old(self)),
            final(self).wf(),
    {
        if !self.running {
            return ;
        }
        if self.remaining_seconds > 1 {
            self.remaining_seconds = self.remaining_seconds - 1;
            return ;
        }
        self.remaining_seconds = 0;
        match self.phase {
            Phase::Warmup => {
                self.phase = Phase::Exercise;
                self.remaining_seconds = self.definition.exercise_seconds;
            },
            Phase::Exercise => {
                if self.remaining_sets <= 1 {
                    self.remaining_sets = 0;
                    self.running = false;
                } else {
                    self.remaining_sets = self.remaining_sets - 1;
                    self.phase = Phase::Rest;
                    self.remaining_seconds = self.definition.rest_seconds;
                }
            },
            Phase::Rest => {
                self.phase = Phase::Exercise;
                self.remaining_seconds = self.definition.exercise_seconds;
            },
        }
    }
}

} // verus!
