//! The immutable description of one exercise protocol: how long each phase
//! lasts and how many sets are run.

use vstd::prelude::*;

verus! {

/// Why a proposed exercise definition was rejected.
#[derive(Clone, Copy, Debug, PartialEq, Eq, Structural)]
pub enum DefinitionError {
    /// A zero-length exercise phase is meaningless.
    ZeroExerciseSeconds,
    /// A protocol must have at least one set.
    ZeroSets,
}

/// An immutable record of warm-up, exercise and rest durations (in seconds)
/// and the number of sets.  Warm-up and rest may be zero; the exercise
/// duration and the set count may not.
#[derive(Clone, Copy, Debug, PartialEq, Eq, Structural)]
pub struct ExerciseDefinition {
    pub warmup_seconds: u32,
    pub exercise_seconds: u32,
    pub rest_seconds: u32,
    pub sets: u32,
}

impl ExerciseDefinition {
    /// A definition is well formed when the exercise phase has a positive
    /// length and there is at least one set.
    pub open spec fn wf(self) -> bool {
        self.exercise_seconds >= 1 && self.sets >= 1
    }

    /// Builds a definition, rejecting a zero exercise duration or a zero
    /// set count at construction time.
    pub fn new(warmup_seconds: u32, exercise_seconds: u32, rest_seconds: u32, sets: u32) -> (r:
        Result<ExerciseDefinition, DefinitionError>)
        ensures
            exercise_seconds == 0 ==> r == Err::<ExerciseDefinition, DefinitionError>(
                DefinitionError::ZeroExerciseSeconds,
            ),
            exercise_seconds >= 1 && sets == 0 ==> r == Err::<ExerciseDefinition, DefinitionError>(
                DefinitionError::ZeroSets,
            ),
            exercise_seconds >= 1 && sets >= 1 ==> r == Ok::<ExerciseDefinition, DefinitionError>(
                ExerciseDefinition { warmup_seconds, exercise_seconds, rest_seconds, sets },
            ),
            r matches Ok(d) ==> d.wf(),
    {
        if exercise_seconds == 0 {
            Err(DefinitionError::ZeroExerciseSeconds)
        } else if sets == 0 {
            Err(DefinitionError::ZeroSets)
        } else {
            Ok(ExerciseDefinition { warmup_seconds, exercise_seconds, rest_seconds, sets })
        }
    }
}

} // verus!
