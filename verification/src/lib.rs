//! A verified core for a high-intensity interval training assistant.
//!
//! The library owns the interval timer state machine: the current phase
//! (warm-up, exercise or rest), the countdown within the phase, the number
//! of sets still to go, and the running flag.  It advances on tick events
//! (one per elapsed second) and reacts to start, stop and reset commands.
//! Rendering, persistence, audio cues and the periodic tick source are
//! collaborators outside the library; they drive it through the commands
//! and read it through snapshots.

pub mod definition;
pub mod laws;
pub mod timer;

pub use definition::DefinitionError;
pub use definition::ExerciseDefinition;
pub use timer::IntervalTimer;
pub use timer::Phase;
pub use timer::TimerSnapshot;
