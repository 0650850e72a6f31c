//! A phase-shifting rhythmic composition engine.
//!
//! One fixed pattern of accented and silent beats is played by two voices at
//! once. The first voice keeps the pattern as written; the second is the
//! pattern rotated right by a phase amount that steps through every position
//! of the pattern in turn, so the voices drift apart and come back to unison.
//! Each beat sounds a fixed triad per accenting voice — both layered when
//! both accent, nothing on a rest — as note trigger and release messages
//! around a timed hold, with a slower, louder final pair of beats to close.
//!
//! The engine here is pure: it renders beats, cycles and the whole piece as
//! data, and a step-driven performance hands one beat at a time to whatever
//! delivers the messages and observes the holds. Delivery failure is fatal
//! by design — a lost release would hang a note — so once a failure is
//! reported, the performance issues nothing further.

pub mod chord;
pub mod driver;
pub mod midi;
pub mod pattern;
pub mod performance;
pub mod pitch;
pub mod sequencer;
