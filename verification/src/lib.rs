//! Classifier for a bank of momentary push-button switches.
//!
//! A stream of periodic boolean sample vectors (one flag per switch, closed
//! while pressed) is classified into press-release and long-press events,
//! and each recognized event cycles a small integer output level through its
//! configured number of states. Ambiguous samples (several switches closed
//! at once) are reported as a fault, never guessed at.

pub mod controller;
pub mod indicators;
pub mod laws;
pub mod model;

pub use controller::MomentaryController;
pub use indicators::IndicatorController;
pub use model::ConfigError;
pub use model::Fault;
pub use model::SwitchState;
