//! A frequency-locking "gearbox" controller.
//!
//! The controller drives an output frequency at a fixed 5:1 multiple of an
//! observed input frequency while ramping a continuous lock-quality metric
//! toward a saturation ceiling. An authenticated override forces an idealized
//! perfect-lock state that no later operation can undo.
//!
//! All continuous quantities are held in fixed point: lock quality in
//! hundredths of its unit scale, gains in thousandths, and frequencies in
//! whatever fixed-point scale the caller chooses (the 5:1 tracking law is
//! scale-invariant).

pub mod gearbox;
pub mod laws;

pub use gearbox::GearStatus;
pub use gearbox::HarmonicGearbox;
