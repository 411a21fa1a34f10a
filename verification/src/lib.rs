//! Verified decision logic of a natural-gas PVT and wellbore-pressure engine.
//!
//! Quantities are IEEE-754 binary64 values carried as their bit patterns; the
//! library decides on them (classification, ordering, equation branch,
//! iteration schedules, segment activity) and leaves the arithmetic to its
//! caller.

pub mod binary64;
pub mod boundary;
pub mod iteration;
pub mod wellbore;
pub mod zfactor;
