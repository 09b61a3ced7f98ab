//! A unified error layer for a multimedia library that loads assets
//! (images, fonts, audio, serialized data) from several independent
//! subsystems, each with its own native failure type.
//!
//! Every fallible operation of the surrounding library reports failure
//! through one closed sum type, [`error::QuicksilverError`]. Each variant
//! wraps the failure of exactly one subsystem, unchanged; conversions are
//! total, keep the wrapped value lossless, and never mask which subsystem
//! failed. Callers branch on the variant tag, render a description that is
//! exactly the wrapped failure's own, or walk the cause chain down to the
//! original failure.
//!
//! Optional capabilities (sound, serialization, fonts) are modeled
//! unconditionally: their variants are always present in the taxonomy and
//! are simply never constructed by a build that lacks the capability.

use vstd::prelude::*;

pub mod error;
pub mod native;
pub mod subsystem;

verus! {

pub use crate::error::Cause;
pub use crate::error::ErrorKind;
pub use crate::error::QuicksilverError;

} // verus!
