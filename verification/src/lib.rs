//! Core of a background animation in which procedurally generated space
//! objects drift from a distant spawn point toward the camera plane and are
//! culled once they cross a near threshold.
//!
//! All world quantities are held in fixed point: one world unit (or one
//! radian, or one second) is `fx::SCALE` ticks of an `i64`. The rendering
//! host converts these plain values to whatever its own transform type needs.

pub mod fx;
pub mod randomness;
pub mod space_objects;
pub mod space_stuff;
pub mod transform;
pub mod trig;

use vstd::prelude::*;

verus! {

/// A marker component for our shapes so we can query them separately from the ground plane
pub struct Shape;

/// The two failure modes of the core: all its operations are value
/// computations, so errors surface only at configuration and setup time.
#[derive(Clone, Copy, Debug, PartialEq, Eq, Structural)]
pub enum SpaceError {
    /// A randomization range is empty or inverted (its minimum is not below
    /// its maximum); detected when a configuration is first used.
    Configuration,
    /// A non-positive field-of-view was passed to projection setup.
    Domain,
}

} // verus!
