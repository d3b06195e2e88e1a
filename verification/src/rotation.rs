//! Display rotation: quarter turns and the translation that keeps the
//! rotated content within the physical surface bounds.

use vstd::prelude::*;
use crate::PhysicalSize;

verus! {

/// The fixed rotation of the display output. Display rotation is a
/// hardware or configuration property, so only quarter turns exist.
#[derive(Clone, Copy, Debug, PartialEq, Eq, Structural)]
pub enum RenderingRotation {
    NoRotation,
    Rotate90,
    Rotate180,
    Rotate270,
}

/// The rotation expressed in degrees.
pub open spec fn spec_degrees(r: RenderingRotation) -> u32 {
    match r {
        RenderingRotation::NoRotation => 0,
        RenderingRotation::Rotate90 => 90,
        RenderingRotation::Rotate180 => 180,
        RenderingRotation::Rotate270 => 270,
    }
}

/// The translation handed to the renderer together with the rotation, so
/// that the rotated content lands within the physical surface bounds.
pub open spec fn spec_translation(r: RenderingRotation, size: PhysicalSize) -> (u32, u32) {
    match r {
        RenderingRotation::NoRotation => (0u32, 0u32),
        RenderingRotation::Rotate90 => (size.width, 0u32),
        RenderingRotation::Rotate180 => (size.width, size.height),
        RenderingRotation::Rotate270 => (0u32, size.height),
    }
}

/// The size of the logical drawing area the scene is laid out in: the
/// physical size, with the axes swapped for quarter turns.
pub open spec fn spec_logical_size(r: RenderingRotation, size: PhysicalSize) -> (u32, u32) {
    match r {
        RenderingRotation::NoRotation => (size.width, size.height),
        RenderingRotation::Rotate90 => (size.height, size.width),
        RenderingRotation::Rotate180 => (size.width, size.height),
        RenderingRotation::Rotate270 => (size.height, size.width),
    }
}

/// Where a point of the logical drawing area lands on the physical
/// surface: the quarter turn about the origin, y axis downward, followed
/// by the translation of `spec_translation`.
pub open spec fn spec_apply(r: RenderingRotation, size: PhysicalSize, x: int, y: int) -> (int, int) {
    match r {
        RenderingRotation::NoRotation => (x, y),
        RenderingRotation::Rotate90 => (size.width - y, x),
        RenderingRotation::Rotate180 => (size.width - x, size.height - y),
        RenderingRotation::Rotate270 => (y, size.height - x),
    }
}

impl RenderingRotation {
    /// The rotation in degrees: one of 0, 90, 180 and 270.
    pub fn degrees(&self) -> (d: u32)
        ensures
            d == spec_degrees(*self),
    {
        match self {
            RenderingRotation::NoRotation => 0,
            RenderingRotation::Rotate90 => 90,
            RenderingRotation::Rotate180 => 180,
            RenderingRotation::Rotate270 => 270,
        }
    }

    /// The translation to apply after rotating, so content remains
    /// correctly positioned within the physical surface bounds.
    pub fn translation_after_rotation(&self, size: PhysicalSize) -> (t: (u32, u32))
        ensures
            t == spec_translation(*self, size),
    {
        match self {
            RenderingRotation::NoRotation => (0, 0),
            RenderingRotation::Rotate90 => (size.width, 0),
            RenderingRotation::Rotate180 => (size.width, size.height),
            RenderingRotation::Rotate270 => (0, size.height),
        }
    }
}

/// A rotation of zero degrees is the identity transform: no translation
/// offset, and every point stays where it is.
pub proof fn lemma_no_rotation_identity(size: PhysicalSize, x: int, y: int)
    ensures
        spec_translation(RenderingRotation::NoRotation, size) == (0u32, 0u32),
        spec_apply(RenderingRotation::NoRotation, size, x, y) == (x, y),
{
}

/// Every point of the logical drawing area lands within the original
/// physical surface bounds, for every quarter turn.
pub proof fn lemma_rotation_keeps_content_in_bounds(
    r: RenderingRotation,
    size: PhysicalSize,
    x: int,
    y: int,
)
    requires
        0 <= x <= spec_logical_size(r, size).0,
        0 <= y <= spec_logical_size(r, size).1,
    ensures
        0 <= spec_apply(r, size, x, y).0 <= size.width,
        0 <= spec_apply(r, size, x, y).1 <= size.height,
{
}

} // verus!
