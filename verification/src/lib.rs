//! Verified core of a GPU rendering-and-presentation adapter for a display
//! driven at the kernel mode-setting level, without a windowing system.
//!
//! The crate proves the decision logic of the adapter: geometry validation,
//! deterministic selection of a rendering configuration, the ordered
//! construction of the GL context with its version fallback, the per-frame
//! cycle (callback registration before drawing, swap before present), the
//! readiness protocol around page flips, and the rotation transforms.
//! The native graphics calls themselves stand behind narrow trusted
//! wrappers over `glutin`; everything that decides is verified.

use vstd::prelude::*;

pub mod adapter;
pub mod builder;
pub mod context;
pub mod decimal;
pub mod error;
pub mod frame;
pub mod gl_config;
pub mod preview;
pub mod rotation;

verus! {

/// Pixel dimensions of the fixed display surface, in physical pixels.
#[derive(Clone, Copy, Debug, PartialEq, Eq, Structural)]
pub struct PhysicalSize {
    pub width: u32,
    pub height: u32,
}

impl PhysicalSize {
    pub fn new(width: u32, height: u32) -> (s: PhysicalSize)
        ensures
            s.width == width,
            s.height == height,
    {
        PhysicalSize { width, height }
    }
}

} // verus!
