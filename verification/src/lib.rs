//! Orchestration layer for a two-stage rendering pipeline: a low-resolution
//! compute pass (raytracer) writing an offscreen image, followed by a
//! full-resolution graphics pass (postprocess) that upscales it onto the
//! presentation surface.
//!
//! The library models the GPU-facing state as plain data: surface
//! configuration records, binding-layout and pipeline descriptors, and
//! per-frame command plans. A thin unverified shell translates these values
//! into driver calls and feeds window events back in.

use vstd::prelude::*;

pub mod canvas;
pub mod label;
pub mod pipeline;

verus! {

/// A two-dimensional extent in pixels.
#[derive(Clone, Copy, PartialEq, Eq, Structural, Debug)]
pub struct Size2D {
    pub width: u32,
    pub height: u32,
}

impl Size2D {
    /// True when both dimensions are nonzero, i.e. the size describes a
    /// presentable area.
    pub open spec fn is_nonzero(self) -> bool {
        self.width > 0 && self.height > 0
    }

    pub fn new(width: u32, height: u32) -> (r: Size2D)
        ensures
            r.width == width,
            r.height == height,
    {
        Size2D { width, height }
    }
}

} // verus!
