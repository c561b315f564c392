//! Plain pixel-space value types handed to the windowing layer.

use vstd::prelude::*;

verus! {

/// A size in physical (hardware) pixels.
#[derive(Debug, Clone, Copy, PartialEq, Eq, Hash, Structural)]
pub struct PhysicalSize {
    pub width: u32,
    pub height: u32,
}

impl PhysicalSize {
    pub fn new(width: u32, height: u32) -> (r: PhysicalSize)
        ensures
            r.width == width,
            r.height == height,
    {
        PhysicalSize { width, height }
    }
}

/// A position in physical (hardware) pixels.
#[derive(Debug, Clone, Copy, PartialEq, Eq, Hash, Structural)]
pub struct PhysicalPosition {
    pub x: i32,
    pub y: i32,
}

impl PhysicalPosition {
    pub fn new(x: i32, y: i32) -> (r: PhysicalPosition)
        ensures
            r.x == x,
            r.y == y,
    {
        PhysicalPosition { x, y }
    }
}

} // verus!
