//! Queue-family selection result of the rendering engine.

use vstd::prelude::*;

verus! {

/// Indices of the queue families picked for graphics and presentation;
/// `-1` marks a family not found yet.
#[derive(Clone, Copy, Debug, PartialEq, Eq)]
pub struct QueueFamilyIndices {
    pub graphics_family: i32,
    pub present_family: i32,
}

impl QueueFamilyIndices {
    pub fn new() -> (r: Self)
        ensures
            r.graphics_family == -1,
            r.present_family == -1,
    {
        Self { graphics_family: -1, present_family: -1 }
    }

    /// Both a graphics and a presentation family have been found.
    pub fn is_complete(&self) -> (r: bool)
        ensures
            r == (self.graphics_family >= 0 && self.present_family >= 0),
    {
        self.graphics_family >= 0 && self.present_family >= 0
    }
}

} // verus!
