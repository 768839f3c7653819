//! The scene snapshot the renderer reads each frame.

use vstd::prelude::*;

use crate::figure::FigureSet;
use crate::lights::Light;

verus! {

/// Error raised by the asset loader when a mesh source cannot be read.
#[derive(Clone, Copy, Debug, PartialEq, Eq)]
pub enum LoadingError {
    Ooops,
}

/// A momentary snapshot of the scene: the authored figures, the light list
/// and the revision id that governs cache reuse.
///
/// The renderer never mutates a scene.  Callers must bump
/// `global_scene_id` whenever the content changes; an unchanged id is a
/// promise that the figures are unchanged too.
#[derive(Clone, Debug, PartialEq)]
pub struct Scene {
    pub figures: Vec<FigureSet>,
    pub global_scene_id: u32,
    pub lights: Vec<Light>,
}

impl Scene {
    /// Builds a scene at the initial revision.
    pub fn create(figures: Vec<FigureSet>, lights: Vec<Light>) -> (r: Self)
        ensures
            r.figures == figures,
            r.lights == lights,
            r.global_scene_id == 1,
    {
        Self { figures, global_scene_id: 1, lights }
    }
}

} // verus!
