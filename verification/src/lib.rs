//! Verified core of a small orbit-camera scene: the navigation state machine,
//! its per-tick protocol, and the byte layout of the GPU-visible uniform
//! blocks.
//!
//! Scalars are carried as IEEE-754 single-precision bit patterns (`u32`), so
//! the discrete logic around them — command handling, degeneracy guards,
//! state transitions, block layout — is verified exactly. The host owns the
//! floating-point evaluation (look-at and projection matrices, navigation
//! step arithmetic) and feeds the resulting bit patterns back through the
//! tick protocol of [`scene::State`], which validates and commits them.

pub mod camera;
pub mod light;
pub mod repr;
pub mod scene;
pub mod uniforms;

use vstd::prelude::*;

verus! {

/// Errors of the scene core.
#[derive(Clone, Copy, PartialEq, Eq, Structural, Debug)]
pub enum SceneError {
    /// The camera's eye point coincides with its look-at target, or a
    /// navigation step produced a non-finite position: the view transform
    /// would be degenerate.
    DegenerateCamera,
    /// The model matrix has no inverse, so no normal matrix can be derived
    /// from it.
    SingularModel,
}

} // verus!
