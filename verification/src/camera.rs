//! The orbit camera and its discrete navigation commands.
//!
//! The camera holds an eye position, a look-at target and a world up axis.
//! Its one invariant is that the eye never coincides with the target (as
//! floats): the forward vector of the view transform must be non-zero. A
//! navigation command is a single direction; the input mapping from keys
//! and scroll events to directions lives here too.

use vstd::prelude::*;

use crate::SceneError;
use crate::repr::Vec3;
use crate::repr::is_negative_bits;
use crate::repr::vec3_eq;
use crate::repr::vec3_float_eq;
use crate::repr::vec3_has_nan;
use crate::repr::vec3_nan;

verus! {

/// One committed navigation command: a dolly along the view axis, or an
/// orbit that keeps the distance to the target.
#[derive(Clone, Copy, PartialEq, Eq, Structural, Debug)]
pub enum Direction {
    /// Dolly one unit step toward the target.
    Forward,
    /// Dolly one unit step away from the target.
    Backward,
    /// Orbit toward the up axis.
    PanUp,
    /// Orbit away from the up axis.
    PanDown,
    /// Orbit to the left of the view direction.
    PanLeft,
    /// Orbit to the right of the view direction.
    PanRight,
}

/// A key the navigation consumes.
#[derive(Clone, Copy, PartialEq, Eq, Structural, Debug)]
pub enum NavKey {
    /// Space bar.
    Space,
    /// Left shift.
    LeftShift,
    /// The letter W.
    KeyW,
    /// The letter A.
    KeyA,
    /// The letter S.
    KeyS,
    /// The letter D.
    KeyD,
    /// Up arrow.
    ArrowUp,
    /// Down arrow.
    ArrowDown,
    /// Left arrow.
    ArrowLeft,
    /// Right arrow.
    ArrowRight,
}

/// An input event as the host hands it to the scene: a key event carrying
/// one of the recognized keys, a scroll-wheel event carrying the vertical
/// delta as an IEEE-754 bit pattern, or anything else.
#[derive(Clone, Copy, PartialEq, Eq, Structural, Debug)]
pub enum NavEvent {
    /// A key press or release of a recognized key. Press and release both
    /// commit the key's direction.
    Key {
        /// The recognized key.
        key: NavKey,
        /// Whether the key went down; the mapping does not depend on it.
        pressed: bool,
    },
    /// A scroll-wheel line delta; only the vertical component matters.
    Scroll {
        /// Bit pattern of the vertical scroll amount.
        delta_y: u32,
    },
    /// Any event the navigation does not consume.
    Other,
}

/// The direction a recognized key commits.
pub open spec fn key_direction(key: NavKey) -> Direction {
    match key {
        NavKey::Space => Direction::Forward,
        NavKey::LeftShift => Direction::Backward,
        NavKey::KeyW | NavKey::ArrowUp => Direction::PanUp,
        NavKey::KeyA | NavKey::ArrowLeft => Direction::PanLeft,
        NavKey::KeyS | NavKey::ArrowDown => Direction::PanDown,
        NavKey::KeyD | NavKey::ArrowRight => Direction::PanRight,
    }
}

/// The direction a scroll delta commits: backward when scrolling down
/// (strictly negative delta), forward otherwise.
pub open spec fn scroll_direction(delta_y: u32) -> Direction {
    if is_negative_bits(delta_y) {
        Direction::Backward
    } else {
        Direction::Forward
    }
}

/// Decides [`key_direction`].
pub fn direction_for_key(key: NavKey) -> (d: Direction)
    ensures
        d == key_direction(key),
{
    match key {
        NavKey::Space => Direction::Forward,
        NavKey::LeftShift => Direction::Backward,
        NavKey::KeyW | NavKey::ArrowUp => Direction::PanUp,
        NavKey::KeyA | NavKey::ArrowLeft => Direction::PanLeft,
        NavKey::KeyS | NavKey::ArrowDown => Direction::PanDown,
        NavKey::KeyD | NavKey::ArrowRight => Direction::PanRight,
    }
}

/// A candidate eye position is acceptable against a target: no component is
/// NaN, and it does not coincide with the target as floats.
pub open spec fn position_ok(position: (u32, u32, u32), target: (u32, u32, u32)) -> bool {
    !vec3_has_nan(position) && !vec3_float_eq(position, target)
}

/// Decides [`position_ok`].
pub fn check_position(position: &Vec3, target: &Vec3) -> (r: bool)
    ensures
        r == position_ok(position@, target@),
{
    !vec3_nan(position) && !vec3_eq(position, target)
}

/// The orbit camera: eye position, look-at target, world up axis, each a
/// triple of IEEE-754 bit patterns.
#[derive(Clone, Copy, PartialEq, Eq, Structural, Debug)]
pub struct Camera {
    /// Eye position.
    pub position: Vec3,
    /// Look-at target.
    pub target: Vec3,
    /// World up axis.
    pub up: Vec3,
}

impl Camera {
    /// The camera invariant: the eye is finite and off the target, so the
    /// forward vector is non-zero and the view transform is well defined.
    pub open spec fn wf(self) -> bool {
        position_ok(self.position@, self.target@)
    }

    /// Builds a camera, rejecting a degenerate eye/target pair.
    pub fn new(position: Vec3, target: Vec3, up: Vec3) -> (r: Result<Camera, SceneError>)
        ensures
            r is Ok <==> position_ok(position@, target@),
            r is Ok ==> r->Ok_0 == (Camera { position, target, up }) && r->Ok_0.wf(),
            r is Err ==> r->Err_0 == SceneError::DegenerateCamera,
    {
        if check_position(&position, &target) {
            Ok(Camera { position, target, up })
        } else {
            Err(SceneError::DegenerateCamera)
        }
    }
}

} // verus!
