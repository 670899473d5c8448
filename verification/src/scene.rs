//! The scene state and its per-tick protocol.
//!
//! [`State`] owns everything the renderer's logic decides on: the camera,
//! the pending navigation command, the surface dimensions the projection
//! derives from, the static model matrix, the animated light-marker
//! position and the material. The floating-point evaluation itself (the
//! look-at, projection and step arithmetic) belongs to the host, which has
//! the FPU and the matrix library; the state machine here fixes what is
//! evaluated, validates what comes back, commits it, and lays the committed
//! values out in the uniform blocks.
//!
//! A tick runs in two steps, in order:
//! 1. [`State::begin_tick`] consumes the pending command and hands the host
//!    everything the frame's arithmetic starts from.
//! 2. The host evaluates the navigation step of [`TickRequest::direction`]
//!    (forward or backward by a unit step along the normalized forward
//!    vector; a pan to the new direction scaled by the forward vector's
//!    magnitude, keeping the distance to the target), the view transform
//!    from the stepped eye, the projection for the stored dimensions, the
//!    model-matrix inverse, and the light position rotated about the up
//!    axis by the tick's angle; then [`State::finish_tick`] checks the
//!    stepped eye, commits the new state and packs the uniform blocks.

use vstd::prelude::*;

use crate::SceneError;
use crate::camera::Camera;
use crate::camera::Direction;
use crate::camera::NavEvent;
use crate::camera::check_position;
use crate::camera::direction_for_key;
use crate::camera::key_direction;
use crate::camera::position_ok;
use crate::camera::scroll_direction;
use crate::light::Light;
use crate::light::light;
use crate::repr::F32_ONE;
use crate::repr::Mat4;
use crate::repr::Vec3;
use crate::repr::f32_negative;
use crate::repr::float_eq_bits;
use crate::repr::is_nan_bits;
use crate::repr::transpose_spec;
use crate::uniforms::lighting_block_bytes;
use crate::uniforms::transform_block_bytes;
use crate::uniforms::write_lighting_block;
use crate::uniforms::write_transform_block;

verus! {

/// The scene projects with a perspective transform.
pub const IS_PERSPECTIVE: bool = true;

/// Bit pattern of `5.0f32`: the starting eye height.
pub const START_EYE_Y: u32 = 0x40A0_0000;

/// Bit pattern of `-10.0f32`: the starting eye depth.
pub const START_EYE_Z: u32 = 0xC120_0000;

/// Bit pattern of `2.0f32`: each component of the light position the
/// lighting block starts with.
pub const INITIAL_LIGHT_COMPONENT: u32 = 0x4000_0000;

/// Bit pattern of `0.3f32`: the default ambient, diffuse and specular
/// intensity of the material.
pub const DEFAULT_MATERIAL_SCALAR: u32 = 0x3E99_999A;

/// Bit pattern of `32.0f32`: the default specular shininess exponent.
pub const DEFAULT_SHININESS: u32 = 0x4200_0000;

/// The camera the scene starts with: eye at (0, 5, -10), looking at the
/// world origin, with the world up axis +y.
pub open spec fn start_camera() -> Camera {
    Camera {
        position: Vec3 { x: 0, y: START_EYE_Y, z: START_EYE_Z },
        target: Vec3 { x: 0, y: 0, z: 0 },
        up: Vec3 { x: 0, y: F32_ONE, z: 0 },
    }
}

/// Everything a frame's arithmetic starts from, as handed to the host by
/// [`State::begin_tick`].
#[derive(Clone, Copy, Debug)]
pub struct TickRequest {
    /// The navigation command this tick applies, if one was pending.
    pub direction: Option<Direction>,
    /// The camera the step starts from.
    pub camera: Camera,
    /// The light-marker position the rotation starts from.
    pub light_pos: Vec3,
    /// Surface width the projection derives from.
    pub width: u32,
    /// Surface height the projection derives from.
    pub height: u32,
}

/// What the host's arithmetic produced for one tick.
#[derive(Clone, Copy, Debug)]
pub struct TickResults {
    /// The eye position after the tick's navigation step; the starting
    /// position when no command was pending.
    pub stepped_position: Vec3,
    /// Projection matrix times the view matrix of the stepped eye.
    pub projection_view: Mat4,
    /// Inverse of the model matrix, or `None` if it is singular.
    pub model_inverse: Option<Mat4>,
    /// The light-marker position after this tick's rotation.
    pub rotated_light: Vec3,
}

/// The packed uniform blocks of one committed tick, ready for upload.
#[derive(Debug)]
pub struct FrameUniforms {
    /// The 192-byte transform block: model, projection-view and normal
    /// matrix at byte offsets 0, 64 and 128.
    pub transform_block: Vec<u8>,
    /// The 32-byte lighting block: light position at byte 0, eye position
    /// at byte 16.
    pub lighting_block: Vec<u8>,
}

/// The scene state.
#[derive(Clone, Copy, Debug)]
pub struct State {
    /// The orbit camera.
    pub camera: Camera,
    /// The committed navigation command awaiting the next tick. A new
    /// command replaces any prior one; a tick consumes it unconditionally.
    pub pending: Option<Direction>,
    /// The command the running tick is applying: moved here from `pending`
    /// by [`State::begin_tick`], cleared by [`State::finish_tick`].
    pub active: Option<Direction>,
    /// Surface width in pixels; always positive.
    pub width: u32,
    /// Surface height in pixels; always positive.
    pub height: u32,
    /// The static model matrix, as the host built it at initialization.
    pub model_mat: Mat4,
    /// The animated light-marker position.
    pub light_pos: Vec3,
    /// The material parameters, written once at initialization.
    pub material: Light,
}

/// How one input event changes the state: only the pending command may
/// change; a recognized key or a scroll commits its direction and is
/// consumed; anything else is unconsumed and changes nothing.
pub open spec fn input_rel(pre: State, post: State, event: NavEvent, consumed: bool) -> bool {
    &&& post.camera == pre.camera
    &&& post.active == pre.active
    &&& post.width == pre.width
    &&& post.height == pre.height
    &&& post.model_mat == pre.model_mat
    &&& post.light_pos == pre.light_pos
    &&& post.material == pre.material
    &&& match event {
        NavEvent::Key { key, pressed } => consumed && post.pending == Some(key_direction(key)),
        NavEvent::Scroll { delta_y } => consumed && post.pending == Some(scroll_direction(delta_y)),
        NavEvent::Other => !consumed && post.pending == pre.pending,
    }
}

/// The fields a resize may touch, and how: a zero-area request changes
/// nothing; a valid request replaces the dimensions and nothing else.
pub open spec fn resize_rel(pre: State, post: State, width: u32, height: u32) -> bool {
    if width == 0 || height == 0 {
        post == pre
    } else {
        &&& post.width == width
        &&& post.height == height
        &&& post.camera == pre.camera
        &&& post.pending == pre.pending
        &&& post.active == pre.active
        &&& post.model_mat == pre.model_mat
        &&& post.light_pos == pre.light_pos
        &&& post.material == pre.material
    }
}

impl State {
    /// The state invariant: the camera is well formed.
    pub open spec fn wf(self) -> bool {
        self.camera.wf()
    }

    /// Builds the state around a given camera.
    fn make(width: u32, height: u32, model_mat: Mat4, camera: Camera) -> (s: State)
        requires
            camera.wf(),
        ensures
            s.camera == camera,
            s.pending is None,
            s.active is None,
            s.width == width,
            s.height == height,
            s.model_mat == model_mat,
            s.light_pos == camera.position,
            s.material.specular_color@ == seq![F32_ONE, F32_ONE, F32_ONE, F32_ONE],
            s.material.ambient == DEFAULT_MATERIAL_SCALAR,
            s.material.diffuse == DEFAULT_MATERIAL_SCALAR,
            s.material.specular_intensity == DEFAULT_MATERIAL_SCALAR,
            s.material.specular_shininess == DEFAULT_SHININESS,
            s.wf(),
    {
        let material = light(
            [F32_ONE, F32_ONE, F32_ONE],
            DEFAULT_MATERIAL_SCALAR,
            DEFAULT_MATERIAL_SCALAR,
            DEFAULT_MATERIAL_SCALAR,
            DEFAULT_SHININESS,
        );
        State {
            camera,
            pending: None,
            active: None,
            width,
            height,
            model_mat,
            light_pos: camera.position,
            material,
        }
    }

    /// Builds the scene at its fixed starting camera, with the light marker
    /// at the eye. The model matrix is whatever transform the host built
    /// for the scene's objects (the identity in this scene).
    pub fn new(width: u32, height: u32, model_mat: Mat4) -> (s: State)
        requires
            width > 0,
            height > 0,
        ensures
            s.camera == start_camera(),
            s.pending is None,
            s.active is None,
            s.width == width,
            s.height == height,
            s.model_mat == model_mat,
            s.light_pos == start_camera().position,
            s.material.specular_color@ == seq![F32_ONE, F32_ONE, F32_ONE, F32_ONE],
            s.material.ambient == DEFAULT_MATERIAL_SCALAR,
            s.material.diffuse == DEFAULT_MATERIAL_SCALAR,
            s.material.specular_intensity == DEFAULT_MATERIAL_SCALAR,
            s.material.specular_shininess == DEFAULT_SHININESS,
            s.wf(),
    {
        proof {
            lemma_start_camera_wf();
        }
        Self::make(
            width,
            height,
            model_mat,
            Camera {
                position: Vec3 { x: 0, y: START_EYE_Y, z: START_EYE_Z },
                target: Vec3 { x: 0, y: 0, z: 0 },
                up: Vec3 { x: 0, y: F32_ONE, z: 0 },
            },
        )
    }

    /// Builds the scene around a caller-supplied camera, rejecting a
    /// degenerate one.
    pub fn with_camera(width: u32, height: u32, model_mat: Mat4, camera: Camera) -> (r: Result<
        State,
        SceneError,
    >)
        requires
            width > 0,
            height > 0,
        ensures
            r is Ok <==> camera.wf(),
            r is Ok ==> {
                &&& r->Ok_0.camera == camera
                &&& r->Ok_0.pending is None
                &&& r->Ok_0.active is None
                &&& r->Ok_0.width == width
                &&& r->Ok_0.height == height
                &&& r->Ok_0.model_mat == model_mat
                &&& r->Ok_0.light_pos == camera.position
                &&& r->Ok_0.material.specular_color@ == seq![F32_ONE, F32_ONE, F32_ONE, F32_ONE]
                &&& r->Ok_0.material.ambient == DEFAULT_MATERIAL_SCALAR
                &&& r->Ok_0.material.diffuse == DEFAULT_MATERIAL_SCALAR
                &&& r->Ok_0.material.specular_intensity == DEFAULT_MATERIAL_SCALAR
                &&& r->Ok_0.material.specular_shininess == DEFAULT_SHININESS
                &&& r->Ok_0.wf()
            },
            r is Err ==> r->Err_0 == SceneError::DegenerateCamera,
    {
        if check_position(&camera.position, &camera.target) {
            Ok(Self::make(width, height, model_mat, camera))
        } else {
            Err(SceneError::DegenerateCamera)
        }
    }

    /// Handles one input event: a recognized key or a scroll commits its
    /// direction, replacing any command committed earlier (the last command
    /// before the next tick wins); anything else is left unconsumed and
    /// changes nothing.
    pub fn input(&mut self, event: NavEvent) -> (consumed: bool)
        ensures
            input_rel(*old(self), *final(self), event, consumed),
    {
        match event {
            NavEvent::Key { key, pressed: _ } => {
                self.pending = Some(direction_for_key(key));
                true
            },
            NavEvent::Scroll { delta_y } => {
                if f32_negative(delta_y) {
                    self.pending = Some(Direction::Backward);
                } else {
                    self.pending = Some(Direction::Forward);
                }
                true
            },
            NavEvent::Other => false,
        }
    }

    /// Applies a resize request: a request with a zero width or height is
    /// a no-op, and a valid one replaces the stored dimensions — and with
    /// them the projection, which is derived from the dimensions — leaving
    /// all other state untouched.
    pub fn resize(&mut self, width: u32, height: u32)
        ensures
            resize_rel(*old(self), *final(self), width, height),
            (width == 0 || height == 0) ==> *final(self) == *old(self),
    {
        if width > 0 && height > 0 {
            self.width = width;
            self.height = height;
        }
    }

    /// Starts a tick: consumes the pending command and returns everything
    /// the host's frame arithmetic starts from.
    pub fn begin_tick(&mut self) -> (r: TickRequest)
        ensures
            final(self).pending is None,
            final(self).active == old(self).pending,
            final(self).camera == old(self).camera,
            final(self).width == old(self).width,
            final(self).height == old(self).height,
            final(self).model_mat == old(self).model_mat,
            final(self).light_pos == old(self).light_pos,
            final(self).material == old(self).material,
            r.direction == old(self).pending,
            r.camera == old(self).camera,
            r.light_pos == old(self).light_pos,
            r.width == old(self).width,
            r.height == old(self).height,
    {
        let direction = self.pending;
        self.pending = None;
        self.active = direction;
        TickRequest {
            direction,
            camera: self.camera,
            light_pos: self.light_pos,
            width: self.width,
            height: self.height,
        }
    }

    /// Finishes a tick with the values the host's arithmetic produced.
    ///
    /// If a command was applied and moved the eye onto the target or to a
    /// NaN position, nothing is committed and the tick fails with
    /// [`SceneError::DegenerateCamera`]; if the model matrix had no
    /// inverse, nothing is committed and the tick fails with
    /// [`SceneError::SingularModel`]. Otherwise the stepped eye and rotated
    /// light are committed and the two uniform blocks are packed from the
    /// committed values: the transform block from the model matrix, the
    /// given projection-view matrix and the normal matrix (the transposed
    /// model inverse), and the lighting block from the new light and eye
    /// positions. The applied command is spent in every case.
    pub fn finish_tick(&mut self, results: TickResults) -> (r: Result<FrameUniforms, SceneError>)
        requires
            old(self).wf(),
        ensures
            final(self).active is None,
            final(self).pending == old(self).pending,
            final(self).width == old(self).width,
            final(self).height == old(self).height,
            final(self).model_mat == old(self).model_mat,
            final(self).material == old(self).material,
            final(self).camera.target == old(self).camera.target,
            final(self).camera.up == old(self).camera.up,
            ({
                let moved = old(self).active is Some;
                let newpos = if moved {
                    results.stepped_position
                } else {
                    old(self).camera.position
                };
                if moved && !position_ok(results.stepped_position@, old(self).camera.target@) {
                    &&& r is Err
                    &&& r->Err_0 == SceneError::DegenerateCamera
                    &&& final(self).camera == old(self).camera
                    &&& final(self).light_pos == old(self).light_pos
                } else if results.model_inverse is None {
                    &&& r is Err
                    &&& r->Err_0 == SceneError::SingularModel
                    &&& final(self).camera == old(self).camera
                    &&& final(self).light_pos == old(self).light_pos
                } else {
                    &&& r is Ok
                    &&& final(self).camera.position == newpos
                    &&& final(self).light_pos == results.rotated_light
                    &&& r->Ok_0.transform_block@ == transform_block_bytes(
                        old(self).model_mat@,
                        results.projection_view@,
                        transpose_spec(results.model_inverse->0@),
                    )
                    &&& r->Ok_0.lighting_block@ == lighting_block_bytes(
                        results.rotated_light@,
                        newpos@,
                    )
                }
            }),
            final(self).wf(),
    {
        let direction = self.active;
        self.active = None;
        let newpos = match direction {
            Some(_) => {
                if !check_position(&results.stepped_position, &self.camera.target) {
                    return Err(SceneError::DegenerateCamera);
                }
                results.stepped_position
            },
            None => self.camera.position,
        };
        let inv = match results.model_inverse {
            None => {
                return Err(SceneError::SingularModel);
            },
            Some(m) => m,
        };
        self.camera.position = newpos;
        self.light_pos = results.rotated_light;
        let normal = inv.transpose();
        let transform_block = write_transform_block(&self.model_mat, &results.projection_view, &normal);
        let lighting_block = write_lighting_block(&self.light_pos, &self.camera.position);
        Ok(FrameUniforms { transform_block, lighting_block })
    }

    /// Packs the lighting block the scene starts with: the fixed initial
    /// light position (2, 2, 2) and the starting eye, before any tick ran.
    pub fn initial_lighting_block(&self) -> (b: Vec<u8>)
        ensures
            b@ == lighting_block_bytes(
                (INITIAL_LIGHT_COMPONENT, INITIAL_LIGHT_COMPONENT, INITIAL_LIGHT_COMPONENT),
                self.camera.position@,
            ),
            b@.len() == 32,
    {
        let initial_light = Vec3 {
            x: INITIAL_LIGHT_COMPONENT,
            y: INITIAL_LIGHT_COMPONENT,
            z: INITIAL_LIGHT_COMPONENT,
        };
        write_lighting_block(&initial_light, &self.camera.position)
    }
}

/// The fixed starting camera satisfies the camera invariant: its eye height
/// is 5.0, which is finite and differs from the target's 0.0.
pub proof fn lemma_start_camera_wf()
    ensures
        start_camera().wf(),
{
    assert(!is_nan_bits(0u32)) by (bit_vector);
    assert(!is_nan_bits(0x40A0_0000u32)) by (bit_vector);
    assert(!is_nan_bits(0xC120_0000u32)) by (bit_vector);
    assert(!float_eq_bits(0x40A0_0000u32, 0u32)) by (bit_vector);
}

/// Law: the last command before a tick wins. After two consumed input
/// events in a row, the pending command is the later event's direction,
/// whatever the earlier event committed.
pub proof fn lemma_last_command_wins(
    s0: State,
    s1: State,
    s2: State,
    e1: NavEvent,
    e2: NavEvent,
    c1: bool,
    c2: bool,
)
    requires
        input_rel(s0, s1, e1, c1),
        input_rel(s1, s2, e2, c2),
        !(e2 is Other),
    ensures
        s2.pending == (match e2 {
            NavEvent::Key { key, pressed } => Some(key_direction(key)),
            NavEvent::Scroll { delta_y } => Some(scroll_direction(delta_y)),
            NavEvent::Other => s0.pending,
        }),
{
}

/// Law: a resize never touches the camera, the pending command, the model
/// matrix or the light, and of two successive resize requests the later
/// valid one alone determines the stored dimensions — the projection
/// derived from them is independent of what any earlier resize set.
pub proof fn lemma_resize_last_wins(
    s0: State,
    s1: State,
    s2: State,
    w1: u32,
    h1: u32,
    w2: u32,
    h2: u32,
)
    requires
        resize_rel(s0, s1, w1, h1),
        resize_rel(s1, s2, w2, h2),
        w2 > 0,
        h2 > 0,
    ensures
        s2.width == w2,
        s2.height == h2,
        s2.camera == s0.camera,
        s2.pending == s0.pending,
        s2.model_mat == s0.model_mat,
        s2.light_pos == s0.light_pos,
        s2.material == s0.material,
{
}

} // verus!
