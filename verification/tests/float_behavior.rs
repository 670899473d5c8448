//! Floating-point behavior of the scene, exercised the way a host drives
//! it: the tests play the host's role, evaluating the navigation step,
//! view, projection and light rotation with `cgmath` and feeding the bit
//! patterns through the tick protocol.

use cgmath::{Deg, EuclideanSpace, InnerSpace, Matrix4, Point3, Quaternion, Rotation, Rotation3, SquareMatrix, Vector3};
use orbit_scene::camera::{Camera, Direction, NavEvent, NavKey};
use orbit_scene::light::ANIMATION_SPEED_BITS;
use orbit_scene::repr::{Mat4, Vec3};
use orbit_scene::scene::{FrameUniforms, State, TickResults, IS_PERSPECTIVE};

fn point_of(v: Vec3) -> Point3<f32> {
    Point3::new(f32::from_bits(v.x), f32::from_bits(v.y), f32::from_bits(v.z))
}

fn vector_of(v: Vec3) -> Vector3<f32> {
    Vector3::new(f32::from_bits(v.x), f32::from_bits(v.y), f32::from_bits(v.z))
}

fn bits_of_point(p: Point3<f32>) -> Vec3 {
    Vec3 { x: p.x.to_bits(), y: p.y.to_bits(), z: p.z.to_bits() }
}

fn bits_of_mat(m: Matrix4<f32>) -> Mat4 {
    let a: &[f32; 16] = m.as_ref();
    let mut w = [0u32; 16];
    for i in 0..16 {
        w[i] = a[i].to_bits();
    }
    Mat4 { m: w }
}

fn mat_of_bits(m: &Mat4) -> Matrix4<f32> {
    let mut a = [0.0f32; 16];
    for i in 0..16 {
        a[i] = f32::from_bits(m.m[i]);
    }
    let r: &Matrix4<f32> = (&a).into();
    *r
}

/// The navigation step formulas: a unit dolly along the normalized forward
/// vector, or an orbit to the renormalized new direction scaled by the
/// forward vector's magnitude.
fn step(camera: &Camera, direction: Direction) -> Point3<f32> {
    let position = point_of(camera.position);
    let target = point_of(camera.target);
    let up = vector_of(camera.up);
    let forward = target - position;
    match direction {
        Direction::Forward => position + forward.normalize(),
        Direction::Backward => position - forward.normalize(),
        Direction::PanUp => target + (-forward + up).normalize() * forward.magnitude(),
        Direction::PanDown => target + (-forward - up).normalize() * forward.magnitude(),
        Direction::PanLeft => {
            target + (-forward - forward.normalize().cross(up)).normalize() * forward.magnitude()
        }
        Direction::PanRight => {
            target + (-forward + forward.normalize().cross(up)).normalize() * forward.magnitude()
        }
    }
}

/// The projection for the stored dimensions: a fixed-field-of-view
/// perspective (or a fixed orthographic box), adapted from the OpenGL depth
/// range to the half-depth range the surface expects.
fn projection(width: u32, height: u32) -> Matrix4<f32> {
    let aspect = width as f32 / height as f32;
    let correction = Matrix4::new(
        1.0, 0.0, 0.0, 0.0,
        0.0, 1.0, 0.0, 0.0,
        0.0, 0.0, 0.5, 0.0,
        0.0, 0.0, 0.5, 1.0,
    );
    if IS_PERSPECTIVE {
        correction
            * cgmath::perspective(cgmath::Rad(2.0 * std::f32::consts::PI / 5.0), aspect, 0.1, 100.0)
    } else {
        correction * cgmath::ortho(-4.0, 4.0, -3.0, 3.0, -1.0, 6.0)
    }
}

/// Plays the host's part of one tick.
fn run_tick(s: &mut State, dt_secs: f32) -> FrameUniforms {
    let req = s.begin_tick();
    let stepped = match req.direction {
        Some(d) => bits_of_point(step(&req.camera, d)),
        None => req.camera.position,
    };
    let view = Matrix4::look_at_rh(point_of(stepped), point_of(req.camera.target), vector_of(req.camera.up));
    let pv = projection(req.width, req.height) * view;
    let model = mat_of_bits(&s.model_mat);
    let angle = f32::from_bits(ANIMATION_SPEED_BITS) * dt_secs;
    let q = Quaternion::from_axis_angle(Vector3::unit_y(), Deg(angle));
    let rotated = q.rotate_point(point_of(req.light_pos));
    s.finish_tick(TickResults {
        stepped_position: stepped,
        projection_view: bits_of_mat(pv),
        model_inverse: model.invert().map(|m| bits_of_mat(m)),
        rotated_light: bits_of_point(rotated),
    })
    .expect("tick")
}

fn fresh_state() -> State {
    State::new(800, 600, bits_of_mat(Matrix4::identity()))
}

fn press(s: &mut State, key: NavKey) {
    assert!(s.input(NavEvent::Key { key, pressed: true }));
}

#[test]
fn forward_step_scenario() {
    // From (0, 5, -10) toward the origin, one forward step moves along the
    // normalized (0, -5, 10), to about (0, 4.553, -9.106).
    let mut s = fresh_state();
    press(&mut s, NavKey::Space);
    run_tick(&mut s, 0.016);
    let p = point_of(s.camera.position);
    assert!((p.x - 0.0).abs() < 1e-3);
    assert!((p.y - 4.553).abs() < 1e-3);
    assert!((p.z - -9.106).abs() < 1e-3);
    // And it is exactly the step formula's result, bit for bit.
    let expected = Point3::new(0.0f32, 5.0, -10.0)
        + (Point3::new(0.0f32, 0.0, 0.0) - Point3::new(0.0f32, 5.0, -10.0)).normalize();
    assert_eq!(s.camera.position, bits_of_point(expected));
}

#[test]
fn forward_then_backward_returns() {
    let mut s = fresh_state();
    let start = point_of(s.camera.position);
    press(&mut s, NavKey::Space);
    run_tick(&mut s, 0.016);
    press(&mut s, NavKey::LeftShift);
    run_tick(&mut s, 0.016);
    let p = point_of(s.camera.position);
    assert!((p.x - start.x).abs() < 1e-5);
    assert!((p.y - start.y).abs() < 1e-5);
    assert!((p.z - start.z).abs() < 1e-5);
}

#[test]
fn pan_left_then_right_keeps_radius() {
    let mut s = fresh_state();
    let target = point_of(s.camera.target);
    let start_radius = (point_of(s.camera.position) - target).magnitude();
    press(&mut s, NavKey::KeyA);
    run_tick(&mut s, 0.016);
    let mid_radius = (point_of(s.camera.position) - target).magnitude();
    assert!((mid_radius - start_radius).abs() < 1e-4);
    press(&mut s, NavKey::KeyD);
    run_tick(&mut s, 0.016);
    let end_radius = (point_of(s.camera.position) - target).magnitude();
    assert!((end_radius - start_radius).abs() < 1e-4);
}

#[test]
fn pan_up_then_down_keeps_radius() {
    let mut s = fresh_state();
    let target = point_of(s.camera.target);
    let start_radius = (point_of(s.camera.position) - target).magnitude();
    press(&mut s, NavKey::KeyW);
    run_tick(&mut s, 0.016);
    assert!(((point_of(s.camera.position) - target).magnitude() - start_radius).abs() < 1e-4);
    press(&mut s, NavKey::KeyS);
    run_tick(&mut s, 0.016);
    assert!(((point_of(s.camera.position) - target).magnitude() - start_radius).abs() < 1e-4);
}

#[test]
fn dolly_changes_orbit_radius() {
    // The dolly/orbit asymmetry: a forward step shrinks the radius that the
    // next orbit preserves.
    let mut s = fresh_state();
    let target = point_of(s.camera.target);
    let start_radius = (point_of(s.camera.position) - target).magnitude();
    press(&mut s, NavKey::Space);
    run_tick(&mut s, 0.016);
    let after_dolly = (point_of(s.camera.position) - target).magnitude();
    assert!((after_dolly - (start_radius - 1.0)).abs() < 1e-4);
    press(&mut s, NavKey::KeyA);
    run_tick(&mut s, 0.016);
    let after_pan = (point_of(s.camera.position) - target).magnitude();
    assert!((after_pan - after_dolly).abs() < 1e-4);
}

#[test]
fn view_transform_recovers_camera_axes() {
    // For cameras with distinct eye and target, the inverse of the view
    // matrix carries the camera's orthonormal local frame in its columns
    // and the eye in its translation column.
    let cases = [
        (Point3::new(0.0f32, 5.0, -10.0), Point3::new(0.0f32, 0.0, 0.0), Vector3::unit_y()),
        (Point3::new(3.0f32, 1.5, 3.0), Point3::new(0.0f32, 0.0, 0.0), Vector3::unit_y()),
        (Point3::new(-2.0f32, 4.0, 1.0), Point3::new(1.0f32, 0.5, -1.0), Vector3::unit_y()),
    ];
    for (eye, target, up) in cases {
        let view = Matrix4::look_at_rh(eye, target, up);
        let inv = view.invert().expect("view is invertible");
        let right = inv.x.truncate();
        let cam_up = inv.y.truncate();
        let back = inv.z.truncate();
        // Orthonormal basis...
        assert!((right.magnitude() - 1.0).abs() < 1e-4);
        assert!((cam_up.magnitude() - 1.0).abs() < 1e-4);
        assert!((back.magnitude() - 1.0).abs() < 1e-4);
        assert!(right.dot(cam_up).abs() < 1e-4);
        assert!(right.dot(back).abs() < 1e-4);
        assert!(cam_up.dot(back).abs() < 1e-4);
        // ...whose third axis opposes the viewing direction, and whose
        // origin is the eye.
        let forward = (target - eye).normalize();
        assert!((back + forward).magnitude() < 1e-4);
        let origin = inv.w.truncate();
        assert!((origin - eye.to_vec()).magnitude() < 1e-4);
    }
}

#[test]
fn light_orbits_at_constant_radius() {
    // After N ticks of a fixed duration, the light has turned about the up
    // axis by N * speed * dt degrees, on a circle of unchanged radius.
    let mut s = fresh_state();
    let start = point_of(s.light_pos);
    let start_radius = (start.x * start.x + start.z * start.z).sqrt();
    let dt_secs = 250.0f32;
    let n = 12u32;
    for _ in 0..n {
        run_tick(&mut s, dt_secs);
    }
    let end = point_of(s.light_pos);
    assert!((end.y - start.y).abs() < 1e-4);
    let end_radius = (end.x * end.x + end.z * end.z).sqrt();
    assert!((end_radius - start_radius).abs() < 1e-3);
    let speed = f32::from_bits(ANIMATION_SPEED_BITS);
    let expected_turn = (n as f32) * speed * dt_secs;
    // Rotating about +y turns the xz-plane angle measured from +x toward -z.
    let start_angle = (-start.z).atan2(start.x).to_degrees();
    let end_angle = (-end.z).atan2(end.x).to_degrees();
    let mut turned = end_angle - start_angle;
    while turned < 0.0 {
        turned += 360.0;
    }
    assert!((turned - expected_turn % 360.0).abs() < 0.1);
}

#[test]
fn tick_uniforms_reflect_committed_state() {
    let mut s = fresh_state();
    press(&mut s, NavKey::Space);
    let u = run_tick(&mut s, 0.016);
    assert_eq!(u.transform_block.len(), 192);
    assert_eq!(u.lighting_block.len(), 32);
    // The lighting block carries the committed light position at byte 0 and
    // the committed (stepped) eye at byte 16.
    assert_eq!(&u.lighting_block[0..4], &s.light_pos.x.to_le_bytes());
    assert_eq!(&u.lighting_block[4..8], &s.light_pos.y.to_le_bytes());
    assert_eq!(&u.lighting_block[8..12], &s.light_pos.z.to_le_bytes());
    assert_eq!(&u.lighting_block[16..20], &s.camera.position.x.to_le_bytes());
    assert_eq!(&u.lighting_block[20..24], &s.camera.position.y.to_le_bytes());
    assert_eq!(&u.lighting_block[24..28], &s.camera.position.z.to_le_bytes());
    // The model matrix is the identity, so the normal matrix at byte 128 is
    // the identity again; its first entry is 1.0.
    assert_eq!(&u.transform_block[0..4], &1.0f32.to_le_bytes());
    assert_eq!(&u.transform_block[128..132], &1.0f32.to_le_bytes());
    // The projection-view matrix lands at byte 64 exactly as computed.
    let view = Matrix4::look_at_rh(
        point_of(s.camera.position),
        point_of(s.camera.target),
        vector_of(s.camera.up),
    );
    let pv = bits_of_mat(projection(s.width, s.height) * view);
    for i in 0..16 {
        let at = 64 + 4 * i;
        assert_eq!(&u.transform_block[at..at + 4], &pv.m[i].to_le_bytes());
    }
}

#[test]
fn projection_aspect_tracks_latest_resize() {
    // After resizing to (800, 600) and then (1600, 900), the projection the
    // host derives from the stored dimensions has aspect ratio 1600/900.
    let mut s = fresh_state();
    s.resize(800, 600);
    s.resize(1600, 900);
    let p = projection(s.width, s.height);
    let aspect = p.y.y / p.x.x;
    assert!((aspect - 1600.0 / 900.0).abs() < 1e-5);
    // A zero-area request in between changes nothing about the result.
    let mut s2 = fresh_state();
    s2.resize(800, 600);
    s2.resize(0, 0);
    s2.resize(1600, 900);
    let p2 = projection(s2.width, s2.height);
    let a: &[f32; 16] = p.as_ref();
    let b: &[f32; 16] = p2.as_ref();
    for i in 0..16 {
        assert_eq!(a[i].to_bits(), b[i].to_bits());
    }
}
