use render_harness::camera::{CameraUniforms, FxRange, OrthoCamera, transform_point};
use render_harness::math::{Vec3Fx, FX_ONE};

fn fx(units: i64) -> i64 {
    units * FX_ONE
}

fn v3(x: i64, y: i64, z: i64) -> Vec3Fx {
    Vec3Fx { x, y, z }
}

#[test]
fn identity_uniforms() {
    let u = CameraUniforms::new();
    assert_eq!(u.view.c0.x, FX_ONE);
    assert_eq!(u.view.c1.y, FX_ONE);
    assert_eq!(u.view.c2.z, FX_ONE);
    assert_eq!(u.view.c3.w, FX_ONE);
    assert_eq!(u.view.c0.y, 0);
    assert_eq!(u.view.c3.x, 0);
    assert_eq!(u.project, u.view);
}

#[test]
fn scenario_axis_aligned_camera_basis_and_translation() {
    // Camera at (0,0,5), aim (0,0,-1), up (0,1,0), aspect 1, depth 0.1..100:
    // forward (0,0,-1), right (1,0,0), up (0,1,0), view translation (0,0,-5).
    let cam = OrthoCamera::new(
        v3(0, 0, fx(5)),
        v3(0, 0, -FX_ONE),
        v3(0, FX_ONE, 0),
        FX_ONE,
        FxRange { start: 6554, end: fx(100) },
    );
    let u = cam.compute_camera_uniforms();
    // Rows of the view matrix: right, up, negated forward.
    assert_eq!((u.view.c0.x, u.view.c1.x, u.view.c2.x), (FX_ONE, 0, 0));
    assert_eq!((u.view.c0.y, u.view.c1.y, u.view.c2.y), (0, FX_ONE, 0));
    assert_eq!((u.view.c0.z, u.view.c1.z, u.view.c2.z), (0, 0, FX_ONE));
    // Translation column: (0, 0, -5).
    assert_eq!((u.view.c3.x, u.view.c3.y, u.view.c3.z), (0, 0, -fx(5)));
    assert_eq!(u.view.c3.w, FX_ONE);
}

#[test]
fn view_maps_eye_to_origin_axis_aligned() {
    let cam = OrthoCamera::new(
        v3(0, 0, fx(5)),
        v3(0, 0, -FX_ONE),
        v3(0, FX_ONE, 0),
        FX_ONE,
        FxRange { start: 6554, end: fx(100) },
    );
    let u = cam.compute_camera_uniforms();
    let eye_in_camera_space = transform_point(&u.view, &cam.position);
    assert_eq!(eye_in_camera_space.x, 0);
    assert_eq!(eye_in_camera_space.y, 0);
    assert_eq!(eye_in_camera_space.z, 0);
    assert_eq!(eye_in_camera_space.w, FX_ONE);
}

#[test]
fn view_maps_eye_to_origin_skewed_camera() {
    // An awkward camera: fractional eye, aim off every axis, and the
    // normalization quotients round. The cancellation is still exact.
    let cam = OrthoCamera::new(
        v3(fx(3) / 2, -fx(9) / 4, fx(7)),
        v3(FX_ONE / 4, -FX_ONE, FX_ONE / 2),
        v3(0, FX_ONE, 0),
        FX_ONE,
        FxRange { start: FX_ONE, end: fx(100) },
    );
    let u = cam.compute_camera_uniforms();
    let eye_in_camera_space = transform_point(&u.view, &cam.position);
    assert_eq!(eye_in_camera_space.x, 0);
    assert_eq!(eye_in_camera_space.y, 0);
    assert_eq!(eye_in_camera_space.z, 0);
    assert_eq!(eye_in_camera_space.w, FX_ONE);
}

#[test]
fn skewed_camera_basis_values() {
    let cam = OrthoCamera::new(
        v3(fx(3) / 2, -fx(9) / 4, fx(7)),
        v3(FX_ONE / 4, -FX_ONE, FX_ONE / 2),
        v3(0, FX_ONE, 0),
        FX_ONE,
        FxRange { start: FX_ONE, end: fx(100) },
    );
    let u = cam.compute_camera_uniforms();
    // Forward = normalize(aim): rounded fixed-point quotients.
    assert_eq!((u.view.c0.z, u.view.c1.z, u.view.c2.z), (-14301, 57205, -28602));
    // Right row.
    assert_eq!((u.view.c0.x, u.view.c1.x, u.view.c2.x), (-58617, 0, 29308));
    // Up row.
    assert_eq!((u.view.c0.y, u.view.c1.y, u.view.c2.y), (25582, 31977, 51165));
}

#[test]
fn projection_round_trip_known_point() {
    // Camera at the origin aiming down -z with up (0,1,0), aspect 1,
    // depth 1..2: the world point (0.5, 0.5, -1.5) lands at clip
    // coordinates (0.5, 0.5, 0.5).
    let cam = OrthoCamera::new(
        v3(0, 0, 0),
        v3(0, 0, -FX_ONE),
        v3(0, FX_ONE, 0),
        FX_ONE,
        FxRange { start: FX_ONE, end: fx(2) },
    );
    let u = cam.compute_camera_uniforms();
    let world = v3(FX_ONE / 2, FX_ONE / 2, -3 * FX_ONE / 2);
    let in_camera = transform_point(&u.view, &world);
    assert_eq!((in_camera.x, in_camera.y, in_camera.z, in_camera.w), (
        FX_ONE / 2,
        FX_ONE / 2,
        -3 * FX_ONE / 2,
        FX_ONE,
    ));
    let clip = transform_point(&u.project, &v3(in_camera.x, in_camera.y, in_camera.z));
    assert_eq!((clip.x, clip.y, clip.z, clip.w), (FX_ONE / 2, FX_ONE / 2, FX_ONE / 2, FX_ONE));
}

#[test]
fn projection_entries_aspect_and_depth() {
    // aspect 2, depth 1..2: vertical scale 1/2, depth scale -1, depth
    // translation -1.
    let cam = OrthoCamera::new(
        v3(0, 0, 0),
        v3(0, 0, -FX_ONE),
        v3(0, FX_ONE, 0),
        fx(2),
        FxRange { start: FX_ONE, end: fx(2) },
    );
    let u = cam.compute_camera_uniforms();
    assert_eq!(u.project.c0.x, FX_ONE);
    assert_eq!(u.project.c1.y, FX_ONE / 2);
    assert_eq!(u.project.c2.z, -FX_ONE);
    assert_eq!(u.project.c3.z, -FX_ONE);
    assert_eq!(u.project.c3.w, FX_ONE);
}
