use ggez_3d::camera::{
    Camera, CameraBundle, CameraUniform, Projection, CAMERA_UNIFORM_SIZE, DEFAULT_ASPECT,
    DEFAULT_FOVY, DEFAULT_ZFAR, DEFAULT_ZNEAR,
};
use ggez_3d::scalar::{mat4_identity, Mat4, Vector3, ONE, ZERO};

fn float_ratio(width: u32, height: u32) -> u32 {
    (f32::from_bits(width) / f32::from_bits(height)).to_bits()
}

fn ratio(width: u32, height: u32) -> u32 {
    (width as f32 / height as f32).to_bits()
}

fn bits_of(m: glam::Mat4) -> Mat4 {
    let cols = m.to_cols_array_2d();
    let mut out = [[0u32; 4]; 4];
    for c in 0..4 {
        for r in 0..4 {
            out[c][r] = cols[c][r].to_bits();
        }
    }
    out
}

fn view_proj(bundle: &CameraBundle) -> Mat4 {
    let p = &bundle.projection;
    let c = &bundle.camera;
    let projection = glam::Mat4::perspective_rh(
        f32::from_bits(p.fovy),
        f32::from_bits(p.aspect),
        f32::from_bits(p.znear),
        f32::from_bits(p.zfar),
    );
    let eye = glam::Vec3::new(
        f32::from_bits(c.position.x),
        f32::from_bits(c.position.y),
        f32::from_bits(c.position.z),
    );
    let (sin_pitch, cos_pitch) = f32::from_bits(c.pitch).sin_cos();
    let (sin_yaw, cos_yaw) = f32::from_bits(c.yaw).sin_cos();
    let dir = glam::Vec3::new(cos_pitch * cos_yaw, sin_pitch, cos_pitch * sin_yaw).normalize();
    bits_of(projection * glam::Mat4::look_to_rh(eye, dir, glam::Vec3::Y))
}

#[test]
fn scalar_constants_are_zero_and_one() {
    assert_eq!(ZERO, 0.0f32.to_bits());
    assert_eq!(ONE, 1.0f32.to_bits());
}

#[test]
fn default_projection_is_full_hd_at_seventy_degrees() {
    let p = Projection::default();
    assert_eq!(p.aspect, (1920u32 as f32 / 1080u32 as f32).to_bits());
    assert_eq!(p.fovy, 70.0_f32.to_radians().to_bits());
    assert_eq!(p.znear, 0.1f32.to_bits());
    assert_eq!(p.zfar, 100.0f32.to_bits());
    assert_eq!(
        p,
        Projection {
            aspect: DEFAULT_ASPECT,
            fovy: DEFAULT_FOVY,
            znear: DEFAULT_ZNEAR,
            zfar: DEFAULT_ZFAR
        }
    );
}

#[test]
fn default_projection_is_what_new_gives_for_the_same_surface() {
    let p = Projection::new(
        1920,
        1080,
        70.0_f32.to_radians().to_bits(),
        0.1f32.to_bits(),
        100.0f32.to_bits(),
        ratio,
    );
    assert_eq!(p, Projection::default());
}

#[test]
fn new_projection_has_the_ratio_of_its_surface() {
    let p = Projection::new(
        800,
        600,
        1.0f32.to_bits(),
        0.5f32.to_bits(),
        50.0f32.to_bits(),
        ratio,
    );
    assert_eq!(f32::from_bits(p.aspect), 800.0 / 600.0);
    assert_eq!(f32::from_bits(p.fovy), 1.0);
    assert_eq!(f32::from_bits(p.znear), 0.5);
    assert_eq!(f32::from_bits(p.zfar), 50.0);
}

#[test]
fn resize_changes_the_aspect_only() {
    let mut p = Projection::default();
    p.resize(1024.0f32.to_bits(), 768.0f32.to_bits(), float_ratio);
    assert_eq!(f32::from_bits(p.aspect), 1024.0f32 / 768.0f32);
    assert_eq!(p.fovy, DEFAULT_FOVY);
    assert_eq!(p.znear, DEFAULT_ZNEAR);
    assert_eq!(p.zfar, DEFAULT_ZFAR);
}

#[test]
fn resize_divides_the_sizes_as_they_are_given() {
    let mut p = Projection::default();
    p.resize(800.5f32.to_bits(), 600.0f32.to_bits(), float_ratio);
    assert_eq!(f32::from_bits(p.aspect), 800.5f32 / 600.0f32);
    assert_ne!(f32::from_bits(p.aspect), 800.0f32 / 600.0f32);
}

#[test]
fn resize_to_height_zero_is_not_guarded() {
    let mut p = Projection::default();
    p.resize(640.0f32.to_bits(), 0.0f32.to_bits(), float_ratio);
    assert!(f32::from_bits(p.aspect).is_infinite());
}

#[test]
fn default_camera_is_at_the_origin() {
    let c = Camera::default();
    assert_eq!(c, Camera::new(Vector3::new(ZERO, ZERO, ZERO), ZERO, ZERO));
    assert_eq!(f32::from_bits(c.yaw), 0.0);
    assert_eq!(f32::from_bits(c.pitch), 0.0);
}

#[test]
fn new_camera_keeps_what_it_was_given() {
    let c = Camera::new(
        Vector3::new(1.0f32.to_bits(), 2.0f32.to_bits(), 3.0f32.to_bits()),
        0.5f32.to_bits(),
        (-0.25f32).to_bits(),
    );
    assert_eq!(f32::from_bits(c.position.y), 2.0);
    assert_eq!(f32::from_bits(c.yaw), 0.5);
    assert_eq!(f32::from_bits(c.pitch), -0.25);
}

#[test]
fn default_bundle_is_default_camera_and_projection() {
    let b = CameraBundle::default();
    assert_eq!(b.camera, Camera::default());
    assert_eq!(b.projection, Projection::default());
}

#[test]
fn new_uniform_is_the_identity() {
    let u = CameraUniform::new();
    assert_eq!(u.view_proj, bits_of(glam::Mat4::IDENTITY));
    assert_eq!(u.view_proj, mat4_identity());
    assert_eq!(CameraUniform::default(), u);
}

#[test]
fn uniform_takes_the_matrix_of_the_bundle() {
    let mut bundle = CameraBundle::default();
    bundle.camera.position = Vector3::new(1.0f32.to_bits(), 2.0f32.to_bits(), 3.0f32.to_bits());
    bundle.camera.yaw = 0.5f32.to_bits();
    let mut u = CameraUniform::new();
    u.update_view_proj(&bundle, view_proj);
    assert_eq!(u.view_proj, view_proj(&bundle));
    assert_ne!(u.view_proj, mat4_identity());
}

#[test]
fn uniform_bytes_are_the_sixteen_scalars_in_memory() {
    let mut u = CameraUniform::new();
    u.update_view_proj(&CameraBundle::default(), view_proj);
    let bytes = u.to_bytes();
    assert_eq!(bytes.len() as u64, CAMERA_UNIFORM_SIZE);
    assert_eq!(bytes.len(), 64);
    let mut expected: Vec<u8> = Vec::new();
    for col in u.view_proj.iter() {
        for w in col.iter() {
            expected.extend_from_slice(&f32::from_bits(*w).to_ne_bytes());
        }
    }
    assert_eq!(bytes, expected);
}
