use strahl::js_api::{StrahlBackend, StrahlCreateInfo};
use strahl::node_api::{plus_100, tex_wrapper_pixels, Hello, TEX_SIDE};
use strahl::raytracer::{self, RayTracer, SurfaceProperty};
use strahl::scene_desc::{CameraType, SceneMeta};

#[test]
fn uniform_property_gives_its_value() {
    let p = SurfaceProperty::Uniform(vec![1u8, 2, 3]);
    assert_eq!(p.get(), vec![1, 2, 3]);
    assert_eq!(SurfaceProperty::Uniform(7u32).get(), 7);
}

#[test]
fn ray_tracer_can_be_created() {
    let _a = RayTracer::new();
    let _b: RayTracer = Default::default();
}

#[test]
fn create_info_defaults() {
    let i = StrahlCreateInfo::default();
    assert_eq!(i.backend, StrahlBackend::Rasterize);
    assert_eq!((i.width, i.height), (1024, 1024));
}

#[test]
fn hello_has_fixed_path() {
    let h = Hello::new(42);
    assert_eq!(h.x, 42);
    assert_eq!(h.path, "asdfasdf");
}

#[test]
fn scene_description_defaults() {
    assert_eq!(CameraType::default(), CameraType::Perspective);
    assert!(SceneMeta::default().name.is_none());
    assert_eq!(CameraType::Perspective.to_camera_type(), raytracer::CameraType::Perspective);
    assert_eq!(CameraType::Orthographic.to_camera_type(), raytracer::CameraType::Orthographic);
}

#[test]
fn plus_100_adds_100() {
    let h = plus_100(5, "/tmp".to_string());
    assert_eq!(h.x, 105);
    assert_eq!(h.path, "/tmp");
}

#[test]
fn test_texture_pixels() {
    let p = tex_wrapper_pixels();
    assert_eq!(p.len(), (TEX_SIDE * TEX_SIDE * 4) as usize);
    assert_eq!(p, [0xFF000088u32.to_be_bytes(); 400].as_flattened().to_vec());
}
