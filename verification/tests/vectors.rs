use raycast::linear_algebra::Vec2;
use raycast::linear_algebra::Vec3;
use raycast::linear_algebra::Vec4;

#[test]
fn vec4_from_components() {
    let v = Vec4::from(1u8, 2u8, 3u8, 4u8);
    assert_eq!(v.x, 1);
    assert_eq!(v.y, 2);
    assert_eq!(v.z, 3);
    assert_eq!(v.w, 4);
}

#[test]
fn vec3_from_components() {
    let v = Vec3::from(0.5f32, -1.0f32, 2.0f32);
    assert_eq!(v.x, 0.5);
    assert_eq!(v.y, -1.0);
    assert_eq!(v.z, 2.0);
}

#[test]
fn vec2_from_components() {
    let v = Vec2::from(7u32, 9u32);
    assert_eq!(v.x, 7);
    assert_eq!(v.y, 9);
}
