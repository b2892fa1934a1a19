use pathtracer::fx::FX_ONE;
use pathtracer::math::vec::Vec4;

#[test]
fn test_zero() {
    let v = Vec4::default();
    assert_eq!((v.x, v.y, v.z, v.w), (i64::default(), i64::default(), i64::default(), i64::default()));
}

#[test]
fn test_eq() {
    let v1 = Vec4::new(1 * FX_ONE, 2 * FX_ONE, 3 * FX_ONE, 4 * FX_ONE);
    let v2 = Vec4::new(1 * FX_ONE, 2 * FX_ONE, 3 * FX_ONE, 4 * FX_ONE);
    assert_eq!(v1, v2);
}

#[test]
fn test_ne() {
    let v1 = Vec4::new(1 * FX_ONE, 2 * FX_ONE, 3 * FX_ONE, 4 * FX_ONE);
    let v2 = Vec4::new(2 * FX_ONE, 2 * FX_ONE, 3 * FX_ONE, 4 * FX_ONE);
    assert_ne!(v1, v2);
    let v1 = Vec4::new(1 * FX_ONE, 2 * FX_ONE, 3 * FX_ONE, 4 * FX_ONE);
    let v2 = Vec4::new(1 * FX_ONE, 3 * FX_ONE, 3 * FX_ONE, 4 * FX_ONE);
    assert_ne!(v1, v2);
    let v1 = Vec4::new(1 * FX_ONE, 2 * FX_ONE, 3 * FX_ONE, 4 * FX_ONE);
    let v2 = Vec4::new(1 * FX_ONE, 2 * FX_ONE, 4 * FX_ONE, 4 * FX_ONE);
    assert_ne!(v1, v2);
    let v1 = Vec4::new(1 * FX_ONE, 2 * FX_ONE, 3 * FX_ONE, 4 * FX_ONE);
    let v2 = Vec4::new(1 * FX_ONE, 2 * FX_ONE, 3 * FX_ONE, 5 * FX_ONE);
    assert_ne!(v1, v2);
}

#[test]
fn test_add() {
    let v1 = Vec4::new(1 * FX_ONE, 2 * FX_ONE, 3 * FX_ONE, 4 * FX_ONE);
    let v2 = Vec4::new(5 * FX_ONE, 6 * FX_ONE, 7 * FX_ONE, 8 * FX_ONE);
    let v = v1.add(v2);
    assert_eq!(
        (v.x, v.y, v.z, v.w),
        (6 * FX_ONE, 8 * FX_ONE, 10 * FX_ONE, 12 * FX_ONE)
    );
}
