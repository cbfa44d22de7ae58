use raytrace::fixed::{fx_add, fx_div, fx_mul, fx_neg, fx_sqrt, fx_sub, FX_ONE};
use raytrace::rand::{drand, Rng};
use raytrace::vec3::Vec3;

const S: i64 = FX_ONE;

#[test]
fn scalar_ops_exact_values() {
    assert_eq!(fx_add(3 * S, 4 * S), 7 * S);
    assert_eq!(fx_sub(3 * S, 4 * S), -S);
    assert_eq!(fx_neg(5 * S), -5 * S);
    assert_eq!(fx_mul(3 * S, 4 * S), 12 * S);
    assert_eq!(fx_mul(S / 2, S / 2), S / 4);
    assert_eq!(fx_div(12 * S, 4 * S), 3 * S);
    assert_eq!(fx_div(S, 2 * S), S / 2);
    assert_eq!(fx_div(S, 0), 0);
    assert_eq!(fx_sqrt(4 * S), 2 * S);
    assert_eq!(fx_sqrt(S / 4), S / 2);
    assert_eq!(fx_sqrt(-S), 0);
}

#[test]
fn scalar_ops_saturate_instead_of_wrapping() {
    assert_eq!(fx_add(i64::MAX, i64::MAX), i64::MAX);
    assert_eq!(fx_sub(i64::MIN, i64::MAX), i64::MIN);
    assert_eq!(fx_neg(i64::MIN), i64::MAX);
    assert_eq!(fx_mul(i64::MAX, i64::MAX), i64::MAX);
    assert_eq!(fx_mul(i64::MIN, i64::MAX), i64::MIN);
}

#[test]
fn vector_arithmetic_exact_values() {
    let a = Vec3(S, 2 * S, 3 * S);
    let b = Vec3(4 * S, 5 * S, 6 * S);
    assert_eq!(a.add(b), Vec3(5 * S, 7 * S, 9 * S));
    assert_eq!(b.sub(a), Vec3(3 * S, 3 * S, 3 * S));
    assert_eq!(a.neg(), Vec3(-S, -2 * S, -3 * S));
    assert_eq!(a.mul(b), Vec3(4 * S, 10 * S, 18 * S));
    assert_eq!(b.div(a), Vec3(4 * S, 5 * S / 2, 2 * S));
    assert_eq!(a.scale(2 * S), Vec3(2 * S, 4 * S, 6 * S));
    assert_eq!(a.dot(&b), 32 * S);
    assert_eq!(a.cross(&b), Vec3(-3 * S, 6 * S, -3 * S));
    assert_eq!(a.x(), S);
    assert_eq!(a.y(), 2 * S);
    assert_eq!(a.z(), 3 * S);
    assert_eq!(a.r(), S);
    assert_eq!(a.g(), 2 * S);
    assert_eq!(a.b(), 3 * S);
}

#[test]
fn length_of_pythagorean_vector_is_exact() {
    let v = Vec3(3 * S, 4 * S, 12 * S);
    assert_eq!(v.squared_length(), 169 * S);
    assert_eq!(v.length(), 13 * S);
}

#[test]
fn unit_vector_along_axis_has_length_exactly_one() {
    let v = Vec3(5 * S, 0, 0);
    let u = v.into_unit();
    assert_eq!(u, Vec3(S, 0, 0));
    assert_eq!(u.length(), S);
    let mut w = Vec3(0, 0, -7 * S);
    w.make_unit_vector();
    assert_eq!(w, Vec3(0, 0, -S));
    assert_eq!(w.length(), S);
}

#[test]
fn unit_vector_in_general_position_has_length_near_one() {
    for v in [
        Vec3(3 * S, 4 * S, 12 * S),
        Vec3(-S, 2 * S, -2 * S),
        Vec3(123456, -7890, 45678),
        Vec3(S + 1, S - 1, 3),
    ] {
        let len: i64 = v.into_unit().length();
        assert!((len - S).abs() <= 8, "length {} too far from one", len);
    }
}

#[test]
fn reflect_head_on_is_reversed() {
    let d = Vec3(0, 0, -S);
    let n = Vec3(0, 0, S);
    assert_eq!(d.reflect(&n), Vec3(0, 0, S));
    // a 45-degree incoming direction keeps its tangential part
    let slanted = Vec3(S, 0, -S);
    assert_eq!(slanted.reflect(&n), Vec3(S, 0, S));
}

#[test]
fn drand_is_deterministic_and_in_range() {
    let mut a = Rng::new(42);
    let mut b = Rng::new(42);
    let mut c = Rng::new(43);
    let mut differs = false;
    for _ in 0..1000 {
        let x: i64 = drand(&mut a);
        let y: i64 = drand(&mut b);
        let z: i64 = drand(&mut c);
        assert_eq!(x, y);
        assert!(0 <= x && x < S);
        assert!(0 <= z && z < S);
        if x != z {
            differs = true;
        }
    }
    assert!(differs, "distinct seeds should give distinct streams");
}

#[test]
fn random_in_unit_sphere_stays_inside() {
    let mut rng = Rng::new(7);
    for _ in 0..200 {
        let p = Vec3::random_in_unit_sphere(&mut rng);
        assert!(p.squared_length() < S);
    }
}
