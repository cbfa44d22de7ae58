use raytrace::fixed::FX_ONE;
use raytrace::material::Material;
use raytrace::object::{Hitable, World};
use raytrace::rand::Rng;
use raytrace::ray::Ray;
use raytrace::sphere::Sphere;
use raytrace::vec3::Vec3;

const S: i64 = FX_ONE;

fn gray() -> Material {
    Material::Lambertian { albedo: Vec3(S / 2, S / 2, S / 2) }
}

#[test]
fn head_on_hit_t_is_distance_minus_radius() {
    // fired at the center from 3 units away at a unit sphere: near hit at t = 2
    let s = Sphere { center: Vec3(0, 0, 0), radius: S, material: gray() };
    let r = Ray::new(Vec3(0, 0, 3 * S), Vec3(0, 0, -S));
    let h = s.hit(&r, 66, i64::MAX).expect("head-on ray must hit");
    assert_eq!(h.t, 2 * S);
    // the hit point lies exactly on the sphere: |p - c| == radius
    let d: i64 = r.point_at_parameter(h.t).sub(s.center).length();
    assert_eq!(d, S);
    // and the outward normal there points back at the ray
    assert_eq!(h.normal, Vec3(0, 0, S));
}

#[test]
fn oblique_hit_point_lies_on_the_sphere() {
    // an off-axis ray aimed at the center from outside: the reported hit
    // point is at distance radius from the center, up to fixed-point
    // rounding
    let s = Sphere { center: Vec3(0, 0, -4 * S), radius: S, material: gray() };
    let origin = Vec3(2 * S, S, 2 * S);
    let r = Ray::new(origin, s.center.sub(origin));
    let h = s.hit(&r, 66, i64::MAX).expect("a ray through the center must hit");
    let d: i64 = r.point_at_parameter(h.t).sub(s.center).length();
    assert!((d - S).abs() <= 256, "distance {} too far from the radius", d);
}

#[test]
fn exact_tangency_is_a_miss() {
    // a ray grazing the sphere at exactly one point: the discriminant is
    // exactly zero, and the policy is to report no hit
    let s = Sphere { center: Vec3(0, 0, 0), radius: S, material: gray() };
    let r = Ray::new(Vec3(-3 * S, S, 0), Vec3(S, 0, 0));
    assert!(s.hit(&r, 66, i64::MAX).is_none());
}

#[test]
fn hit_from_inside_takes_far_root() {
    let s = Sphere { center: Vec3(0, 0, 0), radius: S, material: gray() };
    let r = Ray::new(Vec3(0, 0, 0), Vec3(0, 0, -S));
    let h = s.hit(&r, 66, i64::MAX).expect("ray from the center must hit");
    assert_eq!(h.t, S);
}

#[test]
fn miss_and_interval_filtering() {
    let s = Sphere { center: Vec3(0, 0, -4 * S), radius: S, material: gray() };
    // pointing away: no hit
    assert!(s.hit(&Ray::new(Vec3(0, 0, 0), Vec3(0, 0, S)), 66, i64::MAX).is_none());
    // passing well to the side: no hit
    assert!(s.hit(&Ray::new(Vec3(3 * S, 0, 0), Vec3(0, 0, -S)), 66, i64::MAX).is_none());
    // both roots (t = 3 and t = 5) above t_max: no hit
    assert!(s.hit(&Ray::new(Vec3(0, 0, 0), Vec3(0, 0, -S)), 66, 2 * S).is_none());
    // t_min past the near root: the far root is reported
    let h = s.hit(&Ray::new(Vec3(0, 0, 0), Vec3(0, 0, -S)), 4 * S, i64::MAX).unwrap();
    assert_eq!(h.t, 5 * S);
}

#[test]
fn world_reports_nearest_hit_and_first_on_ties() {
    let near = Sphere { center: Vec3(0, 0, -3 * S), radius: S, material: gray() };
    let far = Sphere {
        center: Vec3(0, 0, -9 * S),
        radius: S,
        material: Material::Metal { albedo: Vec3(S, S, S), fuzz: 0 },
    };
    let r = Ray::new(Vec3(0, 0, 0), Vec3(0, 0, -S));
    let w = World::new(vec![Hitable::Sphere(far), Hitable::Sphere(near)]);
    let h = w.hit(&r, 66, i64::MAX).expect("must hit the near sphere");
    assert_eq!(h.t, 2 * S);
    assert_eq!(h.material, gray());
    // two coincident spheres: the earlier one in the list wins
    let twin_a = Sphere { center: Vec3(0, 0, -3 * S), radius: S, material: gray() };
    let twin_b = Sphere {
        center: Vec3(0, 0, -3 * S),
        radius: S,
        material: Material::Metal { albedo: Vec3(0, 0, 0), fuzz: 0 },
    };
    let w2 = World::new(vec![Hitable::Sphere(twin_a), Hitable::Sphere(twin_b)]);
    assert_eq!(w2.hit(&r, 66, i64::MAX).unwrap().material, gray());
    // an empty world hits nothing
    let w3 = World::new(vec![]);
    assert!(w3.hit(&r, 66, i64::MAX).is_none());
    assert_eq!(w3.len(), 0);
}

#[test]
fn lambertian_scatter_never_absorbs() {
    let m = Material::Lambertian { albedo: Vec3(S / 2, S / 4, S / 8) };
    let s = Sphere { center: Vec3(0, 0, 0), radius: S, material: m };
    let r = Ray::new(Vec3(0, 0, 3 * S), Vec3(0, 0, -S));
    let h = s.hit(&r, 66, i64::MAX).unwrap();
    let mut rng = Rng::new(5);
    for _ in 0..100 {
        let (scattered, attenuation) = m.scatter(&r, &h, &mut rng).expect("diffuse never absorbs");
        assert_eq!(attenuation, Vec3(S / 2, S / 4, S / 8));
        assert_eq!(scattered.origin, h.p);
    }
}

#[test]
fn smooth_metal_scatter_is_the_mirror_reflection() {
    let m = Material::Metal { albedo: Vec3(S, S, S), fuzz: 0 };
    let s = Sphere { center: Vec3(0, 0, 0), radius: S, material: m };
    // head-on hit: the mirror reflection reverses the ray
    let r = Ray::new(Vec3(0, 0, 3 * S), Vec3(0, 0, -S));
    let h = s.hit(&r, 66, i64::MAX).unwrap();
    let mut rng = Rng::new(11);
    let (scattered, attenuation) = m.scatter(&r, &h, &mut rng).expect("head-on mirror scatters");
    assert_eq!(scattered.origin, h.p);
    assert_eq!(scattered.direction, Vec3(0, 0, S));
    assert_eq!(attenuation, Vec3(S, S, S));
}

#[test]
fn metal_absorbs_rays_reflected_into_the_surface() {
    // a hit record doctored so the reflection points into the surface
    let m = Material::Metal { albedo: Vec3(S, S, S), fuzz: 0 };
    let rec = raytrace::material::HitRecord {
        t: S,
        p: Vec3(0, 0, 0),
        normal: Vec3(0, 0, -S),
        material: m,
    };
    let r = Ray::new(Vec3(0, 0, 3 * S), Vec3(0, 0, -S));
    let mut rng = Rng::new(11);
    assert!(m.scatter(&r, &rec, &mut rng).is_none());
}
