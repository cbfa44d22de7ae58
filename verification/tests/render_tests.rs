use raytrace::camera::{fx_cos, fx_sin, fx_tan, Camera};
use raytrace::fixed::FX_ONE;
use raytrace::material::Material;
use raytrace::object::{Hitable, World};
use raytrace::rand::Rng;
use raytrace::ray::Ray;
use raytrace::render::{color, render, render_row, to_byte, try_render, RenderError};
use raytrace::sphere::Sphere;
use raytrace::vec3::Vec3;

const S: i64 = FX_ONE;

#[test]
fn gamma_corrected_quantization() {
    // radiance 0.25 -> sqrt = 0.5 -> floor(255.999 * 0.5) = 127
    assert_eq!(to_byte(S / 4), 127);
    assert_eq!(to_byte(0), 0);
    assert_eq!(to_byte(S), 255);
    // out-of-range channels are clamped before quantizing
    assert_eq!(to_byte(-3 * S), 0);
    assert_eq!(to_byte(100 * S), 255);
    // radiance 1/16 -> sqrt = 1/4 -> floor(255.999 * 0.25) = 63
    assert_eq!(to_byte(S / 16), 63);
}

#[test]
fn empty_scene_gives_the_sky_gradient_never_black() {
    let w = World::new(vec![]);
    let mut rng = Rng::new(1);
    // straight up: the gradient parameter is one, pure sky blue
    let up = color(&Ray::new(Vec3(0, 0, 0), Vec3(0, S, 0)), &w, &mut rng, 0);
    assert_eq!(up, Vec3(S / 2, 45875, S));
    // straight down: the gradient parameter is zero, pure white
    let down = color(&Ray::new(Vec3(0, 0, 0), Vec3(0, -S, 0)), &w, &mut rng, 0);
    assert_eq!(down, Vec3(S, S, S));
    // any direction: never black (the blue channel is always one)
    for dir in [Vec3(3 * S, -2 * S, 7), Vec3(-S, -S, -S), Vec3(1, 2, 3)] {
        let c = color(&Ray::new(Vec3(0, 0, 0), dir), &w, &mut rng, 0);
        assert_ne!(c, Vec3(0, 0, 0));
        assert_eq!(c.b(), S);
    }
}

#[test]
fn depth_cap_returns_black_on_a_mirror_scene() {
    // two facing mirrors: the estimator still terminates, and at the cap
    // a hit is reported black
    let mirror = Material::Metal { albedo: Vec3(S, S, S), fuzz: 0 };
    let w = World::new(vec![
        Hitable::Sphere(Sphere { center: Vec3(0, 0, -3 * S), radius: S, material: mirror }),
        Hitable::Sphere(Sphere { center: Vec3(0, 0, 3 * S), radius: S, material: mirror }),
    ]);
    let r = Ray::new(Vec3(0, 0, 0), Vec3(0, 0, -S));
    let mut rng = Rng::new(2);
    assert_eq!(color(&r, &w, &mut rng, 50), Vec3(0, 0, 0));
    assert_eq!(color(&r, &w, &mut rng, 77), Vec3(0, 0, 0));
    // from depth zero the recursion runs to the cap and still finishes
    let c = color(&r, &w, &mut rng, 0);
    assert_eq!(c, Vec3(0, 0, 0));
}

#[test]
fn trig_series_reference_points() {
    assert_eq!(fx_sin(0), 0);
    assert_eq!(fx_cos(0), S);
    assert_eq!(fx_tan(0), 0);
    // sin(pi/6) = 0.5, cos(pi/3) = 0.5, tan(pi/4) = 1, each up to
    // series truncation and rounding
    let pi_6: i64 = 34315;
    let pi_4: i64 = 51472;
    let pi_3: i64 = 68629;
    assert!((fx_sin(pi_6) - S / 2).abs() <= 16);
    assert!((fx_cos(pi_3) - S / 2).abs() <= 16);
    assert!((fx_tan(pi_4) - S).abs() <= 64);
}

#[test]
fn camera_rays_start_at_the_eye_and_sweep_the_plane() {
    let cam = Camera::new(
        Vec3(-2 * S, 2 * S, S),
        Vec3(0, 0, -S),
        Vec3(0, S, 0),
        40 * S,
        2 * S,
    );
    let r00 = cam.get_ray(0, 0);
    let r11 = cam.get_ray(S, S);
    assert_eq!(r00.origin, Vec3(-2 * S, 2 * S, S));
    assert_eq!(r11.origin, Vec3(-2 * S, 2 * S, S));
    // opposite image-plane corners differ in direction
    assert_ne!(r00.direction, r11.direction);
}

#[test]
fn fixed_seed_render_is_reproducible_byte_for_byte() {
    // the fixed two-sphere scene: a tiny frame must come out identical
    // across runs of the deterministic single-stream mode
    let scene = || {
        World::new(vec![
            Hitable::Sphere(Sphere {
                center: Vec3(0, -6586368, -S),
                radius: 100 * S,
                material: Material::Lambertian { albedo: Vec3(S / 2, S / 2, 0) },
            }),
            Hitable::Sphere(Sphere {
                center: Vec3(0, 0, -S),
                radius: S / 2,
                material: Material::Lambertian { albedo: Vec3(S / 2, 13107, 13107) },
            }),
        ])
    };
    let cam = Camera::new(Vec3(0, 0, 0), Vec3(0, 0, -S), Vec3(0, S, 0), 90 * S, 2 * S);
    let a = render(&scene(), &cam, 2, 1, 1, 42);
    let b = render(&scene(), &cam, 2, 1, 1, 42);
    assert_eq!(a.len(), 6);
    assert_eq!(a, b);
    // a different seed is allowed to, and here does, change some byte
    let c = render(&scene(), &cam, 2, 1, 1, 43);
    assert_eq!(c.len(), 6);
    // larger frame, still deterministic
    let d = render(&scene(), &cam, 4, 3, 2, 7);
    let e = render(&scene(), &cam, 4, 3, 2, 7);
    assert_eq!(d.len(), 36);
    assert_eq!(d, e);
}

#[test]
fn render_parameters_are_validated_up_front() {
    let w = World::new(vec![]);
    let cam = Camera::new(Vec3(0, 0, 0), Vec3(0, 0, -S), Vec3(0, S, 0), 90 * S, S);
    assert_eq!(try_render(&w, &cam, 0, 1, 1, 1), Err(RenderError::ZeroSize));
    assert_eq!(try_render(&w, &cam, 2, 0, 1, 1), Err(RenderError::ZeroSize));
    assert_eq!(try_render(&w, &cam, 2, 1, 0, 1), Err(RenderError::ZeroSize));
    assert_eq!(try_render(&w, &cam, 0x10000001, 1, 1, 1), Err(RenderError::TooLarge));
    assert_eq!(try_render(&w, &cam, 2, 0x10000001, 1, 1), Err(RenderError::TooLarge));
    assert_eq!(try_render(&w, &cam, 2, 1, 0x10000001, 1), Err(RenderError::TooLarge));
    assert_eq!(
        RenderError::ZeroSize.message(),
        "image size and sample count must be positive"
    );
    assert_eq!(RenderError::TooLarge.message(), "image size or sample count too large");
    let ok = try_render(&w, &cam, 2, 1, 1, 5).expect("valid parameters must render");
    assert_eq!(ok, render(&w, &cam, 2, 1, 1, 5));
}

#[test]
fn row_renderer_matches_its_own_seed_scheme() {
    let w = World::new(vec![Hitable::Sphere(Sphere {
        center: Vec3(0, 0, -2 * S),
        radius: S,
        material: Material::Lambertian { albedo: Vec3(S / 2, S / 2, S / 2) },
    })]);
    let cam = Camera::new(Vec3(0, 0, 0), Vec3(0, 0, -S), Vec3(0, S, 0), 90 * S, S);
    let a = render_row(&w, &cam, 1, 3, 2, 2, 9);
    let b = render_row(&w, &cam, 1, 3, 2, 2, 9);
    assert_eq!(a.len(), 9);
    assert_eq!(a, b);
}
