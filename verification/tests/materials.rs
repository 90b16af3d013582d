use rust_ray_tracing::engine::hittables::HitRecord;
use rust_ray_tracing::engine::materials::Dielectric;
use rust_ray_tracing::engine::materials::Lambertian;
use rust_ray_tracing::engine::materials::Metal;
use rust_ray_tracing::engine::materials::ScatterResult;
use rust_ray_tracing::engine::Ray;
use rust_ray_tracing::vectors::Color;
use rust_ray_tracing::vectors::Scalar;
use rust_ray_tracing::vectors::Vector;

fn s(x: f64) -> Scalar {
    Scalar::new(x.to_bits())
}

fn f(x: Scalar) -> f64 {
    f64::from_bits(x.bits)
}

fn v(x: f64, y: f64, z: f64) -> Vector {
    Vector::new(s(x), s(y), s(z))
}

fn xyz(a: Vector) -> [f64; 3] {
    [f(a.x), f(a.y), f(a.z)]
}

fn rgb(c: Color) -> [f64; 3] {
    [f(c.red), f(c.green), f(c.blue)]
}

fn length(a: [f64; 3]) -> f64 {
    (a[0] * a[0] + a[1] * a[1] + a[2] * a[2]).sqrt()
}

static NOTHING: () = ();

/// A hit at `point` on a surface with the given normal, struck from outside.
fn hit(point: Vector, normal: Vector) -> HitRecord<'static, ()> {
    HitRecord::new(point, normal, &NOTHING, s(1.0), true)
}

fn grey() -> Color {
    Color::new(s(0.5), s(0.5), s(0.5))
}

#[test]
fn scatter_result_new_keeps_its_parts() {
    let result = ScatterResult::new(Ray::new(v(1.0, 2.0, 3.0), v(0.0, 1.0, 0.0)), grey());
    assert_eq!(xyz(result.scattered.origin), [1.0, 2.0, 3.0]);
    assert_eq!(xyz(result.scattered.direction), [0.0, 1.0, 0.0]);
    assert_eq!(rgb(result.attenuation), [0.5, 0.5, 0.5]);
}

#[test]
fn lambertian_scatters_along_the_candidate() {
    let material = Lambertian::new(Color::new(s(0.4), s(0.2), s(0.1)));
    let candidate = [0.3, 1.2, -0.4];
    let result = material
        .scatter_with(
            &hit(v(1.0, 2.0, 3.0), v(0.0, 1.0, 0.0)),
            v(candidate[0], candidate[1], candidate[2]),
            s(length(candidate)),
        )
        .unwrap();
    assert_eq!(xyz(result.scattered.origin), [1.0, 2.0, 3.0]);
    assert_eq!(xyz(result.scattered.direction), candidate);
    assert_eq!(rgb(result.attenuation), [0.4, 0.2, 0.1]);
}

#[test]
fn lambertian_falls_back_to_the_normal() {
    let material = Lambertian::new(grey());
    let candidate = [1e-9, -1e-9, 0.0];
    let result = material
        .scatter_with(
            &hit(v(0.0, 0.0, 0.0), v(0.0, 1.0, 0.0)),
            v(candidate[0], candidate[1], candidate[2]),
            s(length(candidate)),
        )
        .unwrap();
    assert_eq!(xyz(result.scattered.direction), [0.0, 1.0, 0.0]);
    let result = material.scatter_with(&hit(v(0.0, 0.0, 0.0), v(0.0, 1.0, 0.0)), v(0.0, 0.0, 0.0), s(0.0)).unwrap();
    assert_eq!(xyz(result.scattered.direction), [0.0, 1.0, 0.0]);
}

#[test]
fn lambertian_threshold_is_exclusive() {
    let material = Lambertian::new(grey());
    let result = material.scatter_with(&hit(v(0.0, 0.0, 0.0), v(0.0, 1.0, 0.0)), v(1e-8, 0.0, 0.0), s(1e-8)).unwrap();
    assert_eq!(xyz(result.scattered.direction), [1e-8, 0.0, 0.0]);
    let under = f64::from_bits(1e-8f64.to_bits() - 1);
    let result = material.scatter_with(&hit(v(0.0, 0.0, 0.0), v(0.0, 1.0, 0.0)), v(under, 0.0, 0.0), s(under)).unwrap();
    assert_eq!(xyz(result.scattered.direction), [0.0, 1.0, 0.0]);
}

#[test]
fn lambertian_non_degeneracy() {
    let material = Lambertian::new(grey());
    let normals = [[0.0, 1.0, 0.0], [0.6, 0.0, -0.8], [-1.0, 0.0, 0.0]];
    let mut state: u64 = 0x2545_F491_4F6C_DD1D;
    for normal in normals {
        for round in 0..2000 {
            state ^= state << 13;
            state ^= state >> 7;
            state ^= state << 17;
            let a = (state >> 11) as f64 / (1u64 << 53) as f64 * 2.0 - 1.0;
            let b = ((state >> 5) & 0xFFFF) as f64 / 65536.0 * 2.0 - 1.0;
            let mut unit = [a, b, 0.25];
            if round % 4 == 0 {
                unit = [-normal[0], -normal[1], -normal[2]];
            } else {
                let l = length(unit);
                unit = [unit[0] / l, unit[1] / l, unit[2] / l];
            }
            let candidate = [normal[0] + unit[0], normal[1] + unit[1], normal[2] + unit[2]];
            let result = material
                .scatter_with(
                    &hit(v(0.0, 0.0, 0.0), v(normal[0], normal[1], normal[2])),
                    v(candidate[0], candidate[1], candidate[2]),
                    s(length(candidate)),
                )
                .unwrap();
            assert!(length(xyz(result.scattered.direction)) >= 1e-8);
        }
    }
}

#[test]
fn metal_reflects_above_the_surface() {
    let material = Metal::new(Color::new(s(0.7), s(0.6), s(0.5)), s(0.0));
    assert_eq!(f(material.fuzz), 0.0);
    let result = material.scatter_with(&hit(v(1.0, 2.0, 3.0), v(0.0, 1.0, 0.0)), v(0.6, 0.8, 0.0), s(0.8)).unwrap();
    assert_eq!(xyz(result.scattered.origin), [1.0, 2.0, 3.0]);
    assert_eq!(xyz(result.scattered.direction), [0.6, 0.8, 0.0]);
    assert_eq!(rgb(result.attenuation), [0.7, 0.6, 0.5]);
}

#[test]
fn metal_absorption_boundary() {
    let material = Metal::new(Color::new(s(0.7), s(0.6), s(0.5)), s(0.0));
    assert!(material.scatter_with(&hit(v(0.0, 0.0, 0.0), v(0.0, 1.0, 0.0)), v(0.6, -0.8, 0.0), s(-0.8)).is_none());
    assert!(material.scatter_with(&hit(v(0.0, 0.0, 0.0), v(0.0, 1.0, 0.0)), v(1.0, 0.0, 0.0), s(0.0)).is_none());
    assert!(material.scatter_with(&hit(v(0.0, 0.0, 0.0), v(0.0, 1.0, 0.0)), v(1.0, 0.0, 0.0), s(-0.0)).is_none());
    assert!(material.scatter_with(&hit(v(0.0, 0.0, 0.0), v(0.0, 1.0, 0.0)), v(1.0, 0.0, 0.0), s(f64::NAN)).is_none());
    assert!(material.scatter_with(&hit(v(0.0, 0.0, 0.0), v(0.0, 1.0, 0.0)), v(1.0, 5e-324, 0.0), s(5e-324)).is_some());
}

#[test]
fn dielectric_refraction_ratio_depends_on_the_face() {
    let material = Dielectric::new(s(1.5));
    assert_eq!(f(material.refraction_index), 1.5);
    let front = hit(v(0.0, 0.0, 0.0), v(0.0, 1.0, 0.0));
    assert_eq!(f(material.get_refraction_ratio(&front, s(1.0 / 1.5))), 1.0 / 1.5);
    let back = HitRecord::new(v(0.0, 0.0, 0.0), v(0.0, 1.0, 0.0), &NOTHING, s(1.0), false);
    assert_eq!(f(material.get_refraction_ratio(&back, s(1.0 / 1.5))), 1.5);
}

#[test]
fn dielectric_cosine_is_capped_at_one() {
    let numbers = [
        -1.0,
        -0.0,
        0.0,
        0.3,
        0.9999999999999999,
        1.0,
        1.0000000000000002,
        7.0,
        f64::INFINITY,
        f64::NEG_INFINITY,
        f64::NAN,
    ];
    for &cosine in &numbers {
        let expected = f64::min(cosine, 1.0);
        assert_eq!(f(Dielectric::cos_theta(s(cosine))).to_bits(), expected.to_bits(), "{:?}", cosine);
    }
    assert_eq!(f(Dielectric::cos_theta(s(1.0000000000000002))), 1.0);
    assert_eq!(f(Dielectric::cos_theta(s(0.25))), 0.25);
    assert_eq!(f(Dielectric::cos_theta(s(f64::NAN))), 1.0);
}

#[test]
fn dielectric_must_reflect_beyond_the_critical_angle() {
    let material = Dielectric::new(s(1.5));
    let result = material
        .scatter_with(&hit(v(1.0, 2.0, 3.0), v(0.0, 1.0, 0.0)), s(1.2), s(0.0), s(0.99), v(1.0, 0.0, 0.0), v(0.0, 1.0, 0.0))
        .unwrap();
    assert_eq!(xyz(result.scattered.direction), [1.0, 0.0, 0.0]);
    assert_eq!(xyz(result.scattered.origin), [1.0, 2.0, 3.0]);
}

#[test]
fn dielectric_reflects_when_the_draw_is_under_the_reflectance() {
    let material = Dielectric::new(s(1.5));
    let result = material
        .scatter_with(&hit(v(0.0, 0.0, 0.0), v(0.0, 1.0, 0.0)), s(0.5), s(0.3), s(0.29), v(1.0, 0.0, 0.0), v(0.0, 1.0, 0.0))
        .unwrap();
    assert_eq!(xyz(result.scattered.direction), [1.0, 0.0, 0.0]);
}

#[test]
fn dielectric_refracts_otherwise() {
    let material = Dielectric::new(s(1.5));
    let result = material
        .scatter_with(&hit(v(0.0, 0.0, 0.0), v(0.0, 1.0, 0.0)), s(0.5), s(0.3), s(0.3), v(1.0, 0.0, 0.0), v(0.0, 1.0, 0.0))
        .unwrap();
    assert_eq!(xyz(result.scattered.direction), [0.0, 1.0, 0.0]);
    let result = material
        .scatter_with(&hit(v(0.0, 0.0, 0.0), v(0.0, 1.0, 0.0)), s(1.0), s(0.04), s(0.9), v(1.0, 0.0, 0.0), v(0.0, 1.0, 0.0))
        .unwrap();
    assert_eq!(xyz(result.scattered.direction), [0.0, 1.0, 0.0]);
}

#[test]
fn dielectric_energy_conservation() {
    let material = Dielectric::new(s(1.5));
    let numbers = [-1.0, 0.0, 0.3, 1.0, 1.7, f64::INFINITY, f64::NAN];
    for &sine_ratio in &numbers {
        for &reflectance in &numbers {
            for &draw in &numbers {
                let result = material
                    .scatter_with(
                        &hit(v(0.0, 0.0, 0.0), v(0.0, 1.0, 0.0)),
                        s(sine_ratio),
                        s(reflectance),
                        s(draw),
                        v(1.0, 0.0, 0.0),
                        v(0.0, 1.0, 0.0),
                    )
                    .unwrap();
                assert_eq!(rgb(result.attenuation), [1.0, 1.0, 1.0]);
                let reflects = sine_ratio > 1.0 || reflectance > draw;
                let expected = if reflects { [1.0, 0.0, 0.0] } else { [0.0, 1.0, 0.0] };
                assert_eq!(xyz(result.scattered.direction), expected);
            }
        }
    }
}
