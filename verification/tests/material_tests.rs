use raytracing_in_one_weekend::geometry::{HitRecord, Ray};
use raytracing_in_one_weekend::integrator::{Ending, Path, SHADOW_BIAS_BITS};
use raytracing_in_one_weekend::material::dielectric::Refraction;
use raytracing_in_one_weekend::material::{Dielectric, Lambertian, Material, Metal};
use raytracing_in_one_weekend::utils::color::Color;
use raytracing_in_one_weekend::utils::scalar::Scalar;
use raytracing_in_one_weekend::utils::vec3::Vec3;

fn s(x: f64) -> Scalar {
    Scalar::from_bits(x.to_bits())
}

fn f(x: Scalar) -> f64 {
    f64::from_bits(x.to_bits())
}

fn v(a: [f64; 3]) -> Vec3 {
    Vec3::new(s(a[0]), s(a[1]), s(a[2]))
}

fn a(p: Vec3) -> [f64; 3] {
    [f(p.x()), f(p.y()), f(p.z())]
}

fn dot(p: [f64; 3], q: [f64; 3]) -> f64 {
    p[0] * q[0] + p[1] * q[1] + p[2] * q[2]
}

fn unit(p: [f64; 3]) -> [f64; 3] {
    let l = dot(p, p).sqrt();
    [p[0] / l, p[1] / l, p[2] / l]
}

fn reflect(d: [f64; 3], n: [f64; 3]) -> [f64; 3] {
    let k = 2.0 * dot(d, n);
    [d[0] - k * n[0], d[1] - k * n[1], d[2] - k * n[2]]
}

fn refract(uv: [f64; 3], n: [f64; 3], ratio: f64) -> [f64; 3] {
    let cos_theta = (-dot(uv, n)).min(1.0);
    let perp = [
        ratio * (uv[0] + cos_theta * n[0]),
        ratio * (uv[1] + cos_theta * n[1]),
        ratio * (uv[2] + cos_theta * n[2]),
    ];
    let k = -((1.0 - dot(perp, perp)).abs().sqrt());
    [perp[0] + k * n[0], perp[1] + k * n[1], perp[2] + k * n[2]]
}

fn reflectance(cosine: f64, ratio: f64) -> f64 {
    let r0 = ((1.0 - ratio) / (1.0 + ratio)).powi(2);
    r0 + (1.0 - r0) * (1.0 - cosine).powi(5)
}

fn refraction(direction: [f64; 3], normal: [f64; 3], ratio: f64) -> Refraction {
    let uv = unit(direction);
    let cos_theta = (-dot(uv, normal)).min(1.0);
    let sin_theta = (1.0 - cos_theta * cos_theta).sqrt();
    Refraction {
        bend: s(ratio * sin_theta),
        reflectance: s(reflectance(cos_theta, ratio)),
        refracted: v(refract(uv, normal, ratio)),
    }
}

fn record(front_face: bool) -> HitRecord {
    let facing = if front_face { -1.0 } else { 1.0 };
    let outward = if front_face { [0.0, 1.0, 0.0] } else { [0.0, -1.0, 0.0] };
    let mat = Material::Dielectric(Dielectric::new(s(1.5)));
    HitRecord::new(v([1.0, 2.0, 3.0]), s(7.0), s(facing), &v(outward), &mat)
}

fn ray() -> Ray {
    Ray::new(&v([0.0, 0.0, 0.0]), &v([0.0, 0.0, -1.0]))
}

fn scattering(level: f64, to: [f64; 3]) -> Option<Option<(Color, Ray)>> {
    Some(Some((v([level, level, level]), Ray::new(&v([9.0, 9.0, 9.0]), &v(to)))))
}

fn filters(path: &Path) -> Vec<f64> {
    path.filters.iter().map(|c| f(c.x())).collect()
}

#[test]
fn constructors_keep_their_arguments() {
    let l = Lambertian::new(v([0.1, 0.2, 0.3]));
    assert_eq!(a(l.albedo), [0.1, 0.2, 0.3]);
    let m = Metal::new(v([0.7, 0.6, 0.5]), s(0.25));
    assert_eq!(a(m.albedo), [0.7, 0.6, 0.5]);
    assert_eq!(f(m.fuzz), 0.25);
    let d = Dielectric::new(s(1.5));
    assert_eq!(f(d.ir), 1.5);
}

#[test]
fn lambertian_scatters_along_the_diffuse_direction() {
    let l = Lambertian::new(v([0.1, 0.2, 0.3]));
    let rec = record(true);
    let (attenuation, scattered) = l.scatter(&rec, &v([0.5, 1.5, -0.25])).expect("diffuse never absorbs");
    assert_eq!(a(attenuation), [0.1, 0.2, 0.3]);
    assert_eq!(a(scattered.origin), [1.0, 2.0, 3.0]);
    assert_eq!(a(scattered.direction), [0.5, 1.5, -0.25]);
}

#[test]
fn lambertian_falls_back_to_the_normal_for_a_degenerate_direction() {
    let l = Lambertian::new(v([0.1, 0.2, 0.3]));
    let rec = record(true);
    for diffuse in [[0.0, 0.0, 0.0], [1e-9, -1e-9, 0.0], [-0.0, 5e-324, 9e-9]] {
        let (attenuation, scattered) = l.scatter(&rec, &v(diffuse)).unwrap();
        assert_eq!(a(attenuation), [0.1, 0.2, 0.3]);
        assert_eq!(a(scattered.origin), [1.0, 2.0, 3.0]);
        assert_eq!(a(scattered.direction), a(rec.normal));
    }
    let (_, kept) = l.scatter(&rec, &v([1e-8, 0.0, 0.0])).unwrap();
    assert_eq!(a(kept.direction), [1e-8, 0.0, 0.0]);
}

#[test]
fn metal_scatters_a_direction_that_leaves_the_surface() {
    let m = Metal::new(v([0.8, 0.6, 0.2]), s(0.0));
    let rec = record(true);
    let normal = a(rec.normal);
    let reflected = reflect(unit([1.0, -1.0, 0.0]), normal);
    let (attenuation, scattered) =
        m.scatter(&rec, &v(reflected), s(dot(reflected, normal))).expect("a mirror reflects");
    assert_eq!(a(attenuation), [0.8, 0.6, 0.2]);
    assert_eq!(a(scattered.origin), [1.0, 2.0, 3.0]);
    assert_eq!(a(scattered.direction), reflected);
    assert!(reflected[1] > 0.0);
}

#[test]
fn metal_absorbs_a_fuzzed_direction_that_enters_the_surface() {
    // Grazing incidence, fuzz 1.0, and the draw fixed at a point of the unit
    // ball that pushes the reflection below the surface.
    let m = Metal::new(v([0.8, 0.6, 0.2]), s(1.0));
    let rec = record(true);
    let normal = a(rec.normal);
    let reflected = reflect(unit([1.0, -0.01, 0.0]), normal);
    let draw = [0.0, -0.9, 0.0];
    let fuzz = f(m.fuzz);
    let fuzzed = [reflected[0] + fuzz * draw[0], reflected[1] + fuzz * draw[1], reflected[2] + fuzz * draw[2]];
    let facing = dot(fuzzed, normal);
    assert!(facing <= 0.0);
    assert!(m.scatter(&rec, &v(fuzzed), s(facing)).is_none());
}

#[test]
fn metal_absorbs_exactly_when_facing_is_not_above_zero() {
    let m = Metal::new(v([0.8, 0.6, 0.2]), s(1.0));
    let rec = record(true);
    let fuzzed = v([0.3, 0.4, 0.5]);
    for facing in [0.0, -0.0, -1e-300, -1.0, f64::NEG_INFINITY, f64::NAN] {
        assert!(m.scatter(&rec, &fuzzed, s(facing)).is_none(), "{}", facing);
    }
    for facing in [5e-324, 1e-300, 1.0, f64::INFINITY] {
        assert!(m.scatter(&rec, &fuzzed, s(facing)).is_some(), "{}", facing);
    }
}

#[test]
fn dielectric_reflects_when_it_cannot_refract() {
    let d = Dielectric::new(s(1.5));
    let rec = record(false);
    let normal = a(rec.normal);
    let direction = [1.0, 0.2, 0.0];
    let reflected = reflect(unit(direction), normal);
    let entering = refraction(direction, normal, 1.0 / 1.5);
    let leaving = refraction(direction, normal, 1.5);
    assert!(f(leaving.bend) > 1.0);
    for draw in [0.0, 0.5, 0.999_999] {
        let (attenuation, scattered) =
            d.scatter_with(&rec, &v(reflected), &entering, &leaving, s(draw)).unwrap();
        assert_eq!(a(attenuation), [1.0, 1.0, 1.0]);
        assert_eq!(a(scattered.origin), [1.0, 2.0, 3.0]);
        assert_eq!(a(scattered.direction), reflected);
    }
    let (_, scattered) = d.scatter(&rec, &v(reflected), &entering, &leaving).unwrap();
    assert_eq!(a(scattered.direction), reflected);
}

#[test]
fn dielectric_picks_the_ratio_by_the_face() {
    let d = Dielectric::new(s(1.5));
    let reflected = v([9.0, 9.0, 9.0]);
    let entering = Refraction { bend: s(0.1), reflectance: s(0.0), refracted: v([1.0, 0.0, 0.0]) };
    let leaving = Refraction { bend: s(0.1), reflectance: s(0.0), refracted: v([0.0, 1.0, 0.0]) };
    let (_, front) = d.scatter_with(&record(true), &reflected, &entering, &leaving, s(0.5)).unwrap();
    assert_eq!(a(front.direction), [1.0, 0.0, 0.0]);
    let (_, back) = d.scatter_with(&record(false), &reflected, &entering, &leaving, s(0.5)).unwrap();
    assert_eq!(a(back.direction), [0.0, 1.0, 0.0]);
}

#[test]
fn dielectric_reflects_when_the_reflectance_is_above_the_draw() {
    let d = Dielectric::new(s(1.5));
    let rec = record(true);
    let reflected = v([9.0, 9.0, 9.0]);
    let entering = Refraction { bend: s(0.6), reflectance: s(0.25), refracted: v([1.0, 0.0, 0.0]) };
    let leaving = Refraction { bend: s(2.0), reflectance: s(1.0), refracted: v([0.0, 1.0, 0.0]) };
    let cases = [(0.0, true), (0.2, true), (0.249_999, true), (0.25, false), (0.3, false), (0.999, false)];
    for (draw, reflects) in cases {
        let (attenuation, scattered) =
            d.scatter_with(&rec, &reflected, &entering, &leaving, s(draw)).unwrap();
        let expected = if reflects { [9.0, 9.0, 9.0] } else { [1.0, 0.0, 0.0] };
        assert_eq!(a(scattered.direction), expected, "{}", draw);
        assert_eq!(a(attenuation), [1.0, 1.0, 1.0]);
    }
}

#[test]
fn dielectric_bend_of_exactly_one_still_refracts() {
    let d = Dielectric::new(s(1.5));
    let rec = record(true);
    let entering = Refraction { bend: s(1.0), reflectance: s(0.0), refracted: v([1.0, 0.0, 0.0]) };
    let (_, scattered) =
        d.scatter_with(&rec, &v([9.0, 9.0, 9.0]), &entering, &entering, s(0.5)).unwrap();
    assert_eq!(a(scattered.direction), [1.0, 0.0, 0.0]);
}

#[test]
fn dielectric_never_absorbs() {
    let d = Dielectric::new(s(1.5));
    let angles = [[0.0, -1.0, 0.0], [1.0, -1.0, 0.0], [1.0, -0.01, 0.0], [0.3, -0.2, 0.9], [1.0, -1e-9, 0.0]];
    for front_face in [true, false] {
        let rec = record(front_face);
        let normal = a(rec.normal);
        for ir in [0.5, 1.0, 1.5, 2.4] {
            for direction in angles {
                let reflected = v(reflect(unit(direction), normal));
                let entering = refraction(direction, normal, 1.0 / ir);
                let leaving = refraction(direction, normal, ir);
                let active = if front_face { &entering } else { &leaving };
                for _ in 0..20 {
                    let (attenuation, scattered) = Dielectric::new(s(ir))
                        .scatter(&rec, &reflected, &entering, &leaving)
                        .expect("a dielectric never absorbs");
                    assert_eq!(a(attenuation), [1.0, 1.0, 1.0]);
                    assert_eq!(a(scattered.origin), [1.0, 2.0, 3.0]);
                    let got = a(scattered.direction).map(f64::to_bits);
                    assert!(
                        got == a(reflected).map(f64::to_bits)
                            || got == a(active.refracted).map(f64::to_bits)
                    );
                }
            }
        }
    }
    assert_eq!(f(d.ir), 1.5);
}

#[test]
fn dielectric_scatter_takes_both_branches_at_a_reflectance_of_one_half() {
    let d = Dielectric::new(s(1.5));
    let rec = record(true);
    let reflected = v([9.0, 9.0, 9.0]);
    let entering = Refraction { bend: s(0.5), reflectance: s(0.5), refracted: v([1.0, 0.0, 0.0]) };
    let mut reflections = 0;
    let mut refractions = 0;
    for _ in 0..400 {
        let (_, scattered) = d.scatter(&rec, &reflected, &entering, &entering).unwrap();
        if a(scattered.direction) == [9.0, 9.0, 9.0] {
            reflections += 1;
        } else {
            assert_eq!(a(scattered.direction), [1.0, 0.0, 0.0]);
            refractions += 1;
        }
    }
    assert!(reflections > 0);
    assert!(refractions > 0);
}

#[test]
fn path_with_no_cast_left_is_black_at_once() {
    for depth in [0, -1, i32::MIN] {
        let path = Path::new(ray(), depth);
        assert!(matches!(path.ending, Some(Ending::Exhausted)));
        assert!(path.filters.is_empty());
        assert!(path.is_black());
        assert_eq!(a(path.unfiltered().unwrap()), [0.0, 0.0, 0.0]);
    }
}

#[test]
fn path_with_casts_left_goes_on() {
    let path = Path::new(ray(), 50);
    assert!(path.ending.is_none());
    assert_eq!(path.depth, 50);
    assert!(!path.is_black());
    assert!(path.unfiltered().is_none());
    assert_eq!(a(path.ray.direction), [0.0, 0.0, -1.0]);
}

#[test]
fn path_that_misses_escapes_along_its_last_ray() {
    let mut path = Path::new(ray(), 3);
    path.advance(scattering(0.5, [0.0, 1.0, 0.0]));
    path.advance(None);
    assert!(matches!(path.ending, Some(Ending::Escaped)));
    assert_eq!(filters(&path), vec![0.5]);
    assert_eq!(a(path.ray.direction), [0.0, 1.0, 0.0]);
    assert!(!path.is_black());
    assert!(path.unfiltered().is_none());
}

#[test]
fn path_that_is_absorbed_is_black() {
    let mut path = Path::new(ray(), 3);
    path.advance(Some(None));
    assert!(matches!(path.ending, Some(Ending::Absorbed)));
    assert!(path.is_black());
    assert_eq!(a(path.unfiltered().unwrap()), [0.0, 0.0, 0.0]);
    assert_eq!(path.depth, 3);
}

#[test]
fn path_is_exhausted_after_as_many_scatterings_as_its_depth() {
    let mut path = Path::new(ray(), 3);
    path.advance(scattering(0.1, [1.0, 0.0, 0.0]));
    assert!(path.ending.is_none());
    assert_eq!(path.depth, 2);
    path.advance(scattering(0.2, [0.0, 1.0, 0.0]));
    assert!(path.ending.is_none());
    assert_eq!(path.depth, 1);
    path.advance(scattering(0.3, [0.0, 0.0, 1.0]));
    assert!(matches!(path.ending, Some(Ending::Exhausted)));
    assert_eq!(path.depth, 0);
    assert_eq!(filters(&path), vec![0.1, 0.2, 0.3]);
    assert_eq!(a(path.ray.direction), [0.0, 0.0, 1.0]);
    assert!(path.is_black());
}

#[test]
fn path_that_has_ended_stays_as_it_is() {
    let mut path = Path::new(ray(), 2);
    path.advance(None);
    path.advance(scattering(0.3, [0.0, 0.0, 1.0]));
    path.advance(Some(None));
    assert!(matches!(path.ending, Some(Ending::Escaped)));
    assert!(path.filters.is_empty());
    assert_eq!(path.depth, 2);
    assert_eq!(a(path.ray.direction), [0.0, 0.0, -1.0]);
}

#[test]
fn hit_interval_starts_above_zero_and_never_ends() {
    let (t_min, t_max) = Path::hit_interval();
    assert_eq!(f(t_min), 0.001);
    assert_eq!(f(t_max), f64::INFINITY);
    assert_eq!(SHADOW_BIAS_BITS, 0.001f64.to_bits());
}
