use ray_tracer::geometry::{HitRecord, Ray, Vec3};
use ray_tracer::material::{Bend, Dialectric, Lambertian, MaterialEnum, Metal};
use ray_tracer::scalar::Scalar;

fn s(x: f64) -> Scalar {
    Scalar::from_bits(x.to_bits())
}

fn v(x: f64, y: f64, z: f64) -> Vec3 {
    Vec3::new(s(x), s(y), s(z))
}

fn record(material: MaterialEnum) -> HitRecord {
    HitRecord::new(v(1., 2., 3.), s(4.), s(-1.), v(0., 0., 1.), material)
}

fn lambertian(albedo: Vec3) -> Lambertian {
    match Lambertian::new(albedo) {
        MaterialEnum::Lambertian(material) => material,
        _ => panic!("not a lambertian"),
    }
}

fn metal(albedo: Vec3, roughness: Option<f64>) -> Metal {
    match Metal::new(albedo, roughness.map(s)) {
        MaterialEnum::Metal(material) => material,
        _ => panic!("not a metal"),
    }
}

fn dialectric(index: f64) -> Dialectric {
    match Dialectric::new(s(index)) {
        MaterialEnum::Dialectric(material) => material,
        _ => panic!("not a dialectric"),
    }
}

#[test]
fn lambertian_always_scatters() {
    let material = lambertian(v(0.7, 0.3, 0.3));
    let hit = record(Lambertian::new(v(0.7, 0.3, 0.3)));
    let candidates = [
        v(0.3, -0.2, 1.4),
        v(0., 0., 0.),
        v(1e-9, -1e-9, 1e-9),
        v(f64::NAN, 0., 0.),
        v(f64::INFINITY, 0., 0.),
        v(-5., -5., -5.),
    ];
    for candidate in candidates {
        assert!(material.scatter(&hit, candidate).is_some());
    }
}

#[test]
fn lambertian_scatters_along_the_candidate_with_its_albedo() {
    let material = lambertian(v(0.7, 0.3, 0.3));
    let hit = record(Lambertian::new(v(0.7, 0.3, 0.3)));
    let (attenuation, scattered) = material.scatter(&hit, v(0.3, -0.2, 1.4)).unwrap();
    assert_eq!(attenuation, v(0.7, 0.3, 0.3));
    assert_eq!(scattered, Ray::new(v(1., 2., 3.), v(0.3, -0.2, 1.4)));
}

#[test]
fn lambertian_falls_back_to_the_normal() {
    let material = lambertian(v(0.7, 0.3, 0.3));
    let hit = record(Lambertian::new(v(0.7, 0.3, 0.3)));
    let (attenuation, scattered) = material.scatter(&hit, v(1e-9, -1e-9, 0.)).unwrap();
    assert_eq!(attenuation, v(0.7, 0.3, 0.3));
    assert_eq!(scattered, Ray::new(v(1., 2., 3.), v(0., 0., 1.)));
}

#[test]
fn metal_keeps_a_roughness_between_zero_and_one() {
    assert_eq!(metal(v(0.8, 0.8, 0.8), None).roughness, None);
    assert_eq!(metal(v(0.8, 0.8, 0.8), Some(0.25)).roughness, Some(s(0.25)));
    assert_eq!(metal(v(0.8, 0.8, 0.8), Some(1.0)).roughness, Some(s(1.0)));
    assert_eq!(metal(v(0.8, 0.8, 0.8), Some(1.5)).roughness, Some(s(1.0)));
    assert_eq!(metal(v(0.8, 0.8, 0.8), Some(-0.3)).roughness, Some(s(0.0)));
    assert_eq!(metal(v(0.8, 0.8, 0.8), Some(f64::INFINITY)).roughness, Some(s(1.0)));
    assert!(metal(v(0.8, 0.8, 0.8), Some(f64::NAN)).roughness.unwrap().is_nan());
    assert_eq!(metal(v(0.8, 0.6, 0.2), None).albedo, v(0.8, 0.6, 0.2));
}

#[test]
fn polished_metal_mirrors_a_ray_that_comes_down_the_normal() {
    // The ray comes straight down the normal; its mirror image goes
    // straight back up.
    let normal = (0.0f64, 0.0f64, 1.0f64);
    let direction = (0.0f64, 0.0f64, -2.0f64);
    let along = direction.0 * normal.0 + direction.1 * normal.1 + direction.2 * normal.2;
    let mirrored = (
        direction.0 - 2.0 * along * normal.0,
        direction.1 - 2.0 * along * normal.1,
        direction.2 - 2.0 * along * normal.2,
    );
    let length = (mirrored.0 * mirrored.0 + mirrored.1 * mirrored.1 + mirrored.2 * mirrored.2).sqrt();
    let reflected = (mirrored.0 / length, mirrored.1 / length, mirrored.2 / length);
    let alignment = reflected.0 * normal.0 + reflected.1 * normal.1 + reflected.2 * normal.2;

    for roughness in [None, Some(0.0)] {
        let material = metal(v(0.8, 0.6, 0.2), roughness);
        let hit = record(MaterialEnum::Metal(material));
        let (attenuation, scattered) = material
            .scatter(&hit, v(reflected.0, reflected.1, reflected.2), s(alignment))
            .unwrap();
        assert_eq!(attenuation, v(0.8, 0.6, 0.2));
        assert_eq!(scattered.origin, v(1., 2., 3.));
        assert_eq!(scattered.direction, v(0., 0., 1.));
    }
}

#[test]
fn metal_absorbs_a_reflection_that_points_into_the_surface() {
    let material = metal(v(0.8, 0.8, 0.8), Some(1.0));
    let hit = record(MaterialEnum::Metal(material));
    assert_eq!(material.scatter(&hit, v(0.1, 0.2, -0.3), s(-0.3)), None);
    assert_eq!(material.scatter(&hit, v(0.1, 0.2, 0.0), s(0.0)), None);
    assert_eq!(material.scatter(&hit, v(0.1, 0.2, -0.0), s(-0.0)), None);
    assert_eq!(material.scatter(&hit, v(0.1, 0.2, 0.0), s(f64::NAN)), None);
    assert_eq!(
        material.scatter(&hit, v(0.1, 0.2, 0.3), s(0.3)),
        Some((v(0.8, 0.8, 0.8), Ray::new(v(1., 2., 3.), v(0.1, 0.2, 0.3))))
    );
}

#[test]
fn dialectric_takes_the_reciprocal_on_the_way_in() {
    let glass = dialectric(1.5);
    assert_eq!(glass.index_of_refraction, s(1.5));
    assert_eq!(glass.refraction_ratio(true, s(1.0 / 1.5)), s(1.0 / 1.5));
    assert_eq!(glass.refraction_ratio(false, s(1.0 / 1.5)), s(1.5));
}

#[test]
fn dialectric_under_total_internal_reflection_mirrors_whatever_is_drawn() {
    let glass = dialectric(1.5);
    let hit = record(MaterialEnum::Dialectric(glass));
    // Leaving glass at 60 degrees: 1.5 * sin(60 degrees) is over 1.
    let snell = 1.5 * (60.0f64).to_radians().sin();
    assert!(snell > 1.0);
    let bend = Bend {
        snell: s(snell),
        reflectance: s(0.2),
        reflected: v(0.6, 0.0, 0.8),
        refracted: v(0.9, 0.0, -0.4),
    };
    for sample in [0.0, 0.1, 0.2, 0.5, 0.999, 1.0, f64::NAN] {
        let (attenuation, scattered) = glass.scatter(&hit, &bend, s(sample)).unwrap();
        assert_eq!(attenuation, v(1., 1., 1.));
        assert_eq!(scattered, Ray::new(v(1., 2., 3.), v(0.6, 0.0, 0.8)));
    }
}

#[test]
fn dialectric_that_can_refract_goes_by_the_sample() {
    let glass = dialectric(1.5);
    let hit = record(MaterialEnum::Dialectric(glass));
    let bend = Bend {
        snell: s(0.4),
        reflectance: s(0.2),
        reflected: v(0.6, 0.0, 0.8),
        refracted: v(0.9, 0.0, -0.4),
    };
    let mirrored = Some((v(1., 1., 1.), Ray::new(v(1., 2., 3.), v(0.6, 0.0, 0.8))));
    let bent = Some((v(1., 1., 1.), Ray::new(v(1., 2., 3.), v(0.9, 0.0, -0.4))));
    assert_eq!(glass.scatter(&hit, &bend, s(0.1)), mirrored);
    assert_eq!(glass.scatter(&hit, &bend, s(0.0)), mirrored);
    assert_eq!(glass.scatter(&hit, &bend, s(0.2)), bent);
    assert_eq!(glass.scatter(&hit, &bend, s(0.7)), bent);
    assert_eq!(glass.scatter(&hit, &bend, s(1.0)), bent);
    let edge = Bend { snell: s(1.0), ..bend };
    assert_eq!(glass.scatter(&hit, &edge, s(0.7)), bent);
}

#[test]
fn cosine_is_never_over_one() {
    for product in [-1.0, -0.3, 0.0, 0.5, 1.0, 1.0 + f64::EPSILON, 7.0, f64::INFINITY, f64::NAN] {
        let got = Dialectric::cosine(s(product));
        assert_eq!(got.to_bits(), product.min(1.0).to_bits(), "{product}");
    }
    assert_eq!(Dialectric::cosine(s(1.0000000000000002)), s(1.0));
    assert_eq!(Dialectric::cosine(s(0.25)), s(0.25));
}
