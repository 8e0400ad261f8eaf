use ray_tracer::geometry::{HitEnum, HitRecord, Ray, Vec3};
use ray_tracer::material::{Lambertian, MaterialEnum};
use ray_tracer::renderer::{ray_color, reach, sky, Renderer, Trace, SHADOW_ACNE};
use ray_tracer::scalar::Scalar;

fn s(x: f64) -> Scalar {
    Scalar::from_bits(x.to_bits())
}

fn v(x: f64, y: f64, z: f64) -> Vec3 {
    Vec3::new(s(x), s(y), s(z))
}

fn f(x: Scalar) -> f64 {
    f64::from_bits(x.to_bits())
}

fn triple(vector: Vec3) -> (f64, f64, f64) {
    (f(vector.x), f(vector.y), f(vector.z))
}

fn a_hit() -> Option<HitRecord> {
    Some(HitRecord::new(v(0., 0., -1.), s(1.), s(-1.), v(0., 0., 1.), Lambertian::new(v(0.5, 0.5, 0.5))))
}

fn a_scatter() -> Option<(Vec3, Ray)> {
    Some((v(0.5, 0.5, 0.5), Ray::new(v(0., 0., -1.), v(0., 1., 1.))))
}

#[test]
fn renderer_starts_with_the_default_settings() {
    let renderer = Renderer::new();
    assert_eq!(renderer.image_width, 256);
    assert_eq!(renderer.image_height, 256);
    assert_eq!(renderer.samples_per_pixle, 600);
    assert_eq!(renderer.max_depth, 50);
}

#[test]
fn renderer_settings_change_one_at_a_time() {
    let renderer = Renderer::new().image_width(400);
    assert_eq!(renderer, Renderer { image_width: 400, image_height: 256, samples_per_pixle: 600, max_depth: 50 });
    let renderer = renderer.image_height(225);
    assert_eq!(renderer, Renderer { image_width: 400, image_height: 225, samples_per_pixle: 600, max_depth: 50 });
    let renderer = renderer.samples_per_pixle(100);
    assert_eq!(renderer, Renderer { image_width: 400, image_height: 225, samples_per_pixle: 100, max_depth: 50 });
    let renderer = renderer.max_depth(7);
    assert_eq!(renderer, Renderer { image_width: 400, image_height: 225, samples_per_pixle: 100, max_depth: 7 });
}

#[test]
fn path_without_rays_left_is_black_whatever_it_met() {
    assert_eq!(ray_color(0, a_hit(), a_scatter()), Trace::Black);
    assert_eq!(ray_color(0, a_hit(), None), Trace::Black);
    assert_eq!(ray_color(0, None, None), Trace::Black);
    assert_eq!(ray_color(0, None, a_scatter()), Trace::Black);
}

#[test]
fn path_that_meets_nothing_ends_in_the_sky() {
    assert_eq!(ray_color(1, None, None), Trace::Sky);
    assert_eq!(ray_color(50, None, None), Trace::Sky);
    assert_eq!(ray_color(50, None, a_scatter()), Trace::Sky);
    assert_eq!(ray_color(usize::MAX, None, None), Trace::Sky);
}

#[test]
fn path_that_is_absorbed_is_black() {
    assert_eq!(ray_color(1, a_hit(), None), Trace::Black);
    assert_eq!(ray_color(50, a_hit(), None), Trace::Black);
}

#[test]
fn path_that_is_scattered_goes_on_with_one_ray_fewer() {
    let (attenuation, ray) = a_scatter().unwrap();
    assert_eq!(ray_color(50, a_hit(), a_scatter()), Trace::Follow { attenuation, ray, depth: 49 });
    assert_eq!(ray_color(1, a_hit(), a_scatter()), Trace::Follow { attenuation, ray, depth: 0 });
}

#[test]
fn path_is_no_longer_than_its_depth() {
    for max_depth in [0usize, 1, 2, 5, 50] {
        let mut depth = max_depth;
        let mut followed = 0usize;
        loop {
            match ray_color(depth, a_hit(), a_scatter()) {
                Trace::Follow { depth: left, .. } => {
                    followed += 1;
                    depth = left;
                }
                end => {
                    assert_eq!(end, Trace::Black);
                    break;
                }
            }
        }
        assert_eq!(followed, max_depth);
    }
}

#[test]
fn site_turns_the_row_over() {
    let renderer = Renderer::new().image_width(400).image_height(225);
    let site = renderer.site(0, 0);
    assert_eq!((site.x, site.y, site.across, site.up), (0, 225, 399, 224));
    let site = renderer.site(399, 224);
    assert_eq!((site.x, site.y, site.across, site.up), (399, 1, 399, 224));
    let site = renderer.site(17, 100);
    assert_eq!((site.x, site.y, site.across, site.up), (17, 125, 399, 224));
    let site = Renderer::new().image_width(1).image_height(1).site(0, 0);
    assert_eq!((site.x, site.y, site.across, site.up), (0, 1, 0, 0));
}

#[test]
fn pixels_run_row_by_row() {
    let renderer = Renderer::new().image_width(3).image_height(2);
    assert_eq!(renderer.pixels(), vec![(0, 0), (1, 0), (2, 0), (0, 1), (1, 1), (2, 1)]);
    assert_eq!(Renderer::new().image_width(0).image_height(5).pixels(), vec![]);
    assert_eq!(Renderer::new().image_width(5).image_height(0).pixels(), vec![]);
    assert_eq!(Renderer::new().image_width(1).image_height(3).pixels(), vec![(0, 0), (0, 1), (0, 2)]);
    let all = Renderer::new().image_width(40).image_height(30).pixels();
    assert_eq!(all.len(), 1200);
    assert_eq!(all[40 * 7 + 13], (13, 7));
}

#[test]
fn render_order_holds_every_pixel_once() {
    let mut rng = rand::thread_rng();
    for (width, height) in [(0u32, 0u32), (1, 1), (3, 2), (32, 32), (7, 50)] {
        let renderer = Renderer::new().image_width(width).image_height(height);
        let mut order = renderer.render_order(&mut rng);
        assert_eq!(order.len(), (width * height) as usize);
        order.sort_by_key(|&(x, y)| (y, x));
        assert_eq!(order, renderer.pixels());
    }
}

#[test]
fn render_order_is_shuffled() {
    let mut rng = rand::thread_rng();
    let renderer = Renderer::new().image_width(32).image_height(32);
    assert_ne!(renderer.render_order(&mut rng), renderer.pixels());
    assert_ne!(renderer.render_order(&mut rng), renderer.render_order(&mut rng));
}

#[test]
fn scene_is_three_balls_on_the_ground() {
    let scene = Renderer::new().image_width(400).image_height(225).get_scene();
    assert_eq!(scene.camera_width, 400);
    assert_eq!(scene.camera_height, 225);
    assert_eq!(scene.hittable.len(), 4);
    let mut found = Vec::new();
    for k in 0..4 {
        match scene.hittable.get(k) {
            HitEnum::Sphere(sphere) => found.push((triple(sphere.center), f(sphere.radius), sphere.material)),
            _ => panic!("not a sphere"),
        }
    }
    assert_eq!(found[0].0, (0.0, -100.5, -1.0));
    assert_eq!(found[0].1, 100.0);
    assert_eq!(found[0].2, Lambertian::new(v(0.8, 0.8, 0.0)));
    assert_eq!(found[1].0, (0.0, 0.0, -1.0));
    assert_eq!(found[1].1, 0.5);
    assert_eq!(found[1].2, Lambertian::new(v(0.7, 0.3, 0.3)));
    assert_eq!(found[2].0, (-1.0, 0.0, -1.0));
    assert_eq!(found[2].1, 0.5);
    match found[2].2 {
        MaterialEnum::Metal(metal) => {
            assert_eq!(triple(metal.albedo), (0.8, 0.8, 0.8));
            assert_eq!(metal.roughness.map(f), Some(1.0));
        }
        _ => panic!("not a metal"),
    }
    assert_eq!(found[3].0, (1.0, 0.0, -1.0));
    assert_eq!(found[3].1, 0.5);
    match found[3].2 {
        MaterialEnum::Metal(metal) => {
            assert_eq!(triple(metal.albedo), (0.8, 0.6, 0.2));
            assert_eq!(metal.roughness, None);
        }
        _ => panic!("not a metal"),
    }
}

#[test]
fn reach_starts_behind_the_shadow_acne_and_has_no_end() {
    assert_eq!(SHADOW_ACNE, 0.001f64.to_bits());
    let range = reach();
    assert_eq!(f(range.start), 0.001);
    assert_eq!(f(range.end), f64::INFINITY);
    assert!(range.contains(s(0.0011)));
    assert!(range.contains(s(1e300)));
    assert!(!range.contains(s(0.001)));
    assert!(!range.contains(s(0.0)));
    assert!(!range.contains(s(-1.0)));
}

#[test]
fn sky_runs_from_white_to_blue() {
    let (below, above) = sky();
    assert_eq!(triple(below), (1.0, 1.0, 1.0));
    assert_eq!(triple(above), (0.5, 0.7, 1.0));
}
