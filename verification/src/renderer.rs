//! The picture: its settings, the scene it shows by default, the order in
//! which its pixels are taken, and how a path of light through the scene
//! ends.
pub mod picture;

use crate::geometry::hittable::hitable_list::chosen;
use crate::geometry::{
    Color, HitEnum, HitRecord, HitableList, Interval, Ray, SceneDescription, Sphere, Vec3,
};
use crate::material::{Lambertian, MaterialEnum, Metal};
use crate::scalar::{Scalar, INFINITY, ONE};
use rand::rngs::ThreadRng;
use rand::seq::SliceRandom;
use vstd::arithmetic::div_mod::lemma_fundamental_div_mod_converse;
use vstd::prelude::*;

verus! {

/// The pattern of `0.001`: a hit closer to the start of a ray than this is
/// the surface that the ray has just left, met again by a rounding error.
pub const SHADOW_ACNE: u64 = 0x3F50_624D_D2F1_A9FC;

/// The pattern of `-100.5`.
pub const MINUS_100_5: u64 = 0xC059_2000_0000_0000;

/// The pattern of `-1.0`.
pub const MINUS_1: u64 = 0xBFF0_0000_0000_0000;

/// The pattern of `100.0`.
pub const PLUS_100: u64 = 0x4059_0000_0000_0000;

/// The pattern of `0.2`.
pub const TENTHS_2: u64 = 0x3FC9_9999_9999_999A;

/// The pattern of `0.3`.
pub const TENTHS_3: u64 = 0x3FD3_3333_3333_3333;

/// The pattern of `0.5`.
pub const TENTHS_5: u64 = 0x3FE0_0000_0000_0000;

/// The pattern of `0.6`.
pub const TENTHS_6: u64 = 0x3FE3_3333_3333_3333;

/// The pattern of `0.7`.
pub const TENTHS_7: u64 = 0x3FE6_6666_6666_6666;

/// The pattern of `0.8`.
pub const TENTHS_8: u64 = 0x3FE9_9999_9999_999A;

/// The settings of a picture.
#[derive(Clone, Copy, Debug, PartialEq, Eq, Structural)]
pub struct Renderer {
    pub image_width: u32,
    pub image_height: u32,
    pub samples_per_pixle: usize,
    pub max_depth: usize,
}

/// The random number generator of the running thread, as `rand` hands it
/// out. The library passes it on and never looks inside.
#[verifier::external_type_specification]
#[verifier::external_body]
pub struct ExThreadRng(ThreadRng);

/// Shuffles `pixels` in place with `rand`'s `SliceRandom::shuffle`, which
/// does nothing but swap entries: afterwards the vector holds what it held
/// before, each entry as often as before. Nothing is claimed of the order.
#[verifier::external_body]
fn shuffle(pixels: &mut Vec<(u32, u32)>, rng: &mut ThreadRng)
    ensures
        final(pixels)@.to_multiset() == old(pixels)@.to_multiset(),
{
    pixels.shuffle(rng);
}

/// How a path goes on after one of its rays was tried against the scene.
#[derive(Clone, Copy, Debug, PartialEq)]
pub enum Trace {
    /// The path ends and carries no light.
    Black,
    /// The path ends in the sky, which lights it.
    Sky,
    /// The path goes on along `ray`, with `depth` rays left to it; what it
    /// finds there is weighted by `attenuation`.
    Follow { attenuation: Color, ray: Ray, depth: usize },
}

/// Where the samples of one pixel are taken, as whole numbers: a sample's
/// horizontal coordinate is `x` plus its jitter, over `across`, and its
/// vertical coordinate is `y` plus its jitter, over `up`.
#[derive(Clone, Copy, Debug, PartialEq, Eq, Structural)]
pub struct PixelSite {
    pub x: u32,
    pub y: u32,
    pub across: u32,
    pub up: u32,
}

/// How a path goes on: it ends without light once no ray is left to it or
/// a surface absorbed it, ends in the sky where its ray met nothing, and
/// else follows the scattered ray with one ray fewer left.
pub open spec fn spec_ray_color(
    depth: usize,
    hit: Option<HitRecord>,
    scattered: Option<(Color, Ray)>,
) -> Trace {
    if depth == 0 {
        Trace::Black
    } else if hit is None {
        Trace::Sky
    } else if scattered is None {
        Trace::Black
    } else {
        Trace::Follow {
            attenuation: scattered.unwrap().0,
            ray: scattered.unwrap().1,
            depth: (depth - 1) as usize,
        }
    }
}

/// Decides how a path goes on. `depth` is the number of rays left to the
/// path, `hit` is what its current ray met in the scene, and `scattered` is
/// what the material at the hit made of the ray (it is not read where
/// nothing was hit).
#[verifier::when_used_as_spec(spec_ray_color)]
pub fn ray_color(depth: usize, hit: Option<HitRecord>, scattered: Option<(Color, Ray)>) -> (r:
    Trace)
    ensures
        r == spec_ray_color(depth, hit, scattered),
        depth == 0 ==> r == Trace::Black,
        r is Follow ==> r->depth < depth,
{
    if depth == 0 {
        return Trace::Black;
    }
    match hit {
        None => Trace::Sky,
        Some(_) => match scattered {
            None => Trace::Black,
            Some((attenuation, ray)) => Trace::Follow { attenuation, ray, depth: depth - 1 },
        },
    }
}

/// Where along a ray of a path a hit counts: further than 0.001 from its
/// start, and at any finite distance.
pub open spec fn spec_reach() -> Interval {
    Interval { start: Scalar { bits: SHADOW_ACNE }, end: Scalar { bits: INFINITY } }
}

/// The colours of the sky: white straight below, and the blue
/// (0.5, 0.7, 1.0) straight above, between which the caller blends by the
/// height of a ray's direction.
pub open spec fn spec_sky() -> (Color, Color) {
    (
        Vec3::spec_ones(),
        Vec3 {
            x: Scalar { bits: TENTHS_5 },
            y: Scalar { bits: TENTHS_7 },
            z: Scalar { bits: ONE },
        },
    )
}

/// Where along a ray of a path a hit counts.
#[verifier::when_used_as_spec(spec_reach)]
pub fn reach() -> (r: Interval)
    ensures
        r == spec_reach(),
{
    Interval::new(Scalar::from_bits(SHADOW_ACNE), Scalar::from_bits(INFINITY))
}

/// The colours of the sky, the lower one first.
#[verifier::when_used_as_spec(spec_sky)]
pub fn sky() -> (r: (Color, Color))
    ensures
        r == spec_sky(),
{
    (
        Vec3::ones(),
        Vec3::new(Scalar::from_bits(TENTHS_5), Scalar::from_bits(TENTHS_7), Scalar::one()),
    )
}

/// How many rays a path follows beyond its first, where `encounters` holds
/// for each ray in turn what it met and what was made of it there.
pub open spec fn rays_followed(
    depth: usize,
    encounters: Seq<(Option<HitRecord>, Option<(Color, Ray)>)>,
) -> nat
    decreases encounters.len(),
{
    if encounters.len() == 0 {
        0
    } else {
        match spec_ray_color(depth, encounters[0].0, encounters[0].1) {
            Trace::Follow { depth: left, .. } => 1 + rays_followed(left, encounters.drop_first()),
            _ => 0,
        }
    }
}

/// A path follows no more rays than its depth allows, whatever it meets.
pub proof fn lemma_path_is_bounded(
    depth: usize,
    encounters: Seq<(Option<HitRecord>, Option<(Color, Ray)>)>,
)
    ensures
        rays_followed(depth, encounters) <= depth,
    decreases encounters.len(),
{
    if encounters.len() > 0 {
        match spec_ray_color(depth, encounters[0].0, encounters[0].1) {
            Trace::Follow { depth: left, .. } => {
                lemma_path_is_bounded(left, encounters.drop_first());
            },
            _ => {},
        }
    }
}

/// In the empty scene every path that has a ray to spend ends in the sky
/// with its first ray: a scan without candidates finds nothing, whatever
/// the ray, and so nothing is scattered and nothing absorbed.
pub proof fn lemma_empty_scene_is_sky(
    depth: usize,
    found: Option<HitRecord>,
    scattered: Option<(Color, Ray)>,
)
    requires
        depth > 0,
        chosen(Seq::<Option<HitRecord>>::empty(), found),
    ensures
        spec_ray_color(depth, found, scattered) == Trace::Sky,
{
    HitableList::lemma_empty_scene_no_hit(found);
}

impl Renderer {
    /// The pixel that is number `k` of a picture `width` pixels wide, as
    /// column and row, counting row by row.
    pub open spec fn raster_at(width: nat, k: int) -> (u32, u32) {
        ((k % width as int) as u32, (k / width as int) as u32)
    }

    /// The pixels of a picture of the given size, row by row from the top,
    /// each row from the left.
    pub open spec fn raster(width: nat, height: nat) -> Seq<(u32, u32)> {
        Seq::new(width * height, |k: int| Self::raster_at(width, k))
    }

    /// The triple of the scalars with the given patterns.
    pub open spec fn spec_triple(x: u64, y: u64, z: u64) -> Vec3 {
        Vec3 { x: Scalar { bits: x }, y: Scalar { bits: y }, z: Scalar { bits: z } }
    }

    /// The sphere of radius `radius` about `center`, of material `material`.
    pub open spec fn spec_ball(center: Vec3, radius: u64, material: MaterialEnum) -> HitEnum {
        HitEnum::Sphere(Sphere { center, radius: Scalar { bits: radius }, material })
    }

    /// The scene that is shown: a matt ball of radius 0.5 at (0, 0, -1),
    /// between a brushed metal ball at its left and a polished one at its
    /// right, all three on a matt ball of radius 100 that serves as ground.
    pub open spec fn spec_scene() -> Seq<HitEnum> {
        seq![
            Self::spec_ball(
                Self::spec_triple(0, MINUS_100_5, MINUS_1),
                PLUS_100,
                MaterialEnum::Lambertian(
                    Lambertian { albedo: Self::spec_triple(TENTHS_8, TENTHS_8, 0) },
                ),
            ),
            Self::spec_ball(
                Self::spec_triple(0, 0, MINUS_1),
                TENTHS_5,
                MaterialEnum::Lambertian(
                    Lambertian { albedo: Self::spec_triple(TENTHS_7, TENTHS_3, TENTHS_3) },
                ),
            ),
            Self::spec_ball(
                Self::spec_triple(MINUS_1, 0, MINUS_1),
                TENTHS_5,
                MaterialEnum::Metal(
                    Metal {
                        albedo: Self::spec_triple(TENTHS_8, TENTHS_8, TENTHS_8),
                        roughness: Some(Scalar { bits: ONE }),
                    },
                ),
            ),
            Self::spec_ball(
                Self::spec_triple(ONE, 0, MINUS_1),
                TENTHS_5,
                MaterialEnum::Metal(
                    Metal {
                        albedo: Self::spec_triple(TENTHS_8, TENTHS_6, TENTHS_2),
                        roughness: None,
                    },
                ),
            ),
        ]
    }

    fn triple(x: u64, y: u64, z: u64) -> (r: Vec3)
        ensures
            r == Self::spec_triple(x, y, z),
    {
        Vec3::new(Scalar::from_bits(x), Scalar::from_bits(y), Scalar::from_bits(z))
    }

    /// The scene that is shown, with the size of the picture for the camera.
    pub fn get_scene(&self) -> (r: SceneDescription)
        ensures
            r.hittable@ == Self::spec_scene(),
            r.camera_width == self.image_width,
            r.camera_height == self.image_height,
    {
        let ground_material = Lambertian::new(Self::triple(TENTHS_8, TENTHS_8, 0));
        let center_material = Lambertian::new(Self::triple(TENTHS_7, TENTHS_3, TENTHS_3));
        let left_material = Metal::new(
            Self::triple(TENTHS_8, TENTHS_8, TENTHS_8),
            Some(Scalar::one()),
        );
        let right_material = Metal::new(Self::triple(TENTHS_8, TENTHS_6, TENTHS_2), None);
        let half = Scalar::from_bits(TENTHS_5);
        let mut world = HitableList::new();
        world.add(
            Sphere::new(
                Self::triple(0, MINUS_100_5, MINUS_1),
                Scalar::from_bits(PLUS_100),
                ground_material,
            ),
        );
        world.add(Sphere::new(Self::triple(0, 0, MINUS_1), half, center_material));
        world.add(Sphere::new(Self::triple(MINUS_1, 0, MINUS_1), half, left_material));
        world.add(Sphere::new(Self::triple(ONE, 0, MINUS_1), half, right_material));
        proof {
            assert(world@ =~= Self::spec_scene());
        }
        SceneDescription {
            hittable: world,
            camera_width: self.image_width,
            camera_height: self.image_height,
        }
    }

    /// The default settings: 256 by 256 pixels, 600 samples for each, paths
    /// of at most 50 rays.
    pub fn new() -> (r: Renderer)
        ensures
            r == (Renderer {
                image_width: 256,
                image_height: 256,
                samples_per_pixle: 600,
                max_depth: 50,
            }),
    {
        Renderer { image_width: 256, image_height: 256, samples_per_pixle: 600, max_depth: 50 }
    }

    pub fn image_width(self, image_width: u32) -> (r: Renderer)
        ensures
            r == (Renderer { image_width, ..self }),
    {
        Renderer { image_width, ..self }
    }

    pub fn image_height(self, image_height: u32) -> (r: Renderer)
        ensures
            r == (Renderer { image_height, ..self }),
    {
        Renderer { image_height, ..self }
    }

    pub fn samples_per_pixle(self, samples_per_pixle: usize) -> (r: Renderer)
        ensures
            r == (Renderer { samples_per_pixle, ..self }),
    {
        Renderer { samples_per_pixle, ..self }
    }

    pub fn max_depth(self, max_depth: usize) -> (r: Renderer)
        ensures
            r == (Renderer { max_depth, ..self }),
    {
        Renderer { max_depth, ..self }
    }

    /// The pixels of the picture, row by row from the top, each row from the
    /// left.
    pub fn pixels(&self) -> (r: Vec<(u32, u32)>)
        ensures
            r@ == Self::raster(self.image_width as nat, self.image_height as nat),
    {
        let width = self.image_width;
        let height = self.image_height;
        let mut out: Vec<(u32, u32)> = Vec::new();
        let mut y: u32 = 0;
        while y < height
            invariant
                y <= height,
                out@.len() == y * width,
                forall|k: int|
                    0 <= k < out@.len() ==> out@[k] == Self::raster_at(width as nat, k),
            decreases height - y,
        {
            let mut x: u32 = 0;
            while x < width
                invariant
                    x <= width,
                    y < height,
                    out@.len() == y * width + x,
                    forall|k: int|
                        0 <= k < out@.len() ==> out@[k] == Self::raster_at(width as nat, k),
                decreases width - x,
            {
                proof {
                    lemma_fundamental_div_mod_converse(
                        y * width + x,
                        width as int,
                        y as int,
                        x as int,
                    );
                }
                out.push((x, y));
                x += 1;
            }
            proof {
                assert((y + 1) * width == y * width + width) by (nonlinear_arith);
            }
            y += 1;
        }
        proof {
            assert(y * width == width * height) by (nonlinear_arith)
                requires
                    y == height,
            ;
            assert(out@ =~= Self::raster(width as nat, height as nat));
        }
        out
    }

    /// The pixels of the picture in the order in which they are to be
    /// taken: every pixel once, in an order drawn from `rng`.
    pub fn render_order(&self, rng: &mut ThreadRng) -> (r: Vec<(u32, u32)>)
        ensures
            r@.to_multiset() == Self::raster(
                self.image_width as nat,
                self.image_height as nat,
            ).to_multiset(),
    {
        let mut order = self.pixels();
        shuffle(&mut order, rng);
        order
    }

    /// The raster holds each pixel of the picture once, and nothing else.
    pub proof fn lemma_raster_once(width: u32, height: u32, x: u32, y: u32)
        ensures
            Self::raster(width as nat, height as nat).to_multiset().count((x, y)) == if x < width
                && y < height {
                1nat
            } else {
                0nat
            },
    {
        let s = Self::raster(width as nat, height as nat);
        assert forall|k: int| 0 <= k < s.len() implies (#[trigger] s[k]).0 < width && s[k].1
            < height && k == s[k].1 * width + s[k].0 by {
            Self::lemma_raster_at(width as nat, height as nat, k);
        }
        assert(s.no_duplicates());
        s.lemma_multiset_has_no_duplicates();
        s.to_multiset_ensures();
        if x < width && y < height {
            let k = y * width + x;
            assert(0 <= k < width * height) by (nonlinear_arith)
                requires
                    k == y * width + x,
                    0 <= x < width,
                    0 <= y < height,
            ;
            lemma_fundamental_div_mod_converse(k, width as int, y as int, x as int);
            assert(s[k] == (x, y));
            assert(s.contains((x, y)));
        } else {
            if s.to_multiset().count((x, y)) > 0 {
                assert(s.contains((x, y)));
                let k = choose|k: int| 0 <= k < s.len() && s[k] == (x, y);
                assert(s[k].0 < width && s[k].1 < height);
            }
        }
    }

    /// Pixel number `k` of a picture lies inside the picture, and its number
    /// is its row times the width plus its column.
    pub proof fn lemma_raster_at(width: nat, height: nat, k: int)
        requires
            0 <= k < width * height,
            width <= u32::MAX,
            height <= u32::MAX,
        ensures
            Self::raster_at(width, k).0 < width,
            Self::raster_at(width, k).1 < height,
            k == Self::raster_at(width, k).1 * width + Self::raster_at(width, k).0,
    {
        assert(width > 0) by (nonlinear_arith)
            requires
                0 <= k < width * height,
        ;
        let w = width as int;
        vstd::arithmetic::div_mod::lemma_fundamental_div_mod(k, w);
        vstd::arithmetic::div_mod::lemma_mod_pos_bound(k, w);
        vstd::arithmetic::div_mod::lemma_div_pos_is_pos(k, w);
        assert(0 <= k / w < height) by (nonlinear_arith)
            requires
                k == w * (k / w) + k % w,
                0 <= k % w < w,
                0 <= k < w * height,
        ;
        assert(w * (k / w) == (k / w) * w) by (nonlinear_arith);
    }

    /// Where the samples of the pixel in column `x` of row `y` are taken.
    /// Rows are counted from the top of the picture and sampled from the
    /// bottom of the view, so the row is turned over.
    pub fn site(&self, x: u32, y: u32) -> (r: PixelSite)
        requires
            x < self.image_width,
            y < self.image_height,
        ensures
            r.x == x,
            r.y == self.image_height - y,
            r.across == self.image_width - 1,
            r.up == self.image_height - 1,
    {
        PixelSite {
            x,
            y: self.image_height - y,
            across: self.image_width - 1,
            up: self.image_height - 1,
        }
    }
}

} // verus!
