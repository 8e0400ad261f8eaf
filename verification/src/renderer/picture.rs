//! The finished picture: an `image` buffer of red, green and blue bytes,
//! filled pixel by pixel.
use super::Renderer;
use crate::geometry::{Color, Vec3};
use crate::scalar::Scalar;
use image::{ImageBuffer, Rgb, RgbImage};
use vstd::prelude::*;

verus! {

/// The pattern of `0.999`: no channel of a colour is shown brighter.
pub const BRIGHTEST: u64 = 0x3FEF_F7CE_D916_872B;

/// A channel held to what can be shown: from 0 to 0.999.
pub open spec fn spec_tone_channel(channel: Scalar) -> Scalar {
    channel.spec_clamp(Scalar::spec_zero(), Scalar { bits: BRIGHTEST })
}

/// A colour with each channel held to what can be shown.
pub open spec fn spec_tone(color: Color) -> Color {
    Vec3 {
        x: spec_tone_channel(color.x),
        y: spec_tone_channel(color.y),
        z: spec_tone_channel(color.z),
    }
}

/// The bytes of a colour whose channels were scaled to the range of a
/// byte: the whole part of each.
pub open spec fn spec_quantize(scaled: Color) -> (u8, u8, u8) {
    (scaled.x.spec_to_u8(), scaled.y.spec_to_u8(), scaled.z.spec_to_u8())
}

/// Holds each channel of a colour to what can be shown, from 0 to 0.999,
/// however much light was gathered. A channel that is not a number stays
/// so.
#[verifier::when_used_as_spec(spec_tone)]
pub fn tone(color: Color) -> (r: Color)
    ensures
        r == spec_tone(color),
        r.x.spec_is_nan() || (Scalar::spec_zero().spec_le(r.x) && r.x.spec_le(
            Scalar { bits: BRIGHTEST },
        )),
        r.y.spec_is_nan() || (Scalar::spec_zero().spec_le(r.y) && r.y.spec_le(
            Scalar { bits: BRIGHTEST },
        )),
        r.z.spec_is_nan() || (Scalar::spec_zero().spec_le(r.z) && r.z.spec_le(
            Scalar { bits: BRIGHTEST },
        )),
{
    let low = Scalar::zero();
    let high = Scalar::from_bits(BRIGHTEST);
    Vec3::new(color.x.clamp(low, high), color.y.clamp(low, high), color.z.clamp(low, high))
}

/// The red, green and blue byte of a colour whose channels the caller has
/// scaled to the range of a byte.
#[verifier::when_used_as_spec(spec_quantize)]
pub fn quantize(scaled: Color) -> (r: (u8, u8, u8))
    ensures
        r == spec_quantize(scaled),
{
    (scaled.x.to_u8(), scaled.y.to_u8(), scaled.z.to_u8())
}

/// A picture: an `image` buffer of three bytes for each pixel. What it
/// holds is spoken of through [`pixels_of`] and [`extent_of`].
#[verifier::external_body]
pub struct Picture {
    buffer: RgbImage,
}

/// What a picture holds: for each column and row inside it, the red, green
/// and blue byte of the pixel there. Row 0 is the top of the picture.
pub uninterp spec fn pixels_of(picture: Picture) -> Map<(int, int), (u8, u8, u8)>;

/// The width and the height that a picture was made with.
pub uninterp spec fn extent_of(picture: Picture) -> (u32, u32);

/// What a picture of the given size holds while nothing is painted: black
/// everywhere.
pub open spec fn blank(width: u32, height: u32) -> Map<(int, int), (u8, u8, u8)> {
    Map::new(
        |at: (int, int)| 0 <= at.0 < width && 0 <= at.1 < height,
        |at: (int, int)| (0u8, 0u8, 0u8),
    )
}

/// Whether `bytes` is a picture of the given width and height, laid out row
/// by row from the top, three bytes for each pixel, and shows `pixels`.
pub open spec fn laid_out(
    bytes: Seq<u8>,
    size: (u32, u32),
    pixels: Map<(int, int), (u8, u8, u8)>,
) -> bool {
    &&& bytes.len() == 3 * size.0 * size.1
    &&& forall|x: int, y: int|
        0 <= x < size.0 && 0 <= y < size.1 ==> #[trigger] pixels[(x, y)] == (
            bytes[3 * (y * size.0 + x)],
            bytes[3 * (y * size.0 + x) + 1],
            bytes[3 * (y * size.0 + x) + 2],
        )
}

/// What a picture holds after the pixels `order` were given the colours
/// `colors`, one after the other.
pub open spec fn painted(
    ground: Map<(int, int), (u8, u8, u8)>,
    order: Seq<(u32, u32)>,
    colors: Seq<(u8, u8, u8)>,
) -> Map<(int, int), (u8, u8, u8)>
    decreases order.len(),
{
    if order.len() == 0 || colors.len() == 0 {
        ground
    } else {
        painted(ground, order.drop_last(), colors.drop_last()).insert(
            (order.last().0 as int, order.last().1 as int),
            colors.last(),
        )
    }
}

/// A new black picture, from `ImageBuffer::new`, which fills a buffer of
/// three bytes for each pixel with zeros. It panics where that many bytes
/// are more than a vector can hold, so such a size is not asked for.
#[verifier::external_body]
fn blank_picture(width: u32, height: u32) -> (r: Picture)
    requires
        3 * width * height <= isize::MAX,
    ensures
        pixels_of(r) == blank(width, height),
        extent_of(r) == (width, height),
{
    Picture { buffer: ImageBuffer::new(width, height) }
}

/// Sets one pixel, with `ImageBuffer::put_pixel`, which writes the three
/// bytes of that pixel and no others. It panics for a pixel outside the
/// picture, so none is asked for.
#[verifier::external_body]
fn put_pixel(picture: &mut Picture, x: u32, y: u32, color: (u8, u8, u8))
    requires
        x < extent_of(*old(picture)).0,
        y < extent_of(*old(picture)).1,
    ensures
        pixels_of(*final(picture)) == pixels_of(*old(picture)).insert(
            (x as int, y as int),
            color,
        ),
        extent_of(*final(picture)) == extent_of(*old(picture)),
{
    picture.buffer.put_pixel(x, y, Rgb([color.0, color.1, color.2]));
}

/// The bytes of a picture, from `ImageBuffer::into_raw`, which hands out
/// the buffer as it is: three bytes for each pixel, the rows from the top
/// one after the other, each from the left.
#[verifier::external_body]
fn into_raw(picture: Picture) -> (r: Vec<u8>)
    ensures
        laid_out(r@, extent_of(picture), pixels_of(picture)),
{
    picture.buffer.into_raw()
}

impl Picture {
    /// The bytes of the picture: three for each pixel, the rows from the top
    /// one after the other, each from the left.
    pub fn into_bytes(self) -> (r: Vec<u8>)
        ensures
            laid_out(r@, extent_of(self), pixels_of(self)),
    {
        into_raw(self)
    }
}

impl Renderer {
    /// Whether a picture of this size can be held: three bytes for each
    /// pixel, no more of them than a vector takes.
    pub open spec fn spec_fits(self) -> bool {
        3 * self.image_width * self.image_height <= isize::MAX
    }

    /// Whether every pixel of `order` lies inside the picture.
    pub open spec fn spec_inside(self, order: Seq<(u32, u32)>) -> bool {
        forall|k: int|
            0 <= k < order.len() ==> (#[trigger] order[k]).0 < self.image_width && order[k].1
                < self.image_height
    }

    #[verifier::when_used_as_spec(spec_fits)]
    pub fn fits(self) -> (r: bool)
        ensures
            r == self.spec_fits(),
    {
        let width: u128 = self.image_width as u128;
        let height: u128 = self.image_height as u128;
        assert(width * height <= 0xFFFF_FFFF * 0xFFFF_FFFF) by (nonlinear_arith)
            requires
                width <= 0xFFFF_FFFF,
                height <= 0xFFFF_FFFF,
        ;
        let bytes: u128 = 3 * (width * height);
        assert(bytes == 3 * self.image_width * self.image_height) by (nonlinear_arith)
            requires
                bytes == 3 * (self.image_width * self.image_height),
        ;
        bytes <= isize::MAX as u128
    }

    /// Paints the picture: pixel `order[k]` gets the colour `colors[k]`, and
    /// a pixel that `order` does not name stays black. There is a picture
    /// exactly when one of this size can be held, `colors` is as long as
    /// `order`, and every pixel of `order` lies inside the picture.
    pub fn paint(&self, order: &Vec<(u32, u32)>, colors: &Vec<(u8, u8, u8)>) -> (r: Option<
        Picture,
    >)
        ensures
            r is Some ==> extent_of(r.unwrap()) == (self.image_width, self.image_height),
            r is Some <==> self.spec_fits() && order@.len() == colors@.len() && self.spec_inside(
                order@,
            ),
            r is Some ==> pixels_of(r.unwrap()) == painted(
                blank(self.image_width, self.image_height),
                order@,
                colors@,
            ),
    {
        if !self.fits() || order.len() != colors.len() {
            return None;
        }
        let mut picture = blank_picture(self.image_width, self.image_height);
        let mut k: usize = 0;
        while k < order.len()
            invariant
                k <= order@.len(),
                order@.len() == colors@.len(),
                self.spec_inside(order@.take(k as int)),
                pixels_of(picture) == painted(
                    blank(self.image_width, self.image_height),
                    order@.take(k as int),
                    colors@.take(k as int),
                ),
                extent_of(picture) == (self.image_width, self.image_height),
            decreases order@.len() - k,
        {
            let (x, y) = order[k];
            if x >= self.image_width || y >= self.image_height {
                return None;
            }
            put_pixel(&mut picture, x, y, colors[k]);
            proof {
                let o = order@.take(k + 1);
                let c = colors@.take(k + 1);
                assert(o.drop_last() =~= order@.take(k as int));
                assert(c.drop_last() =~= colors@.take(k as int));
            }
            k += 1;
        }
        proof {
            assert(order@.take(k as int) =~= order@);
            assert(colors@.take(k as int) =~= colors@);
        }
        Some(picture)
    }

    /// A pixel that is named once gets the colour that goes with it.
    pub proof fn lemma_painted_named(
        ground: Map<(int, int), (u8, u8, u8)>,
        order: Seq<(u32, u32)>,
        colors: Seq<(u8, u8, u8)>,
        k: int,
    )
        requires
            order.len() == colors.len(),
            order.no_duplicates(),
            0 <= k < order.len(),
        ensures
            painted(ground, order, colors).dom().contains((order[k].0 as int, order[k].1 as int)),
            painted(ground, order, colors)[(order[k].0 as int, order[k].1 as int)] == colors[k],
        decreases order.len(),
    {
        if k < order.len() - 1 {
            assert(order[k] != order.last());
            assert(order.drop_last()[k] == order[k]);
            assert(colors.drop_last()[k] == colors[k]);
            Self::lemma_painted_named(ground, order.drop_last(), colors.drop_last(), k);
        }
    }

    /// A pixel that is not named keeps what it showed.
    pub proof fn lemma_painted_unnamed(
        ground: Map<(int, int), (u8, u8, u8)>,
        order: Seq<(u32, u32)>,
        colors: Seq<(u8, u8, u8)>,
        x: u32,
        y: u32,
    )
        requires
            order.len() == colors.len(),
            !order.contains((x, y)),
        ensures
            painted(ground, order, colors).dom().contains((x as int, y as int))
                == ground.dom().contains((x as int, y as int)),
            painted(ground, order, colors)[(x as int, y as int)] == ground[(x as int, y as int)],
        decreases order.len(),
    {
        if order.len() > 0 {
            assert(order[order.len() - 1] == order.last());
            assert forall|k: int| 0 <= k < order.drop_last().len() implies order.drop_last()[k]
                != (x, y) by {
                assert(order[k] == order.drop_last()[k]);
            }
            Self::lemma_painted_unnamed(ground, order.drop_last(), colors.drop_last(), x, y);
        }
    }

    /// Painted in any order that holds what the raster holds, every pixel of
    /// the picture shows the colour that came with it.
    pub proof fn lemma_every_pixel_painted(
        self,
        order: Seq<(u32, u32)>,
        colors: Seq<(u8, u8, u8)>,
        x: u32,
        y: u32,
    )
        requires
            order.to_multiset() == Self::raster(
                self.image_width as nat,
                self.image_height as nat,
            ).to_multiset(),
            order.len() == colors.len(),
            x < self.image_width,
            y < self.image_height,
        ensures
            exists|k: int|
                0 <= k < order.len() && #[trigger] order[k] == (x, y) && painted(
                    blank(self.image_width, self.image_height),
                    order,
                    colors,
                )[(x as int, y as int)] == colors[k],
    {
        assert forall|at: (u32, u32)| order.to_multiset().contains(at) implies order.to_multiset(
        ).count(at) == 1 by {
            Self::lemma_raster_once(self.image_width, self.image_height, at.0, at.1);
        }
        order.lemma_multiset_has_no_duplicates_conv();
        Self::lemma_raster_once(self.image_width, self.image_height, x, y);
        vstd::seq_lib::to_multiset_contains(order, (x, y));
        let k = choose|k: int| 0 <= k < order.len() && order[k] == (x, y);
        Self::lemma_painted_named(
            blank(self.image_width, self.image_height),
            order,
            colors,
            k,
        );
    }
}

} // verus!
