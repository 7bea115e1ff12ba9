use crate::decode::ImageFormat;
use vstd::prelude::*;

verus! {

/// Mathematical model of a raster image: its size and its pixels, four bytes
/// (red, green, blue, alpha) per pixel, row after row.
pub ghost struct Raster {
    pub width: nat,
    pub height: nat,
    pub pixels: Seq<u8>,
}

impl Raster {
    pub open spec fn wf(self) -> bool {
        self.pixels.len() == 4 * self.width * self.height
    }

    /// The four bytes of the pixel with linear index `p`.
    pub open spec fn pixel(self, p: int) -> Seq<u8> {
        self.pixels.subrange(4 * p, 4 * p + 4)
    }
}

/// The pixel count of an image fits in 64 bits.
proof fn lemma_area_fits(width: u32, height: u32)
    ensures
        (width as nat) * (height as nat) <= u64::MAX,
{
    assert((width as nat) * (height as nat) <= 0xffff_ffff * 0xffff_ffff) by (nonlinear_arith)
        requires
            width <= 0xffff_ffff,
            height <= 0xffff_ffff,
    ;
}

/// The scaled size stays within one pixel of the proportion of the source:
/// `|width' * height - height' * width| <= max(width, height)`.
pub open spec fn aspect_kept(source: Raster, scaled: Raster) -> bool {
    let lhs = scaled.width * source.height;
    let rhs = scaled.height * source.width;
    let bound = if source.width >= source.height { source.width } else { source.height };
    if lhs >= rhs { lhs - rhs <= bound } else { rhs - lhs <= bound }
}

/// Whether the pixel with linear index `p` of `bottom` lies under `top` when
/// `top` is placed at the origin.
pub open spec fn covered(bottom: Raster, top: Raster, p: int) -> bool {
    bottom.width > 0 && p % (bottom.width as int) < top.width && p / (bottom.width as int) < top.height
}

/// The linear index in `top` of the pixel that lies over pixel `p` of `bottom`.
pub open spec fn source_index(bottom: Raster, top: Raster, p: int) -> int {
    (p / (bottom.width as int)) * (top.width as int) + p % (bottom.width as int)
}

/// A decoded image held in memory, RGBA with eight bits per channel.
pub struct Bitmap {
    width: u32,
    height: u32,
    pixels: Vec<u8>,
}

impl View for Bitmap {
    type V = Raster;

    closed spec fn view(&self) -> Raster {
        Raster { width: self.width as nat, height: self.height as nat, pixels: self.pixels@ }
    }
}

impl Bitmap {
    pub open spec fn wf(&self) -> bool {
        self@.wf()
    }

    /// Builds a bitmap from its size and its RGBA bytes; `None` when the number
    /// of bytes is not four per pixel.
    pub fn from_rgba(width: u32, height: u32, pixels: Vec<u8>) -> (r: Option<Bitmap>)
        ensures
            r.is_some() == (pixels@.len() == 4 * width * height),
            r is Some ==> r->0@ == (Raster { width: width as nat, height: height as nat, pixels: pixels@ }),
            r is Some ==> r->0.wf(),
    {
        proof {
            lemma_area_fits(width, height);
            assert(4 * width * height == 4 * (width * height)) by (nonlinear_arith);
        }
        let area: u64 = (width as u64) * (height as u64);
        if pixels.len() as u128 == 4 * (area as u128) {
            Some(Bitmap { width, height, pixels })
        } else {
            None
        }
    }

    pub fn width(&self) -> (r: u32)
        ensures
            r == self@.width,
    {
        self.width
    }

    pub fn height(&self) -> (r: u32)
        ensures
            r == self@.height,
    {
        self.height
    }

    pub fn pixels(&self) -> (r: &Vec<u8>)
        ensures
            r@ == self@.pixels,
    {
        &self.pixels
    }

    /// Hands out the size and the RGBA bytes.
    pub fn into_parts(self) -> (r: (u32, u32, Vec<u8>))
        ensures
            r.0 == self@.width,
            r.1 == self@.height,
            r.2@ == self@.pixels,
    {
        (self.width, self.height, self.pixels)
    }

    /// An independent copy with the same size and pixels.
    pub fn duplicate(&self) -> (r: Bitmap)
        ensures
            r@ == self@,
    {
        Bitmap { width: self.width, height: self.height, pixels: self.pixels.clone() }
    }
}

/// What `image::load_from_memory_with_format` yields for some bytes under a
/// declared format, seen as RGBA8; `None` where the bytes do not decode.
pub uninterp spec fn decoded(bytes: Seq<u8>, format: ImageFormat) -> Option<Raster>;

/// What `image::DynamicImage::thumbnail` yields for an image and a square box.
pub uninterp spec fn thumbnail_of(source: Raster, size: nat) -> Raster;

/// What `Blend::blend` of `image::Rgba<u8>` makes of a pixel (first) when a
/// pixel (second) is laid over it.
pub uninterp spec fn blend_of(under: Seq<u8>, over: Seq<u8>) -> Seq<u8>;

/// Relies on `image::load_from_memory_with_format`: the bytes are decoded as
/// the given format alone, with no sniffing, and the result depends on the
/// bytes and the format only. The image is converted to RGBA8.
#[verifier::external_body]
pub(crate) fn decode_as(bytes: &[u8], format: ImageFormat) -> (r: Option<Bitmap>)
    ensures
        r.is_some() == decoded(bytes@, format).is_some(),
        r is Some ==> r->0@ == decoded(bytes@, format)->0,
        r is Some ==> r->0.wf(),
{
    let format = match format {
        ImageFormat::Png => image::ImageFormat::Png,
        ImageFormat::Jpeg => image::ImageFormat::Jpeg,
    };
    match image::load_from_memory_with_format(bytes, format) {
        Ok(img) => {
            let rgba = img.to_rgba8();
            Some(Bitmap { width: rgba.width(), height: rgba.height(), pixels: rgba.into_raw() })
        },
        Err(_) => None,
    }
}

/// Relies on `image::DynamicImage::thumbnail(size, size)`: it scales both sides
/// by `min(size / width, size / height)` and rounds each to the nearest
/// integer, at least one; so the longer side becomes `size` and the shorter
/// stays within one pixel of the exact proportion. A side of zero scales by
/// an infinite ratio, so the other side decides.
#[verifier::external_body]
pub(crate) fn thumbnail(source: &Bitmap, size: u32) -> (r: Bitmap)
    requires
        source.wf(),
        source@.width >= 1 || source@.height >= 1,
        1 <= size <= 0xffff,
    ensures
        r@ == thumbnail_of(source@, size as nat),
        r.wf(),
        1 <= r@.width <= size,
        1 <= r@.height <= size,
        source@.width >= source@.height ==> r@.width == size,
        source@.height >= source@.width ==> r@.height == size,
        aspect_kept(source@, r@),
{
    let buf = image::RgbaImage::from_raw(source.width, source.height, source.pixels.clone()).unwrap();
    let small = image::DynamicImage::ImageRgba8(buf).thumbnail(size, size).to_rgba8();
    Bitmap { width: small.width(), height: small.height(), pixels: small.into_raw() }
}

/// Relies on `image::imageops::overlay(bottom, top, 0, 0)`: each pixel of
/// `bottom` that `top` covers from the origin becomes the blend of the two,
/// every other pixel is left as it was, and the size does not change.
#[verifier::external_body]
pub(crate) fn overlay_at_origin(bottom: &mut Bitmap, top: &Bitmap)
    requires
        old(bottom).wf(),
        top.wf(),
    ensures
        final(bottom)@.width == old(bottom)@.width,
        final(bottom)@.height == old(bottom)@.height,
        final(bottom)@.pixels.len() == old(bottom)@.pixels.len(),
        forall|i: int|
            0 <= i < old(bottom)@.pixels.len() && !covered(old(bottom)@, top@, i / 4)
                ==> #[trigger] final(bottom)@.pixels[i] == old(bottom)@.pixels[i],
        forall|i: int|
            0 <= i < old(bottom)@.pixels.len() && covered(old(bottom)@, top@, i / 4)
                ==> #[trigger] final(bottom)@.pixels[i] == blend_of(
                    old(bottom)@.pixel(i / 4),
                    top@.pixel(source_index(old(bottom)@, top@, i / 4)),
                )[i % 4],
{
    let mut base = image::RgbaImage::from_raw(bottom.width, bottom.height, std::mem::take(&mut bottom.pixels)).unwrap();
    let over = image::RgbaImage::from_raw(top.width, top.height, top.pixels.clone()).unwrap();
    image::imageops::overlay(&mut base, &over, 0, 0);
    bottom.pixels = base.into_raw();
}

} // verus!
