use crate::bitmap::{
    aspect_kept, blend_of, covered, overlay_at_origin, source_index, thumbnail, thumbnail_of,
    Bitmap, Raster,
};
use vstd::prelude::*;

verus! {

/// The side of the square box that an avatar is shrunk to fit.
pub const THUMBNAIL_SIZE: u32 = 60;

/// Whether an image has to be shrunk to fit the thumbnail box.
pub open spec fn needs_shrinking(a: Raster) -> bool {
    a.width > THUMBNAIL_SIZE || a.height > THUMBNAIL_SIZE
}

/// The avatar as it is laid over the template: scaled to fit the box where it
/// is larger, left as it is where it already fits (never enlarged).
pub open spec fn fitted(a: Raster) -> Raster {
    if needs_shrinking(a) {
        thumbnail_of(a, THUMBNAIL_SIZE as nat)
    } else {
        a
    }
}

/// `top` laid over `bottom` from the origin, pixel by pixel.
pub open spec fn overlaid(bottom: Raster, top: Raster) -> Raster {
    Raster {
        width: bottom.width,
        height: bottom.height,
        pixels: Seq::new(
            bottom.pixels.len(),
            |i: int|
                if covered(bottom, top, i / 4) {
                    blend_of(bottom.pixel(i / 4), top.pixel(source_index(bottom, top, i / 4)))[i % 4]
                } else {
                    bottom.pixels[i]
                },
        ),
    }
}

/// The generated image: a copy of the template with the fitted avatar over it.
pub open spec fn composed(avatar: Raster, template: Raster) -> Raster {
    overlaid(template, fitted(avatar))
}

/// Whether the pixel with linear index `p` of an image lies in the top-left
/// corner that a thumbnail can cover.
pub open spec fn in_corner(img: Raster, p: int) -> bool {
    img.width > 0 && p % (img.width as int) < THUMBNAIL_SIZE && p / (img.width as int) < THUMBNAIL_SIZE
}

/// Shrinks an avatar to fit the thumbnail box, keeping its proportions.
pub fn fit_thumbnail(avatar: &Bitmap) -> (r: Bitmap)
    requires
        avatar.wf(),
    ensures
        r@ == fitted(avatar@),
        r.wf(),
        r@.width <= THUMBNAIL_SIZE,
        r@.height <= THUMBNAIL_SIZE,
        aspect_kept(avatar@, r@),
        avatar@.width >= 1 && avatar@.height >= 1 ==> r@.width >= 1 && r@.height >= 1,
        !needs_shrinking(avatar@) ==> r@ == avatar@,
        needs_shrinking(avatar@) && avatar@.width >= avatar@.height ==> r@.width == THUMBNAIL_SIZE,
        needs_shrinking(avatar@) && avatar@.height >= avatar@.width ==> r@.height == THUMBNAIL_SIZE,
{
    let w = avatar.width();
    let h = avatar.height();
    if w > THUMBNAIL_SIZE || h > THUMBNAIL_SIZE {
        thumbnail(avatar, THUMBNAIL_SIZE)
    } else {
        let r = avatar.duplicate();
        proof {
            assert((w as nat) * (h as nat) == (h as nat) * (w as nat)) by (nonlinear_arith);
        }
        r
    }
}

/// Lays the thumbnail of `avatar` over a copy of `template` at its origin.
/// The template itself is left untouched.
pub fn composite(avatar: &Bitmap, template: &Bitmap) -> (r: Bitmap)
    requires
        avatar.wf(),
        template.wf(),
    ensures
        r@ == composed(avatar@, template@),
        r.wf(),
        r@.width == template@.width,
        r@.height == template@.height,
        forall|i: int|
            0 <= i < template@.pixels.len() && !in_corner(template@, i / 4)
                ==> #[trigger] r@.pixels[i] == template@.pixels[i],
{
    let thumb = fit_thumbnail(avatar);
    let mut out = template.duplicate();
    overlay_at_origin(&mut out, &thumb);
    proof {
        let t = template@;
        let f = fitted(avatar@);
        assert(out@.pixels =~= overlaid(t, f).pixels);
        assert forall|i: int|
            0 <= i < t.pixels.len() && !in_corner(t, i / 4)
                implies #[trigger] out@.pixels[i] == t.pixels[i] by {
            assert(!covered(t, f, i / 4));
        }
    }
    out
}

} // verus!
