use crate::bitmap::{decode_as, decoded, Bitmap, Raster};
use crate::error::ErrorKind;
use vstd::prelude::*;

verus! {

/// The image formats that an avatar may be declared in.
#[derive(Debug, Clone, Copy, PartialEq, Eq, Structural)]
pub enum ImageFormat {
    Png,
    Jpeg,
}

pub open spec fn png_type() -> Seq<char> {
    seq!['i', 'm', 'a', 'g', 'e', '/', 'p', 'n', 'g']
}

pub open spec fn jpeg_type() -> Seq<char> {
    seq!['i', 'm', 'a', 'g', 'e', '/', 'j', 'p', 'e', 'g']
}

/// The format that a declared content type names: an exact match on
/// `image/png` or `image/jpeg`, nothing else.
pub open spec fn format_of(content_type: Option<Seq<char>>) -> Option<ImageFormat> {
    match content_type {
        Some(t) => if t == png_type() {
            Some(ImageFormat::Png)
        } else if t == jpeg_type() {
            Some(ImageFormat::Jpeg)
        } else {
            None
        },
        None => None,
    }
}

pub open spec fn opt_str_view(s: Option<&str>) -> Option<Seq<char>> {
    match s {
        Some(t) => Some(t@),
        None => None,
    }
}

/// Maps a response's declared content type to an image format.
pub fn image_format_from_content_type(content_type: Option<&str>) -> (r: Option<ImageFormat>)
    ensures
        r == format_of(opt_str_view(content_type)),
        r is None <==> (opt_str_view(content_type) != Some(png_type()) && opt_str_view(content_type) != Some(jpeg_type())),
{
    match content_type {
        Some(t) => {
            let given = t.to_owned();
            let png = "image/png".to_owned();
            let jpeg = "image/jpeg".to_owned();
            proof {
                reveal_strlit("image/png");
                reveal_strlit("image/jpeg");
                assert(png@ =~= png_type());
                assert(jpeg@ =~= jpeg_type());
            }
            if given == png {
                Some(ImageFormat::Png)
            } else if given == jpeg {
                Some(ImageFormat::Jpeg)
            } else {
                None
            }
        },
        None => None,
    }
}

/// The model of a decoding outcome: the image as a raster.
pub open spec fn outcome_view(r: Result<Option<Bitmap>, ErrorKind>) -> Result<Option<Raster>, ErrorKind> {
    match r {
        Ok(Some(b)) => Ok(Some(b@)),
        Ok(None) => Ok(None),
        Err(e) => Err(e),
    }
}

/// What decoding bytes under a declared content type gives: no image when
/// the type names no supported format, a decode fault when the bytes do not
/// decode as the named format, else the image.
pub open spec fn decode_outcome(bytes: Seq<u8>, content_type: Option<Seq<char>>) -> Result<Option<Raster>, ErrorKind> {
    match format_of(content_type) {
        None => Ok(None),
        Some(f) => match decoded(bytes, f) {
            None => Err(ErrorKind::Decode),
            Some(img) => Ok(Some(img)),
        },
    }
}

/// Decodes an image whose format is taken from its declared content type
/// alone; an unsupported or absent type gives no image and no decode is tried.
pub fn decode(bytes: &[u8], content_type: Option<&str>) -> (r: Result<Option<Bitmap>, ErrorKind>)
    ensures
        outcome_view(r) == decode_outcome(bytes@, opt_str_view(content_type)),
        format_of(opt_str_view(content_type)) is None ==> r == Ok::<Option<Bitmap>, ErrorKind>(None),
        r matches Ok(Some(b)) ==> b.wf(),
{
    let format = match image_format_from_content_type(content_type) {
        Some(f) => f,
        None => return Ok(None),
    };
    match decode_as(bytes, format) {
        Some(img) => Ok(Some(img)),
        None => Err(ErrorKind::Decode),
    }
}

/// Decodes the bundled template, a PNG; a fault here is a startup fault.
pub fn load_template(bytes: &[u8]) -> (r: Result<Bitmap, ErrorKind>)
    ensures
        r is Err <==> decoded(bytes@, ImageFormat::Png) is None,
        r is Err ==> r->Err_0 == ErrorKind::StartupResource,
        r is Ok ==> r->Ok_0@ == decoded(bytes@, ImageFormat::Png)->0 && r->Ok_0.wf(),
{
    match decode_as(bytes, ImageFormat::Png) {
        Some(img) => Ok(img),
        None => Err(ErrorKind::StartupResource),
    }
}

} // verus!
