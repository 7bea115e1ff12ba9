use vstd::prelude::*;

verus! {

/// The faults that end a generation. A missing profile, a missing preview
/// image or an unsupported image format are not faults: they yield no image.
#[derive(Debug, Clone, Copy, PartialEq, Eq, Structural)]
pub enum ErrorKind {
    /// A remote host could not be reached or answered with a malformed response.
    Transport,
    /// Bytes that claimed an image format did not decode as that format.
    Decode,
    /// The bundled template image is missing or does not decode.
    StartupResource,
}

} // verus!
