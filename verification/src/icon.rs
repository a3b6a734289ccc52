//! The application icon: encoded image bytes decoded to RGBA pixels.

use vstd::prelude::*;

verus! {

/// What decoding `bytes` gives: the RGBA pixels (four bytes each, row by
/// row), the width and the height; `None` where the bytes are no image.
pub uninterp spec fn decoded_rgba(bytes: Seq<u8>) -> Option<(Seq<u8>, u32, u32)>;

/// `image::load_from_memory`, then `into_rgba8`, `dimensions` and
/// `into_raw`: decodes `bytes` (the format is guessed from them) and
/// converts the image to 8-bit RGBA. The result is named, not spelled out.
#[verifier::external_body]
fn decode_rgba(bytes: &[u8]) -> (r: Option<(Vec<u8>, u32, u32)>)
    ensures
        match r {
            Some((pixels, width, height)) => decoded_rgba(bytes@) == Some((pixels@, width, height)),
            None => decoded_rgba(bytes@) is None,
        },
{
    match image::load_from_memory(bytes) {
        Ok(decoded) => {
            let rgba = decoded.into_rgba8();
            let (width, height) = rgba.dimensions();
            Some((rgba.into_raw(), width, height))
        },
        Err(_) => None,
    }
}

/// An icon as 8-bit RGBA pixels.
pub struct IconImage {
    pub rgba: Vec<u8>,
    pub width: u32,
    pub height: u32,
}

/// The application icon decoded from its encoded bytes; `None` where they
/// are no image.
pub fn load_icon_data(bytes: &[u8]) -> (r: Option<IconImage>)
    ensures
        match r {
            Some(icon) => decoded_rgba(bytes@) == Some((icon.rgba@, icon.width, icon.height)),
            None => decoded_rgba(bytes@) is None,
        },
{
    match decode_rgba(bytes) {
        Some((rgba, width, height)) => Some(IconImage { rgba, width, height }),
        None => None,
    }
}

} // verus!
