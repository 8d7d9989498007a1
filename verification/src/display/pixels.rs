//! Pixel buffers: image format detection and 180-degree rotation of RGBA images.

use vstd::prelude::*;
use crate::usb::StreamDeckModel;

verus! {

/// Bytes per RGBA pixel.
pub const BYTES_PER_PIXEL: usize = 4;

/// Format of a key image, told by its first two bytes.
#[derive(Debug, Clone, Copy, PartialEq, Eq, Structural)]
pub enum ImageKind {
    /// Fewer than two bytes.
    TooShort,
    /// "BM": a bitmap (Stream Deck Mini).
    Bmp,
    /// FF D8: a JPEG (the other models).
    Jpeg,
    /// Anything else.
    Unknown,
}

/// The format of image bytes.
pub open spec fn image_kind_spec(data: Seq<u8>) -> ImageKind {
    if data.len() < 2 {
        ImageKind::TooShort
    } else if data[0] == 0x42 && data[1] == 0x4D {
        ImageKind::Bmp
    } else if data[0] == 0xFF && data[1] == 0xD8 {
        ImageKind::Jpeg
    } else {
        ImageKind::Unknown
    }
}

/// Tells the format of image bytes by their first two bytes.
pub fn image_kind(data: &[u8]) -> (r: ImageKind)
    ensures
        r == image_kind_spec(data@),
{
    if data.len() < 2 {
        ImageKind::TooShort
    } else if data[0] == 0x42 && data[1] == 0x4D {
        ImageKind::Bmp
    } else if data[0] == 0xFF && data[1] == 0xD8 {
        ImageKind::Jpeg
    } else {
        ImageKind::Unknown
    }
}

/// Whether the JPEG key images of a model arrive upside down: the MK.2, XL
/// and Neo send them rotated by 180 degrees, the + does not.
pub fn needs_rotation(model: StreamDeckModel) -> (r: bool)
    ensures
        r == (model == StreamDeckModel::Mk2 || model == StreamDeckModel::Xl || model == StreamDeckModel::Neo),
{
    match model {
        StreamDeckModel::Mk2 | StreamDeckModel::Xl | StreamDeckModel::Neo => true,
        _ => false,
    }
}

/// The first `pixel_count` RGBA pixels of `pixels` in reverse order.
pub open spec fn rotated_180(pixels: Seq<u8>, pixel_count: nat) -> Seq<u8> {
    Seq::new(pixel_count * 4, |j: int| pixels[(pixel_count - 1 - j / 4) * 4 + j % 4])
}

/// Rotates an RGBA image by 180 degrees: pixel i goes to pixel count-1-i.
pub fn rotate_180(pixels: &[u8], pixel_count: usize) -> (r: Vec<u8>)
    requires
        pixel_count * 4 <= pixels@.len(),
    ensures
        r@ == rotated_180(pixels@, pixel_count as nat),
{
    let len = pixels.len();
    let mut out: Vec<u8> = Vec::new();
    let mut i: usize = 0;
    while i < pixel_count
        invariant
            len == pixels@.len(),
            pixel_count * 4 <= pixels@.len(),
            i <= pixel_count,
            out@.len() == i * 4,
            forall|j: int| 0 <= j < i * 4 ==> out@[j] == pixels@[(pixel_count - 1 - j / 4) * 4 + j % 4],
        decreases pixel_count - i,
    {
        let src = (pixel_count - 1 - i) * 4;
        let mut k: usize = 0;
        while k < 4
            invariant
                len == pixels@.len(),
                pixel_count * 4 <= pixels@.len(),
                i < pixel_count,
                k <= 4,
                src == (pixel_count - 1 - i) * 4,
                out@.len() == i * 4 + k,
                forall|j: int| 0 <= j < i * 4 + k ==> out@[j] == pixels@[(pixel_count - 1 - j / 4) * 4 + j % 4],
            decreases 4 - k,
        {
            out.push(pixels[src + k]);
            k = k + 1;
        }
        i = i + 1;
    }
    assert(out@ =~= rotated_180(pixels@, pixel_count as nat));
    out
}

/// Rotating twice gives the image back.
pub proof fn law_rotation_is_an_involution(pixels: Seq<u8>, n: nat)
    requires
        pixels.len() == n * 4,
    ensures
        rotated_180(rotated_180(pixels, n), n) == pixels,
{
    let once = rotated_180(pixels, n);
    let twice = rotated_180(once, n);
    assert forall|j: int| 0 <= j < n * 4 implies twice[j] == pixels[j] by {
        let q = j / 4;
        let k = j % 4;
        let j2 = (n - 1 - q) * 4 + k;
        assert(0 <= j2 < n * 4);
        assert(j2 / 4 == n - 1 - q);
        assert(j2 % 4 == k);
    }
    assert(twice =~= pixels);
}

} // verus!
