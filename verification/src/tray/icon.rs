//! The tray icon's image: a PNG file decoded to RGBA pixels.

use vstd::prelude::*;

verus! {

#[verifier::external_type_specification]
#[verifier::external_body]
pub struct ExImageError(image::ImageError);

/// What `image::load_from_memory_with_format(bytes, ImageFormat::Png)`
/// followed by `into_rgba8` gives: the RGBA bytes and the width and height;
/// `None` when the bytes do not decode as PNG.  The format is fixed, so no
/// format-detection or decoding hook takes part.
pub uninterp spec fn decoded_rgba(bytes: Seq<u8>) -> Option<(Seq<u8>, u32, u32)>;

/// `image::load_from_memory_with_format` for PNG, with the decoded image
/// turned into RGBA bytes, width and height.
#[verifier::external_body]
fn decode_rgba(bytes: &[u8]) -> (r: Result<(Vec<u8>, u32, u32), image::ImageError>)
    ensures
        r is Ok <==> decoded_rgba(bytes@) is Some,
        r matches Ok((px, w, h)) ==> decoded_rgba(bytes@) == Some((px@, w, h)),
{
    let rgba = image::load_from_memory_with_format(bytes, image::ImageFormat::Png)?.into_rgba8();
    let (w, h) = rgba.dimensions();
    Ok((rgba.into_raw(), w, h))
}

/// An icon image: RGBA bytes, four per pixel, row by row.
#[derive(Debug, Clone, PartialEq)]
pub struct IconImage {
    pub rgba: Vec<u8>,
    pub width: u32,
    pub height: u32,
}

impl IconImage {
    /// The byte count fits the size: four bytes per pixel and `width *
    /// height` pixels, a count that fits in 32 bits.  These are the
    /// conditions under which a tray icon accepts the image.
    pub open spec fn fits(self) -> bool {
        rgba_fits(self.rgba@.len(), self.width, self.height)
    }
}

/// `len` RGBA bytes fit a `width` by `height` image.
pub open spec fn rgba_fits(len: nat, width: u32, height: u32) -> bool {
    &&& len % 4 == 0
    &&& len / 4 == width * height
    &&& width * height <= u32::MAX
}

/// An image fits its size exactly when it has four bytes per pixel and a
/// pixel count that fits in 32 bits: every such decoded image is accepted,
/// and no other.
pub proof fn law_full_images_fit(len: nat, width: u32, height: u32)
    ensures
        rgba_fits(len, width, height) <==> (len == 4 * (width * height) && width * height <= u32::MAX),
{
    let p: int = width * height;
    assert(len == 4 * p ==> len % 4 == 0 && len / 4 == p) by (nonlinear_arith)
        requires
            p >= 0,
    ;
    assert(len % 4 == 0 && len / 4 == p ==> len == 4 * p) by (nonlinear_arith);
}

/// The tray icon: the busy image while the worker is busy, the idle one
/// otherwise, decoded as PNG; `None` when the chosen image does not decode or its
/// byte count does not fit its size.
pub fn load_icon(busy: bool, idle_png: &[u8], busy_png: &[u8]) -> (icon: Option<IconImage>)
    ensures
        ({
            let chosen = if busy { busy_png@ } else { idle_png@ };
            match icon {
                Some(i) => decoded_rgba(chosen) == Some((i.rgba@, i.width, i.height)) && i.fits(),
                None => match decoded_rgba(chosen) {
                    None => true,
                    Some((px, w, h)) => !rgba_fits(px.len(), w, h),
                },
            }
        }),
        ({
            let chosen = if busy { busy_png@ } else { idle_png@ };
            decoded_rgba(chosen) matches Some((px, w, h)) ==> (px.len() == 4 * (w * h) && w * h
                <= u32::MAX ==> (icon matches Some(i) && i.width == w && i.height == h && i.rgba@ == px))
        }),
{
    let buffer = if busy { busy_png } else { idle_png };
    match decode_rgba(buffer) {
        Ok((rgba, width, height)) => {
            assert((width as u64) * (height as u64) <= 0xffff_fffe_0000_0001u64) by (nonlinear_arith);
            let pixels: u64 = (width as u64) * (height as u64);
            proof {
                if rgba@.len() == 4 * (width * height) && width * height <= u32::MAX {
                    law_full_images_fit(rgba@.len(), width, height);
                }
            }
            if rgba.len() % 4 == 0 && (rgba.len() / 4) as u64 == pixels && pixels <= 0xffff_ffffu64 {
                Some(IconImage { rgba, width, height })
            } else {
                None
            }
        },
        Err(_) => None,
    }
}

} // verus!
