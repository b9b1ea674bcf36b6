//! Decoded rasters and the image sources built from them.

use crate::geometry::{FontSize, Rect};
use vstd::prelude::*;

verus! {

/// A decoded image: `width` × `height` pixels, four bytes (red, green, blue,
/// alpha) per pixel, row by row.
#[derive(Clone, Debug)]
pub struct Raster {
    pub width: u32,
    pub height: u32,
    pub pixels: Vec<u8>,
}

impl Raster {
    /// The pixel bytes cover the whole image exactly.
    pub open spec fn wf(&self) -> bool {
        self.pixels@.len() == self.width * self.height * 4
    }

    /// A raster over `pixels`, or `None` when their number does not match the dimensions.
    pub fn new(width: u32, height: u32, pixels: Vec<u8>) -> (r: Option<Raster>)
        ensures
            r matches Some(img) <==> pixels@.len() == width * height * 4,
            r matches Some(img) ==> img.width == width && img.height == height && img.pixels@
                == pixels@,
    {
        proof {
            assert((width as u128) * (height as u128) <= 0xffff_ffff_ffff_ffff_ffff_ffff_ffff)
                by (nonlinear_arith)
                requires
                    width <= u32::MAX,
                    height <= u32::MAX,
            ;
        }
        let expected: u128 = (width as u128) * (height as u128) * 4;
        if pixels.len() as u128 == expected {
            Some(Raster { width, height, pixels })
        } else {
            None
        }
    }
}

/// Relies on `BuildHasher::hash_one` with std's `DefaultHasher`, through
/// `Hash for [u8]`, for a fingerprint of the pixel bytes. Nothing is claimed
/// of the value: it differs between platforms and std releases.
#[verifier::external_body]
fn hash_pixels(bytes: &[u8]) -> u64 {
    std::hash::BuildHasher::hash_one(
        &std::hash::BuildHasherDefault::<std::collections::hash_map::DefaultHasher>::default(),
        bytes,
    )
}

/// Number of cells of `cell` pixels needed to hold `px` pixels, saturated at the
/// largest `u16`.
pub open spec fn cells_for(px: u32, cell: u16) -> u16 {
    let q: int = px as int / cell as int;
    let c: int = if px as int % cell as int == 0 { q } else { q + 1 };
    if c > u16::MAX { u16::MAX } else { c as u16 }
}

fn cells_needed(px: u32, cell: u16) -> (r: u16)
    requires
        cell > 0,
    ensures
        r == cells_for(px, cell),
{
    let q: u32 = px / (cell as u32);
    let c: u64 = if px % (cell as u32) == 0 { q as u64 } else { q as u64 + 1 };
    if c > 65535 { 65535 } else { c as u16 }
}

/// A raster together with the cell metrics it is measured against, its natural
/// cell rectangle and a fingerprint of its pixel bytes.
#[derive(Debug)]
pub struct ImageSource {
    pub image: Raster,
    pub font_size: FontSize,
    pub area: Rect,
    pub hash: u64,
}

/// The unscaled cell rectangle of an image of `width` × `height` pixels.
pub open spec fn natural_area(width: u32, height: u32, font_size: FontSize) -> Rect {
    Rect { x: 0, y: 0, width: cells_for(width, font_size.0), height: cells_for(height, font_size.1) }
}

impl ImageSource {
    pub open spec fn wf(&self) -> bool {
        &&& self.image.wf()
        &&& self.font_size.0 > 0
        &&& self.font_size.1 > 0
        &&& self.area == natural_area(self.image.width, self.image.height, self.font_size)
    }

    pub fn new(image: Raster, font_size: FontSize) -> (r: ImageSource)
        requires
            image.wf(),
            font_size.0 > 0,
            font_size.1 > 0,
        ensures
            r.wf(),
            r.image == image,
            r.font_size == font_size,
    {
        let area = Rect::new(
            0,
            0,
            cells_needed(image.width, font_size.0),
            cells_needed(image.height, font_size.1),
        );
        let hash = hash_pixels(image.pixels.as_slice());
        ImageSource { image, font_size, area, hash }
    }
}

} // verus!
