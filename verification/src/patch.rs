//! Cropping a window of intensities out of a grayscale raster.
//!
//! A patch is placed by its centre. The centre is real-valued; what decides
//! the crop is the floor of twice each coordinate, so a [`Centre`] holds those
//! two integers (half-pixel units) and the placement is exact integer
//! arithmetic. A window that would run past the right or bottom edge of the
//! raster is rejected: nothing is clamped, shrunk or padded on the far side.

use crate::geometry::{flat_index, law_position_of_index, lemma_flat_index_in_range};
use image::GenericImageView;
use vstd::prelude::*;

verus! {

/// Why a raster or a patch was rejected.
#[derive(Clone, Copy, Debug, PartialEq, Eq, Structural)]
pub enum PatchError {
    /// The buffer's length differs from `width * height`.
    SizeMismatch,
    /// The window's width or height is zero.
    EmptyWindow,
    /// The window would run past the right or the bottom edge of the raster.
    OutOfRaster,
}

/// The centre of a patch in half-pixel units: the floor of twice each coordinate.
#[derive(Clone, Copy, Debug, PartialEq, Eq, Structural)]
pub struct Centre {
    pub twice_x: i64,
    pub twice_y: i64,
}

/// A single-channel 8-bit raster, kept by the `image` crate. Its contents are
/// read through [`raster_width`], [`raster_height`] and [`raster_pixels`].
#[verifier::external_body]
pub struct Raster {
    inner: image::GrayImage,
}

/// Pixels per row of a raster.
pub uninterp spec fn raster_width(raster: Raster) -> u32;

/// Number of rows of a raster.
pub uninterp spec fn raster_height(raster: Raster) -> u32;

/// The intensities of a raster, row by row from the top, left to right.
pub uninterp spec fn raster_pixels(raster: Raster) -> Seq<u8>;

/// First pixel of a window of `extent` samples along one axis, centred at
/// half-pixel coordinate `twice_centre`: the floor of `centre - extent / 2`,
/// and 0 where that is negative.
pub open spec fn origin_axis(twice_centre: int, extent: int) -> int {
    let start = (twice_centre - extent) / 2;
    if start < 0 {
        0
    } else {
        start
    }
}

/// Whether the window placed by `centre` lies inside a raster of the given size.
pub open spec fn window_fits(
    raster_w: int,
    raster_h: int,
    centre: Centre,
    width: int,
    height: int,
) -> bool {
    &&& origin_axis(centre.twice_x as int, width) + width <= raster_w
    &&& origin_axis(centre.twice_y as int, height) + height <= raster_h
}

/// The `width` by `height` block of a row-major raster whose rows hold
/// `stride` pixels, starting at pixel `(x, y)`, itself row-major.
pub open spec fn block(pixels: Seq<u8>, stride: int, x: int, y: int, width: int, height: int) -> Seq<
    u8,
> {
    Seq::new(
        (width * height) as nat,
        |k: int| pixels[flat_index(stride, x + k % width, y + k / width)],
    )
}

impl Raster {
    /// `ImageBuffer::from_raw`: builds the raster when the buffer holds at
    /// least `width * height` bytes, and refuses otherwise. The raster keeps
    /// the given dimensions, and its pixels are the first `width * height`
    /// bytes of the buffer.
    #[verifier::external_body]
    fn from_raw(width: u32, height: u32, data: Vec<u8>) -> (r: Option<Raster>)
        ensures
            r.is_some() <==> width * height <= data@.len(),
            r matches Some(raster) ==> raster_width(raster) == width && raster_height(raster)
                == height && raster_pixels(raster) == data@.subrange(0, width * height),
    {
        match image::GrayImage::from_raw(width, height, data) {
            Some(inner) => Some(Raster { inner }),
            None => None,
        }
    }

    /// `ImageBuffer::dimensions`: the width and height the raster was made
    /// with. A raster holds one intensity per pixel.
    #[verifier::external_body]
    fn dimensions(&self) -> (r: (u32, u32))
        ensures
            r.0 == raster_width(*self),
            r.1 == raster_height(*self),
            raster_pixels(*self).len() == r.0 * r.1,
    {
        self.inner.dimensions()
    }

    /// `imageops::crop_imm`, read out through the sub-image's `pixels`: for a
    /// block inside the raster that is at least one pixel wide, its
    /// intensities row by row.
    #[verifier::external_body]
    fn crop(&self, x: u32, y: u32, width: u32, height: u32) -> (r: Vec<u8>)
        requires
            1 <= width,
            x + width <= raster_width(*self),
            y + height <= raster_height(*self),
        ensures
            r@ == block(
                raster_pixels(*self),
                raster_width(*self) as int,
                x as int,
                y as int,
                width as int,
                height as int,
            ),
    {
        image::imageops::crop_imm(&self.inner, x, y, width, height).pixels().map(|px| px.2[0]).collect()
    }

    /// A raster of `width` by `height` pixels over a row-major buffer of
    /// exactly that many intensities.
    pub fn new(width: u32, height: u32, data: Vec<u8>) -> (r: Result<Raster, PatchError>)
        ensures
            data@.len() == width * height ==> (r matches Ok(raster) && raster_width(raster) == width
                && raster_height(raster) == height && raster_pixels(raster) == data@),
            data@.len() != width * height ==> r matches Err(PatchError::SizeMismatch),
    {
        assert(0 <= width * height <= u64::MAX) by (nonlinear_arith)
            requires
                0 <= width <= u32::MAX,
                0 <= height <= u32::MAX,
        ;
        let expected: u64 = (width as u64) * (height as u64);
        if (data.len() as u64) != expected {
            return Err(PatchError::SizeMismatch);
        }
        assert(data@.subrange(0, width * height) == data@);
        match Raster::from_raw(width, height, data) {
            Some(raster) => Ok(raster),
            None => Err(PatchError::SizeMismatch),
        }
    }

    /// Pixels per row.
    pub fn width(&self) -> (r: u32)
        ensures
            r == raster_width(*self),
    {
        self.dimensions().0
    }

    /// Number of rows.
    pub fn height(&self) -> (r: u32)
        ensures
            r == raster_height(*self),
    {
        self.dimensions().1
    }
}

/// First pixel of the window along one axis.
pub fn origin(twice_centre: i64, extent: u32) -> (r: i64)
    ensures
        r == origin_axis(twice_centre as int, extent as int),
        0 <= r,
{
    let e: i64 = extent as i64;
    if twice_centre <= e {
        0
    } else {
        (twice_centre - e) / 2
    }
}

/// Reads the `width` by `height` window placed by `centre` out of `raster`,
/// row by row. The window starts at `origin_axis` on each axis. A window with
/// an empty axis is rejected, and so is one that does not fit inside the
/// raster.
pub fn extract(raster: &Raster, centre: Centre, width: u32, height: u32) -> (r: Result<
    Vec<u8>,
    PatchError,
>)
    ensures
        (width == 0 || height == 0) ==> r matches Err(PatchError::EmptyWindow),
        width >= 1 && height >= 1 && window_fits(
            raster_width(*raster) as int,
            raster_height(*raster) as int,
            centre,
            width as int,
            height as int,
        ) ==> (r matches Ok(patch) && patch@ == block(
            raster_pixels(*raster),
            raster_width(*raster) as int,
            origin_axis(centre.twice_x as int, width as int),
            origin_axis(centre.twice_y as int, height as int),
            width as int,
            height as int,
        )),
        width >= 1 && height >= 1 && !window_fits(
            raster_width(*raster) as int,
            raster_height(*raster) as int,
            centre,
            width as int,
            height as int,
        ) ==> r matches Err(PatchError::OutOfRaster),
{
    if width == 0 || height == 0 {
        return Err(PatchError::EmptyWindow);
    }
    let dims = raster.dimensions();
    let x: i64 = origin(centre.twice_x, width);
    let y: i64 = origin(centre.twice_y, height);
    if x <= (dims.0 as i64) - (width as i64) && y <= (dims.1 as i64) - (height as i64) {
        Ok(raster.crop(x as u32, y as u32, width, height))
    } else {
        Err(PatchError::OutOfRaster)
    }
}

/// Entry `(i, j)` of a block is the raster's pixel `(x + i, y + j)`.
pub proof fn law_block_reads_the_raster(
    pixels: Seq<u8>,
    stride: int,
    x: int,
    y: int,
    width: int,
    height: int,
    i: int,
    j: int,
)
    requires
        0 <= i < width,
        0 <= j < height,
    ensures
        block(pixels, stride, x, y, width, height).len() == width * height,
        0 <= flat_index(width, i, j) < width * height,
        block(pixels, stride, x, y, width, height)[flat_index(width, i, j)] == pixels[flat_index(
            stride,
            x + i,
            y + j,
        )],
{
    lemma_flat_index_in_range(width, height, i, j);
    law_position_of_index(width, height, i, j);
}

/// A window whose centre lies at or before half its extent starts at pixel 0
/// of that axis: the near edge is clamped.
pub proof fn law_near_edge_clamps_to_zero(twice_centre: int, extent: int)
    requires
        twice_centre <= extent,
    ensures
        origin_axis(twice_centre, extent) == 0,
{
}

/// A window centred at exactly `(width / 2, height / 2)` on a raster at least
/// as large as the window starts at pixel `(0, 0)` and fits.
pub proof fn law_centred_window_starts_at_zero(
    raster_w: int,
    raster_h: int,
    centre: Centre,
    width: int,
    height: int,
)
    requires
        centre.twice_x == width,
        centre.twice_y == height,
        width <= raster_w,
        height <= raster_h,
    ensures
        origin_axis(centre.twice_x as int, width) == 0,
        origin_axis(centre.twice_y as int, height) == 0,
        window_fits(raster_w, raster_h, centre, width, height),
{
}

} // verus!
