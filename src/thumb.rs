use vstd::prelude::*;

verus! {

/// An image held as 8-bit RGBA pixels, row by row.
#[derive(Debug, Clone)]
pub struct Raster {
    pub width: u32,
    pub height: u32,
    pub pixels: Vec<u8>,
}

impl Raster {
    /// The buffer holds exactly four bytes for each pixel.
    pub open spec fn wf(&self) -> bool {
        self.pixels@.len() == 4 * (self.width as int) * (self.height as int)
    }
}

/// The RGBA pixels that `image::imageops::resize` with the triangle filter
/// makes of a `width` x `height` RGBA image resized to `new_width` x `new_height`.
pub uninterp spec fn resized_rgba(
    pixels: Seq<u8>,
    width: nat,
    height: nat,
    new_width: nat,
    new_height: nat,
) -> Seq<u8>;

/// Relies on `image::ImageBuffer::from_raw`, which accepts a buffer that holds
/// the image, and on `image::imageops::resize` with `FilterType::Triangle`,
/// which returns an RGBA buffer of exactly the requested size, four bytes a
/// pixel, depending on its arguments alone.
#[verifier::external_body]
fn resize_triangle(pixels: Vec<u8>, width: u32, height: u32, new_width: u32, new_height: u32) -> (r: Vec<u8>)
    requires
        pixels@.len() == 4 * (width as int) * (height as int),
        new_width <= width,
        new_height <= height,
    ensures
        r@ == resized_rgba(pixels@, width as nat, height as nat, new_width as nat, new_height as nat),
        r@.len() == 4 * (new_width as int) * (new_height as int),
{
    let src = image::RgbaImage::from_raw(width, height, pixels).unwrap();
    image::imageops::resize(&src, new_width, new_height, image::imageops::FilterType::Triangle).into_raw()
}

/// Makes the thumbnail of an image: half its width and half its height,
/// rounded down, resampled with the triangle filter.
pub fn thumbnail(image: Raster) -> (r: Raster)
    requires
        image.wf(),
    ensures
        r.wf(),
        r.width == image.width / 2,
        r.height == image.height / 2,
        r.pixels@ == resized_rgba(
            image.pixels@,
            image.width as nat,
            image.height as nat,
            (image.width / 2) as nat,
            (image.height / 2) as nat,
        ),
{
    let width = image.width / 2;
    let height = image.height / 2;
    let pixels = resize_triangle(image.pixels, image.width, image.height, width, height);
    Raster { width, height, pixels }
}

} // verus!
