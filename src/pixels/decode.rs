use vstd::prelude::*;

use crate::pixels::image::Image;

verus! {

/// What the `image` crate's built-in decoders read from the bytes of an image
/// file, the format told by its magic bytes, converted to
/// 8-bit RGB: the width, the height and the pixels' bytes, three per pixel,
/// row after row; nothing where the bytes hold no image that it can decode.
pub uninterp spec fn decoded_rgb8(bytes: Seq<u8>) -> Option<(u32, u32, Seq<u8>)>;

#[verifier::external_type_specification]
#[verifier::external_body]
pub struct ExImageError(image::ImageError);

/// Relies on `image::guess_format` (the built-in magic bytes only),
/// `image::load_from_memory_with_format` (a built-in format, so no decoding
/// hook registered at run time is consulted), and `DynamicImage::to_rgb8`,
/// `ImageBuffer::dimensions` and `ImageBuffer::into_raw`: the decoded image's
/// size and RGB bytes, which depend on the input bytes alone.
#[verifier::external_body]
fn decode_rgb8(bytes: &[u8]) -> (r: Result<(u32, u32, Vec<u8>), image::ImageError>)
    ensures
        match r {
            Ok((w, h, data)) => decoded_rgb8(bytes@) == Some((w, h, data@)),
            Err(_) => decoded_rgb8(bytes@) is None,
        },
{
    let format = image::guess_format(bytes)?;
    let rgb = image::load_from_memory_with_format(bytes, format)?.to_rgb8();
    let (width, height) = rgb.dimensions();
    Ok((width, height, rgb.into_raw()))
}

/// Relies on the `Display` impl of `image::ImageError`: a description of
/// why decoding failed.
#[verifier::external_body]
fn error_message(e: &image::ImageError) -> String {
    e.to_string()
}

/// Why an image file could not be turned into a raster.
pub enum LoadError {
    /// The decoder refused the bytes; the message is its own.
    Decode(String),
    /// The decoder's pixel bytes do not fill its stated size exactly.
    Malformed,
}

/// The RGB triples of row-major pixel bytes, three bytes per pixel.
pub open spec fn rgb_triples(data: Seq<u8>) -> Seq<(u8, u8, u8)> {
    Seq::new(data.len() / 3, |i: int| (data[3 * i], data[3 * i + 1], data[3 * i + 2]))
}

impl Image<(u8, u8, u8)> {
    /// The raster of `width * height` pixels whose bytes are `data`, three
    /// per pixel, row after row; `None` where `data` has another length.
    pub fn from_rgb8(width: u32, height: u32, data: &Vec<u8>) -> (r: Option<Self>)
        ensures
            r is Some <==> data@.len() == 3 * width * height,
            r matches Some(img) ==> img.width == width && img.height == height
                && img.is_complete() && img.pixels@ == rgb_triples(data@),
    {
        let n = data.len();
        assert((width as int) * (height as int) <= 0xffff_ffff * 0xffff_ffff) by (nonlinear_arith)
            requires
                width <= 0xffff_ffff,
                height <= 0xffff_ffff,
        ;
        let count = (width as u64) * (height as u64);
        assert(n % 3 == 0 && n / 3 == count <==> n == 3 * count) by (nonlinear_arith);
        assert(3 * count == 3 * width * height) by (nonlinear_arith)
            requires
                count == width * height,
        ;
        if n % 3 != 0 || (n / 3) as u64 != count {
            return None;
        }
        let mut pixels: Vec<(u8, u8, u8)> = Vec::new();
        let m = n / 3;
        let mut i: usize = 0;
        while i < m
            invariant
                n == data@.len(),
                m == n / 3,
                i <= m,
                pixels@ == rgb_triples(data@).take(i as int),
            decreases m - i,
        {
            pixels.push((data[3 * i], data[3 * i + 1], data[3 * i + 2]));
            assert(pixels@ =~= rgb_triples(data@).take(i + 1));
            i = i + 1;
        }
        assert(pixels@ =~= rgb_triples(data@));
        Some(Image { width: width as usize, height: height as usize, pixels })
    }

    /// The raster that an image file's bytes hold, in 8-bit RGB.
    pub fn decode(bytes: &[u8]) -> (r: Result<Self, LoadError>)
        ensures
            match decoded_rgb8(bytes@) {
                None => r matches Err(LoadError::Decode(_)),
                Some((w, h, data)) => if data.len() == 3 * w * h {
                    r matches Ok(img) && img.width == w && img.height == h && img.is_complete()
                        && img.pixels@ == rgb_triples(data)
                } else {
                    r matches Err(LoadError::Malformed)
                },
            },
    {
        match decode_rgb8(bytes) {
            Ok((width, height, data)) => match Image::from_rgb8(width, height, &data) {
                Some(img) => Ok(img),
                None => Err(LoadError::Malformed),
            },
            Err(e) => Err(LoadError::Decode(error_message(&e))),
        }
    }
}

} // verus!
