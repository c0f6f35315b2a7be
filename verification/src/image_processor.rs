use vstd::prelude::*;
use crate::errors::AppError;

verus! {

/// The fixed eight-byte signature that opens every PNG file.
pub open spec fn png_signature() -> Seq<u8> {
    seq![0x89u8, 0x50u8, 0x4Eu8, 0x47u8, 0x0Du8, 0x0Au8, 0x1Au8, 0x0Au8]
}

/// A byte buffer is treated as a PNG exactly when its first eight bytes
/// equal the PNG signature; shorter input is never a PNG.
pub open spec fn spec_is_valid_png(data: Seq<u8>) -> bool {
    data.len() >= 8 && data.subrange(0, 8) == png_signature()
}

/// Cheap, decode-free check that the buffer opens with the PNG signature.
pub fn is_valid_png(data: &[u8]) -> (r: bool)
    ensures
        r == spec_is_valid_png(data@),
{
    if data.len() < 8 {
        return false;
    }
    let r = data[0] == 0x89 && data[1] == 0x50 && data[2] == 0x4E && data[3] == 0x47
        && data[4] == 0x0D && data[5] == 0x0A && data[6] == 0x1A && data[7] == 0x0A;
    proof {
        if r {
            assert(data@.subrange(0, 8) =~= png_signature());
        } else {
            assert(data@.subrange(0, 8) != png_signature()) by {
                if data@.subrange(0, 8) == png_signature() {
                    assert(forall|i: int| 0 <= i < 8 ==> data@.subrange(0, 8)[i] == png_signature()[i]);
                }
            }
        }
    }
    r
}

/// A WebP file is a RIFF container: it starts with the four bytes
/// "RIFF", a four-byte length, then the four bytes "WEBP".
pub open spec fn spec_is_valid_webp(data: Seq<u8>) -> bool {
    data.len() >= 12
        && data.subrange(0, 4) == seq![0x52u8, 0x49u8, 0x46u8, 0x46u8]
        && data.subrange(8, 12) == seq![0x57u8, 0x45u8, 0x42u8, 0x50u8]
}

/// Cheap check that the buffer opens with the WebP container signature.
pub fn is_valid_webp(data: &[u8]) -> (r: bool)
    ensures
        r == spec_is_valid_webp(data@),
{
    if data.len() < 12 {
        return false;
    }
    let r = data[0] == 0x52 && data[1] == 0x49 && data[2] == 0x46 && data[3] == 0x46
        && data[8] == 0x57 && data[9] == 0x45 && data[10] == 0x42 && data[11] == 0x50;
    proof {
        if r {
            assert(data@.subrange(0, 4) =~= seq![0x52u8, 0x49u8, 0x46u8, 0x46u8]);
            assert(data@.subrange(8, 12) =~= seq![0x57u8, 0x45u8, 0x42u8, 0x50u8]);
        } else {
            assert(!spec_is_valid_webp(data@)) by {
                if spec_is_valid_webp(data@) {
                    assert(forall|i: int| 0 <= i < 4 ==> data@.subrange(0, 4)[i] == seq![0x52u8, 0x49u8, 0x46u8, 0x46u8][i]);
                    assert(forall|i: int| 0 <= i < 4 ==> data@.subrange(8, 12)[i] == seq![0x57u8, 0x45u8, 0x42u8, 0x50u8][i]);
                }
            }
        }
    }
    r
}

/// A decoded raster laid out as 8-bit RGB: three bytes per pixel, row
/// by row, any transparency already dropped.
#[derive(Debug, Clone)]
pub struct RgbRaster {
    pub width: u32,
    pub height: u32,
    pub pixels: Vec<u8>,
}

impl RgbRaster {
    /// The pixel buffer holds exactly three bytes for each pixel.
    pub open spec fn wf(self) -> bool {
        self.pixels@.len() == 3 * self.width * self.height
    }
}

/// Whether the PNG decoder accepts the byte sequence; a function of the
/// bytes alone.
pub uninterp spec fn png_decodable(data: Seq<u8>) -> bool;

/// The RGB pixel bytes of the decoded image, for decodable input.
pub uninterp spec fn png_rgb_pixels(data: Seq<u8>) -> Seq<u8>;

/// The pixel width of the decoded image, for decodable input.
pub uninterp spec fn png_rgb_width(data: Seq<u8>) -> u32;

/// The pixel height of the decoded image, for decodable input.
pub uninterp spec fn png_rgb_height(data: Seq<u8>) -> u32;

/// Relies on image::load_from_memory_with_format with the PNG format,
/// and on image::DynamicImage::to_rgb8 to lay the decoded image out as
/// an 8-bit RGB buffer of exactly width * height pixels: both results
/// are functions of the input bytes alone.
#[verifier::external_body]
fn decode_png_rgb(data: &Vec<u8>) -> (r: Result<RgbRaster, String>)
    ensures
        r is Ok <==> png_decodable(data@),
        r matches Ok(img) ==> img.width == png_rgb_width(data@)
            && img.height == png_rgb_height(data@)
            && img.pixels@ == png_rgb_pixels(data@)
            && img.wf(),
{
    match image::load_from_memory_with_format(data, image::ImageFormat::Png) {
        Ok(img) => {
            let rgb = img.to_rgb8();
            let (width, height) = rgb.dimensions();
            Ok(RgbRaster { width, height, pixels: rgb.into_raw() })
        }
        Err(e) => Err(e.to_string()),
    }
}

/// Names the byte sequence that the WebP encoder produces for a given
/// RGB raster at a given quality factor.
pub uninterp spec fn webp_lossy(pixels: Seq<u8>, width: int, height: int, quality: int) -> Seq<u8>;

/// The largest width or height the WebP encoder accepts.
pub const WEBP_MAX_DIMENSION: u32 = 16383;

/// The fixed quality factor for image conversion, on the encoder's
/// 0-100 scale: a balance between file size and quality.
pub const WEBP_QUALITY: u8 = 85;

/// Relies on webp::Encoder::from_rgb and webp::Encoder::encode: lossy
/// WebP encoding of an 8-bit RGB raster, a function of the pixels,
/// dimensions and quality alone; the output is a WebP file, which by
/// the container format starts "RIFF", a length, then "WEBP". The
/// encoder demands a full buffer, dimensions within its limit, and a
/// quality on its 0-100 scale.
#[verifier::external_body]
fn encode_webp(pixels: &Vec<u8>, width: u32, height: u32, quality: u8) -> (r: Vec<u8>)
    requires
        pixels@.len() == 3 * width * height,
        0 < width <= WEBP_MAX_DIMENSION,
        0 < height <= WEBP_MAX_DIMENSION,
        quality <= 100,
    ensures
        r@ == webp_lossy(pixels@, width as int, height as int, quality as int),
        spec_is_valid_webp(r@),
{
    let encoder = webp::Encoder::from_rgb(pixels, width, height);
    encoder.encode(quality.into()).to_vec()
}

/// The dimensions a decoded image must have for WebP encoding to be
/// possible.
pub open spec fn fits_webp_dims(width: u32, height: u32) -> bool {
    0 < width <= WEBP_MAX_DIMENSION && 0 < height <= WEBP_MAX_DIMENSION
}

/// The inputs on which PNG-to-WebP conversion succeeds: the bytes
/// decode as a PNG and the decoded dimensions fit the WebP encoder.
pub open spec fn spec_png_to_webp_ok(data: Seq<u8>) -> bool {
    png_decodable(data) && fits_webp_dims(png_rgb_width(data), png_rgb_height(data))
}

/// The WebP bytes that conversion produces for such input.
pub open spec fn spec_png_to_webp(data: Seq<u8>) -> Seq<u8> {
    webp_lossy(
        png_rgb_pixels(data),
        png_rgb_width(data) as int,
        png_rgb_height(data) as int,
        WEBP_QUALITY as int,
    )
}

/// Convert PNG image data to WebP format: decode, drop any alpha by
/// converting to 8-bit RGB, and re-encode lossily at the fixed quality.
pub fn convert_png_to_webp(png_data: &Vec<u8>) -> (r: Result<Vec<u8>, AppError>)
    ensures
        r is Ok <==> spec_png_to_webp_ok(png_data@),
        r matches Ok(out) ==> out@ == spec_png_to_webp(png_data@) && spec_is_valid_webp(out@),
        r matches Err(e) ==> e is ProcessingError,
{
    let raster = match decode_png_rgb(png_data) {
        Ok(raster) => raster,
        Err(detail) => {
            return Err(AppError::ProcessingError(
                "Failed to decode PNG: ".to_owned().concat(detail.as_str()),
            ));
        }
    };
    if raster.width == 0 || raster.height == 0 || raster.width > WEBP_MAX_DIMENSION
        || raster.height > WEBP_MAX_DIMENSION {
        return Err(AppError::ProcessingError(
            "Image dimensions exceed what the WebP encoder supports".to_owned(),
        ));
    }
    Ok(encode_webp(&raster.pixels, raster.width, raster.height, WEBP_QUALITY))
}

} // verus!
