use vstd::prelude::*;

verus! {

#[verifier::external_type_specification]
#[verifier::external_body]
pub struct ExDynamicImage(image::DynamicImage);

/// Color codes for a decoded image, as plain values. The first four are the
/// color types that the JPEG encoder accepts; every other color type maps to
/// `COLOR_OTHER`.
pub const COLOR_L8: u8 = 0;

pub const COLOR_LA8: u8 = 1;

pub const COLOR_RGB8: u8 = 2;

pub const COLOR_RGBA8: u8 = 3;

pub const COLOR_OTHER: u8 = 4;

/// What decoding a byte buffer as a raster image yields: decoding is a pure
/// function of the bytes, and on success the decoder reports the pixel
/// width, the pixel height, and the color code of the decoded image.
pub uninterp spec fn decoded_props(data: Seq<u8>) -> Option<(u32, u32, u8)>;

/// The dimensions carried by decoded properties.
pub open spec fn spec_props_dims(props: Option<(u32, u32, u8)>) -> Option<(u32, u32)> {
    match props {
        Some(p) => Some((p.0, p.1)),
        None => None,
    }
}

/// The pixel dimensions that the bytes decode to, if they decode at all.
pub open spec fn spec_decoded_dims(data: Seq<u8>) -> Option<(u32, u32)> {
    spec_props_dims(decoded_props(data))
}

/// Whether an image of these dimensions stays within the decoder's default
/// allocation limit of 512 MiB, at four bytes per pixel (an upper bound on
/// any eight-bit decode output). Images beyond the limit fail to decode even
/// when well formed.
pub open spec fn spec_fits_decode_limit(width: u32, height: u32) -> bool {
    4 * (width as int) * (height as int) <= 0x2000_0000
}

/// Whether decoded properties are present with one of the colors that the
/// JPEG encoder itself emits: eight-bit grayscale or eight-bit RGB.
pub open spec fn spec_jpeg_color(props: Option<(u32, u32, u8)>) -> bool {
    props matches Some(p) && (p.2 == COLOR_L8 || p.2 == COLOR_RGB8)
}

/// Whether the JPEG encoder accepts an image of this color code and these
/// dimensions: an eight-bit color type, and width and height that fit the
/// sixteen-bit fields of a JPEG frame header.
pub open spec fn spec_jpeg_encodable(color: u8, width: u32, height: u32) -> bool {
    &&& (color == COLOR_L8 || color == COLOR_LA8 || color == COLOR_RGB8 || color == COLOR_RGBA8)
    &&& width <= 65535
    &&& height <= 65535
}

/// Whether decoded properties are present and the JPEG encoder accepts the
/// decoded color at the given target dimensions.
pub open spec fn spec_props_encodable(props: Option<(u32, u32, u8)>, width: u32, height: u32) -> bool {
    props matches Some(p) && spec_jpeg_encodable(p.2, width, height)
}

/// Whether decoded properties are present and the JPEG encoder accepts the
/// decoded color at the decoded dimensions themselves.
pub open spec fn spec_props_self_encodable(props: Option<(u32, u32, u8)>) -> bool {
    props matches Some(p) && spec_jpeg_encodable(p.2, p.0, p.1)
}

/// Whether decoded properties are present with positive dimensions that a
/// re-encoded JPEG of the same size can round-trip through the decoder.
pub open spec fn spec_roundtrip_dims(props: Option<(u32, u32, u8)>) -> bool {
    props matches Some(p) && p.0 >= 1 && p.1 >= 1 && spec_fits_decode_limit(p.0, p.1)
}

/// A decoded raster image together with its pixel dimensions and color code
/// as plain values.
pub(crate) struct RasterImage {
    pub(crate) img: image::DynamicImage,
    pub(crate) width: u32,
    pub(crate) height: u32,
    pub(crate) color: u8,
}

/// Relies on image::load_from_memory: decoding either yields an image whose
/// width(), height() and color() are the properties encoded in the data, or
/// fails, and which of the two happens depends on the bytes alone.
#[verifier::external_body]
pub(crate) fn decode_raster(data: &[u8]) -> (r: Result<RasterImage, String>)
    ensures
        r matches Ok(img) ==> decoded_props(data@) == Some((img.width, img.height, img.color)),
        r is Err <==> decoded_props(data@) is None,
{
    match image::load_from_memory(data) {
        Ok(img) => {
            let color = match img.color() {
                image::ColorType::L8 => COLOR_L8,
                image::ColorType::La8 => COLOR_LA8,
                image::ColorType::Rgb8 => COLOR_RGB8,
                image::ColorType::Rgba8 => COLOR_RGBA8,
                _ => COLOR_OTHER,
            };
            Ok(RasterImage { width: img.width(), height: img.height(), color, img })
        },
        Err(e) => Err(format!("{}", e)),
    }
}

/// Relies on DynamicImage::resize_exact: the result has exactly the requested
/// width and height, with the aspect ratio not preserved, and keeps the
/// source's pixel type, so the color code carries over. Lanczos-class
/// resampling, as identity photos demand.
#[verifier::external_body]
pub(crate) fn resize_exact_raster(img: &RasterImage, width: u32, height: u32) -> (r: RasterImage)
    requires
        width >= 1,
        height >= 1,
    ensures
        r.width == width,
        r.height == height,
        r.color == img.color,
{
    let resized = img.img.resize_exact(width, height, image::imageops::FilterType::Lanczos3);
    let width = resized.width();
    let height = resized.height();
    RasterImage { img: resized, width, height, color: img.color }
}

/// Relies on DynamicImage::write_to with ImageOutputFormat::Jpeg: writing into
/// a fresh in-memory buffer cannot fail on output, so encoding succeeds
/// exactly when the encoder accepts the image's color type and dimensions.
/// The bytes it then produces are a baseline JPEG of one or three components,
/// so — when the dimensions are positive and small enough that the decoder's
/// default allocation limit admits them — they decode back to exactly the
/// encoded width and height, in eight-bit grayscale or RGB.
#[verifier::external_body]
pub(crate) fn encode_jpeg(img: &RasterImage, quality: u8) -> (r: Result<Vec<u8>, String>)
    ensures
        r is Ok <==> spec_jpeg_encodable(img.color, img.width, img.height),
        r matches Ok(out) ==> (img.width >= 1 && img.height >= 1 && spec_fits_decode_limit(
            img.width,
            img.height,
        ) ==> spec_decoded_dims(out@) == Some((img.width, img.height)) && spec_jpeg_color(
            decoded_props(out@),
        )),
{
    let mut out: Vec<u8> = Vec::new();
    let res = img.img.write_to(
        &mut std::io::Cursor::new(&mut out),
        image::ImageOutputFormat::Jpeg(quality),
    );
    match res {
        Ok(()) => Ok(out),
        Err(e) => Err(format!("{}", e)),
    }
}

} // verus!
