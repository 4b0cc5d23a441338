//! The calls into the `image` and `ravif` crates. Verus takes the contracts in
//! this file on trust; everything else in the crate is proved from them.

use vstd::prelude::*;

verus! {

/// A decoded picture of the `image` crate. Its pixels are opaque to the proofs.
#[verifier::external_type_specification]
#[verifier::external_body]
pub struct ExDynamicImage(image::DynamicImage);

/// Width and height, in pixels, of a decoded picture: what
/// `DynamicImage::width` and `DynamicImage::height` return for it.
pub uninterp spec fn image_extent(img: image::DynamicImage) -> (nat, nat);

/// Width and height of the picture that the built-in decoders of `image`
/// make of `data`, or `None` where they reject the bytes.
pub uninterp spec fn decoded_extent(data: Seq<u8>) -> Option<(nat, nat)>;

/// Finds the format with `image::guess_format` and decodes with
/// `ImageReader::with_format` and `ImageReader::decode`, under the reader's
/// default limits. These go by the crate's own table of signatures and its
/// built-in decoders, and consult none of the hooks that a process may
/// register. The contract claims that whether the bytes decode, and to which
/// dimensions, depends on the bytes alone; it claims nothing of the pixels.
/// The error is the message of the outside error.
#[verifier::external_body]
pub(crate) fn decode_image(data: &[u8]) -> (r: Result<image::DynamicImage, String>)
    ensures
        match r {
            Ok(img) => decoded_extent(data@) == Some(image_extent(img)),
            Err(_) => decoded_extent(data@) is None,
        },
{
    let format = image::guess_format(data).map_err(|e| e.to_string())?;
    image::ImageReader::with_format(std::io::Cursor::new(data), format)
        .decode()
        .map_err(|e| e.to_string())
}

/// Reads the dimensions with `DynamicImage::width` and `DynamicImage::height`.
#[verifier::external_body]
pub(crate) fn image_dimensions(img: &image::DynamicImage) -> (r: (u32, u32))
    ensures
        (r.0 as nat, r.1 as nat) == image_extent(*img),
{
    (img.width(), img.height())
}

/// Resamples with `DynamicImage::resize_exact` and the Lanczos3 filter. The
/// outside code allocates one buffer of the old width and the new height and
/// one of the new size, at up to sixteen bytes a pixel, and panics where
/// either cannot be addressed: the precondition keeps both in range. The
/// contract claims the new dimensions and nothing of the pixels.
#[verifier::external_body]
pub(crate) fn resize_image(img: &image::DynamicImage, width: u32, height: u32) -> (r:
    image::DynamicImage)
    requires
        16 * image_extent(*img).0 * height <= isize::MAX,
        16 * width * height <= isize::MAX,
    ensures
        image_extent(r) == (width as nat, height as nat),
{
    img.resize_exact(width, height, image::imageops::FilterType::Lanczos3)
}

/// Desaturates with `DynamicImage::grayscale`, which keeps the dimensions.
#[verifier::external_body]
pub(crate) fn desaturate(img: &image::DynamicImage) -> (r: image::DynamicImage)
    ensures
        image_extent(r) == image_extent(*img),
{
    img.grayscale()
}

/// What the JPEG encoder of `image` makes of a picture at a quality: the
/// file, or the message with which it refuses the picture.
pub uninterp spec fn jpeg_encoding(img: image::DynamicImage, quality: u8) -> Result<
    Seq<u8>,
    Seq<char>,
>;

/// Encodes the picture as it is stored with `JpegEncoder::new_with_quality`
/// and `JpegEncoder::encode`. The contract names the outcome: the encoder
/// works in integers and single roundings on one thread, so the file and the
/// refusal depend on the picture and the quality alone. It refuses pixel
/// layouts other than 8-bit gray and 8-bit RGB and sides outside 1..=65535,
/// and clamps the quality to 1..=100 itself. It panics where the samples are
/// not as many as the dimensions and the layout ask for; those handed over
/// here are read off one picture, built by `image` itself, and always agree.
#[verifier::external_body]
pub(crate) fn jpeg_bytes(img: &image::DynamicImage, quality: u8) -> (r: Result<Vec<u8>, String>)
    ensures
        match r {
            Ok(bytes) => jpeg_encoding(*img, quality) == Ok::<Seq<u8>, Seq<char>>(bytes@),
            Err(message) => jpeg_encoding(*img, quality) == Err::<Seq<u8>, Seq<char>>(message@),
        },
{
    let mut buffer = Vec::new();
    image::codecs::jpeg::JpegEncoder::new_with_quality(std::io::Cursor::new(&mut buffer), quality)
        .encode(img.as_bytes(), img.width(), img.height(), img.color().into())
        .map_err(|e| e.to_string())?;
    Ok(buffer)
}

/// Converts to 8-bit RGBA with `DynamicImage::to_rgba8` and encodes the
/// pixels with `ravif::Encoder::encode_rgba`, at speed 4 and eight bits,
/// leaving the colour of transparent pixels alone. The outside code panics
/// on a quality outside 1..=100 and on a width of 0, and where the RGBA
/// buffer cannot be addressed: the precondition leaves these out. Nothing is
/// claimed of the outcome, which depends on how many threads the machine
/// offers.
#[verifier::external_body]
pub(crate) fn avif_bytes(img: &image::DynamicImage, quality: u8) -> Result<Vec<u8>, String>
    requires
        1 <= quality <= 100,
        1 <= image_extent(*img).0,
        4 * image_extent(*img).0 * image_extent(*img).1 <= isize::MAX,
{
    let rgba = img.to_rgba8();
    let pixels: Vec<rgb::RGBA8> =
        rgba.pixels().map(|p| rgb::RGBA8::new(p[0], p[1], p[2], p[3])).collect();
    let (width, height) = (rgba.width() as usize, rgba.height() as usize);
    ravif::Encoder::new()
        .with_quality(quality.into())
        .with_speed(4)
        .with_bit_depth(ravif::BitDepth::Eight)
        .with_alpha_color_mode(ravif::AlphaColorMode::UnassociatedDirty)
        .encode_rgba(imgref::Img::new(pixels.as_slice(), width, height))
        .map(|out| out.avif_file)
        .map_err(|e| e.to_string())
}

} // verus!
