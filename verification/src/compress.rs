//! Transcoding: the target size, the output format, the effective quality,
//! and the rule that a result larger than the original is thrown away.

use crate::codec::{
    avif_bytes, decode_image, decoded_extent, desaturate, image_dimensions, image_extent,
    jpeg_bytes, jpeg_encoding, resize_image,
};
use vstd::arithmetic::div_mod::lemma_fundamental_div_mod_converse;
use vstd::prelude::*;
use vstd::slice::slice_to_vec;
use vstd::string::StringExecFns;

verus! {

/// Limits that steer a transcode.
pub struct Config {
    /// Pictures wider than this are scaled down to it.
    pub max_width: u32,
    /// The tallest picture a JPEG file can hold.
    pub max_jpeg_height: u32,
    /// The tallest picture that is encoded as AVIF.
    pub max_avif_height: u32,
    /// The band into which the quality of a grayscale picture is clamped.
    pub grayscale_quality_range: (u8, u8),
    /// Whether an AVIF encoder is at hand. Without one, every picture becomes a JPEG.
    pub avif_encoder: bool,
}

/// The limits that `Config::default` returns.
pub open spec fn default_config() -> Config {
    Config {
        max_width: 400,
        max_jpeg_height: 32767,
        max_avif_height: 16383,
        grayscale_quality_range: (10, 40),
        avif_encoder: true,
    }
}

/// The default limits, with or without an AVIF encoder.
pub open spec fn default_config_with(avif_encoder: bool) -> Config {
    Config { avif_encoder, ..default_config() }
}

impl Default for Config {
    fn default() -> (c: Config)
        ensures
            c == default_config(),
    {
        Config {
            max_width: 400,
            max_jpeg_height: 32767,
            max_avif_height: 16383,
            grayscale_quality_range: (10, 40),
            avif_encoder: true,
        }
    }
}

/// What a transcode hands back.
#[derive(Debug)]
pub struct CompressionResult {
    /// The bytes to send: the encoded picture, or the original.
    pub data: Vec<u8>,
    /// `"avif"`, `"jpeg"`, or `"original"` where the original was kept.
    pub format: String,
    /// How many bytes shorter than the original the data is.
    pub bytes_saved: i64,
}

/// Why a transcode failed.
#[derive(Debug)]
pub enum CompressionError {
    /// The picture could not be decoded or encoded.
    ImageError(String),
    /// A buffer could not be written.
    IoError(String),
}

impl CompressionError {
    /// The text of the error as it is shown to an operator.
    pub open spec fn message_text(self) -> Seq<char> {
        match self {
            CompressionError::ImageError(detail) => "Image processing error: "@ + detail@,
            CompressionError::IoError(detail) => "IO error: "@ + detail@,
        }
    }

    /// Renders the error for an operator.
    pub fn message(&self) -> (text: String)
        ensures
            text@ == self.message_text(),
    {
        match self {
            CompressionError::ImageError(detail) => "Image processing error: ".to_owned().concat(
                detail.as_str(),
            ),
            CompressionError::IoError(detail) => "IO error: ".to_owned().concat(detail.as_str()),
        }
    }
}

/// The two encodings a transcode can produce.
#[derive(Clone, Copy, Debug, PartialEq, Eq, Structural)]
pub enum OutputFormat {
    Avif,
    Jpeg,
}

impl OutputFormat {
    /// The name of the format as it appears in a content type.
    pub open spec fn tag(self) -> Seq<char> {
        match self {
            OutputFormat::Avif => "avif"@,
            OutputFormat::Jpeg => "jpeg"@,
        }
    }

    /// The name of the format as it appears in a content type.
    pub fn name(&self) -> (text: &'static str)
        ensures
            text@ == self.tag(),
    {
        match self {
            OutputFormat::Avif => "avif",
            OutputFormat::Jpeg => "jpeg",
        }
    }
}

/// `n / d`, rounded to the nearest integer, halves upwards.
pub open spec fn rounded_quotient(n: nat, d: nat) -> nat
    recommends
        d > 0,
{
    (2 * n + d) / (2 * d)
}

/// The size a picture is scaled to: unchanged where it is no wider than
/// `max_width`, else `max_width` wide and as high as keeps the proportions,
/// to the nearest pixel.
pub open spec fn planned_dimensions(width: nat, height: nat, max_width: nat) -> (nat, nat) {
    if width <= max_width {
        (width, height)
    } else {
        (max_width, rounded_quotient(height * max_width, width))
    }
}

/// The rounded quotient as it comes out of a division with remainder.
proof fn lemma_rounded_quotient(n: nat, d: nat, whole: nat, rest: nat)
    requires
        d > 0,
        rest < d,
        n == whole * d + rest,
    ensures
        rounded_quotient(n, d) == if 2 * rest >= d {
            whole + 1
        } else {
            whole
        },
{
    let (q, r): (int, int) = if 2 * rest >= d {
        ((whole + 1) as int, 2 * rest - d)
    } else {
        (whole as int, (2 * rest + d) as int)
    };
    assert(2 * n + d == q * (2 * d) + r) by (nonlinear_arith)
        requires
            n == whole * d + rest,
            (q == whole + 1 && r == 2 * rest - d) || (q == whole && r == 2 * rest + d),
    ;
    lemma_fundamental_div_mod_converse((2 * n + d) as int, (2 * d) as int, q, r);
}

/// A scaled height never exceeds the height it was scaled from.
proof fn lemma_scaled_height_bounded(width: nat, height: nat, max_width: nat)
    requires
        max_width < width,
    ensures
        rounded_quotient(height * max_width, width) <= height,
{
    let n = height * max_width;
    assert(2 * n + width < (height + 1) * (2 * width)) by (nonlinear_arith)
        requires
            n == height * max_width,
            max_width < width,
    ;
    let q = (2 * n + width) / (2 * width);
    vstd::arithmetic::div_mod::lemma_fundamental_div_mod((2 * n + width) as int, (2 * width) as int);
    vstd::arithmetic::div_mod::lemma_mod_bound((2 * n + width) as int, (2 * width) as int);
    assert(q <= height) by (nonlinear_arith)
        requires
            2 * n + width < (height + 1) * (2 * width),
            2 * n + width == (2 * width) * q + ((2 * n + width) % (2 * width)),
            0 <= (2 * n + width) % (2 * width),
            width > 0,
    ;
}

/// Computes the size a picture of `width` by `height` pixels is scaled to.
pub fn calculate_dimensions(width: u32, height: u32, max_width: u32) -> (r: (u32, u32))
    ensures
        (r.0 as nat, r.1 as nat) == planned_dimensions(
            width as nat,
            height as nat,
            max_width as nat,
        ),
{
    if width <= max_width {
        return (width, height);
    }
    assert(height * max_width <= 0xFFFF_FFFF * 0xFFFF_FFFF) by (nonlinear_arith)
        requires
            height <= 0xFFFF_FFFF,
            max_width <= 0xFFFF_FFFF,
    ;
    let product: u64 = (height as u64) * (max_width as u64);
    let divisor: u64 = width as u64;
    let whole: u64 = product / divisor;
    let rest: u64 = product % divisor;
    proof {
        vstd::arithmetic::div_mod::lemma_fundamental_div_mod(product as int, divisor as int);
        assert(product == whole * divisor + rest) by (nonlinear_arith)
            requires
                product == divisor * whole + rest,
        ;
        lemma_rounded_quotient(product as nat, divisor as nat, whole as nat, rest as nat);
        lemma_scaled_height_bounded(width as nat, height as nat, max_width as nat);
    }
    let scaled: u64 = if rest >= divisor - rest {
        whole + 1
    } else {
        whole
    };
    (max_width, scaled as u32)
}

/// Scaling leaves a picture that fits alone, and otherwise makes it exactly
/// `max_width` wide and keeps the proportions to within half a pixel of
/// height.
pub proof fn lemma_plan_keeps_proportions(width: nat, height: nat, max_width: nat)
    ensures
        width <= max_width ==> planned_dimensions(width, height, max_width) == (width, height),
        width > max_width ==> {
            let plan = planned_dimensions(width, height, max_width);
            &&& plan.0 == max_width
            &&& plan.1 <= height
            &&& -(width as int) <= 2 * (plan.1 * width - height * max_width) <= width
        },
{
    if width > max_width {
        let n = height * max_width;
        let q = (2 * n + width) / (2 * width);
        let r = (2 * n + width) % (2 * width);
        vstd::arithmetic::div_mod::lemma_fundamental_div_mod(
            (2 * n + width) as int,
            (2 * width) as int,
        );
        vstd::arithmetic::div_mod::lemma_mod_bound((2 * n + width) as int, (2 * width) as int);
        lemma_scaled_height_bounded(width, height, max_width);
        assert(2 * (q * width - n) == width - r) by (nonlinear_arith)
            requires
                2 * n + width == (2 * width) * q + r,
        ;
    }
}

/// Scaling a scaled picture again, to its own width, changes nothing.
pub proof fn lemma_plan_idempotent(width: nat, height: nat, max_width: nat)
    ensures
        ({
            let plan = planned_dimensions(width, height, max_width);
            planned_dimensions(plan.0, plan.1, plan.0) == plan
        }),
{
}

/// AVIF where it is asked for and the picture is short enough for both
/// codecs, JPEG otherwise.
pub open spec fn chosen_format(use_avif: bool, height: nat, config: Config) -> OutputFormat {
    if use_avif && height <= config.max_jpeg_height && height <= config.max_avif_height {
        OutputFormat::Avif
    } else {
        OutputFormat::Jpeg
    }
}

/// Picks the output format for a picture of the given scaled height.
pub fn select_format(use_avif: bool, calculated_height: u32, config: &Config) -> (format:
    OutputFormat)
    ensures
        format == chosen_format(use_avif, calculated_height as nat, *config),
{
    if calculated_height > config.max_jpeg_height {
        return OutputFormat::Jpeg;
    }
    if use_avif && calculated_height > config.max_avif_height {
        return OutputFormat::Jpeg;
    }
    if use_avif {
        OutputFormat::Avif
    } else {
        OutputFormat::Jpeg
    }
}

/// The quality handed to the encoder: the requested one, clamped into the
/// grayscale band where the picture is desaturated.
pub open spec fn adjusted_quality(quality: u8, grayscale: bool, config: Config) -> u8 {
    if !grayscale {
        quality
    } else if quality < config.grayscale_quality_range.0 {
        config.grayscale_quality_range.0
    } else if quality > config.grayscale_quality_range.1 {
        config.grayscale_quality_range.1
    } else {
        quality
    }
}

/// Computes the quality handed to the encoder.
pub fn effective_quality(quality: u8, grayscale: bool, config: &Config) -> (q: u8)
    requires
        config.grayscale_quality_range.0 <= config.grayscale_quality_range.1,
    ensures
        q == adjusted_quality(quality, grayscale, *config),
        grayscale ==> config.grayscale_quality_range.0 <= q <= config.grayscale_quality_range.1,
{
    if !grayscale {
        quality
    } else if quality < config.grayscale_quality_range.0 {
        config.grayscale_quality_range.0
    } else if quality > config.grayscale_quality_range.1 {
        config.grayscale_quality_range.1
    } else {
        quality
    }
}

/// The result holds the original bytes and claims no saving.
pub open spec fn kept_original(r: CompressionResult, source: Seq<u8>) -> bool {
    &&& r.data@ == source
    &&& r.format@ == "original"@
    &&& r.bytes_saved == 0
}

/// The result holds a picture in `format` that is no longer than
/// `original_size` bytes, and states the saving.
pub open spec fn holds_encoding(r: CompressionResult, format: OutputFormat, original_size: u64) -> bool {
    &&& r.format@ == format.tag()
    &&& r.data@.len() <= original_size
    &&& r.bytes_saved == original_size - r.data@.len()
}

/// Decides between an encoded picture and the original: the encoding is kept
/// unless it is strictly longer than `original_size`.
pub fn keep_if_smaller(
    encoded: Vec<u8>,
    format: OutputFormat,
    image_data: &[u8],
    original_size: u64,
) -> (r: CompressionResult)
    requires
        original_size <= i64::MAX,
    ensures
        encoded@.len() > original_size ==> kept_original(r, image_data@),
        encoded@.len() <= original_size ==> r.data@ == encoded@ && holds_encoding(
            r,
            format,
            original_size,
        ),
        image_data@.len() <= original_size ==> r.data@.len() <= original_size,
{
    let compressed_size: u64 = encoded.len() as u64;
    if compressed_size > original_size {
        return CompressionResult {
            data: slice_to_vec(image_data),
            format: "original".to_owned(),
            bytes_saved: 0,
        };
    }
    CompressionResult {
        data: encoded,
        format: format.name().to_owned(),
        bytes_saved: (original_size - compressed_size) as i64,
    }
}

/// Whether `res` hands on what an encoder gave: the same bytes, or an
/// `ImageError` with the encoder's message.
pub open spec fn carries_encoding(
    res: Result<Vec<u8>, CompressionError>,
    encoded: Result<Seq<u8>, Seq<char>>,
) -> bool {
    match encoded {
        Ok(bytes) => res matches Ok(data) && data@ == bytes,
        Err(message) => res matches Err(CompressionError::ImageError(detail)) && detail@
            == message,
    }
}

/// Whether `res` is the refusal of a picture as an `ImageError` with this
/// message.
pub open spec fn refused_with(res: Result<Vec<u8>, CompressionError>, message: Seq<char>) -> bool {
    res matches Err(CompressionError::ImageError(detail)) && detail@ == message
}

/// What an encoder handed back, as text and bytes.
pub open spec fn encoder_outcome(encoded: Result<Vec<u8>, String>) -> Result<Seq<u8>, Seq<char>> {
    match encoded {
        Ok(bytes) => Ok(bytes@),
        Err(message) => Err(message@),
    }
}

/// Hands on what an encoder gave: its bytes, or its message as an
/// `ImageError`.
pub fn encoding_outcome(encoded: Result<Vec<u8>, String>) -> (res: Result<
    Vec<u8>,
    CompressionError,
>)
    ensures
        carries_encoding(res, encoder_outcome(encoded)),
{
    match encoded {
        Ok(bytes) => Ok(bytes),
        Err(detail) => Err(CompressionError::ImageError(detail)),
    }
}

/// Encodes a picture as JPEG, desaturated first where `grayscale` is set.
/// The result is what the JPEG encoder makes of the picture at this quality;
/// of the desaturated picture, which has the same dimensions, where
/// `grayscale` is set. Every refusal of the encoder comes back as an
/// `ImageError` with the encoder's message.
fn compress_jpeg(img: &image::DynamicImage, quality: u8, grayscale: bool) -> (res: Result<
    Vec<u8>,
    CompressionError,
>)
    ensures
        res matches Err(e) ==> e is ImageError,
        !grayscale ==> carries_encoding(res, jpeg_encoding(*img, quality)),
        grayscale ==> exists|shaded: image::DynamicImage|
            #![auto]
            image_extent(shaded) == image_extent(*img) && carries_encoding(
                res,
                jpeg_encoding(shaded, quality),
            ),
{
    if grayscale {
        let shaded = desaturate(img);
        let res = encoding_outcome(jpeg_bytes(&shaded, quality));
        assert(image_extent(shaded) == image_extent(*img) && carries_encoding(
            res,
            jpeg_encoding(shaded, quality),
        ));
        res
    } else {
        encoding_outcome(jpeg_bytes(img, quality))
    }
}

/// The message with which AVIF refuses a quality outside 1..=100.
pub open spec fn avif_quality_refusal() -> Seq<char> {
    "AVIF quality must be within 1..=100"@
}

/// The message with which AVIF refuses a picture without width.
pub open spec fn avif_width_refusal() -> Seq<char> {
    "AVIF needs a picture with a width"@
}

/// Encodes a picture as AVIF, desaturated first where `grayscale` is set. A
/// quality outside 1..=100 is refused, and within that range a picture
/// without width, each with an `ImageError` of its own message; the encoder
/// is then not called. Any other picture goes to the encoder, and what comes
/// back is handed on, a refusal as an `ImageError`.
fn compress_avif(img: &image::DynamicImage, quality: u8, grayscale: bool) -> (res: Result<
    Vec<u8>,
    CompressionError,
>)
    requires
        4 * image_extent(*img).0 * image_extent(*img).1 <= isize::MAX,
    ensures
        res matches Err(e) ==> e is ImageError,
        !(1 <= quality <= 100) ==> refused_with(res, avif_quality_refusal()),
        1 <= quality <= 100 && image_extent(*img).0 == 0 ==> refused_with(
            res,
            avif_width_refusal(),
        ),
{
    if quality < 1 || quality > 100 {
        return Err(CompressionError::ImageError("AVIF quality must be within 1..=100".to_owned()));
    }
    let (width, _) = image_dimensions(img);
    if width == 0 {
        return Err(CompressionError::ImageError("AVIF needs a picture with a width".to_owned()));
    }
    if grayscale {
        let shaded = desaturate(img);
        encoding_outcome(avif_bytes(&shaded, quality))
    } else {
        encoding_outcome(avif_bytes(img, quality))
    }
}

/// What a transcode of `source` may return. Bytes that do not decode give an
/// `ImageError`. Bytes that decode give an `ImageError` where scaling or
/// encoding fails, and otherwise either the original, or a picture in the
/// format chosen for the scaled height that is no longer than `original_size`.
pub open spec fn transcode_outcome(
    res: Result<CompressionResult, CompressionError>,
    source: Seq<u8>,
    use_avif: bool,
    original_size: u64,
    config: Config,
) -> bool {
    match decoded_extent(source) {
        None => res is Err && res->Err_0 is ImageError,
        Some(extent) => match res {
            Err(e) => e is ImageError,
            Ok(r) => {
                let plan = planned_dimensions(extent.0, extent.1, config.max_width as nat);
                let format = chosen_format(use_avif && config.avif_encoder, plan.1, config);
                kept_original(r, source) || holds_encoding(r, format, original_size)
            },
        },
    }
}

/// Where the source is no longer than `original_size`, neither is what a
/// transcode returns; and what is returned as `original` is the source, with
/// no saving claimed.
pub proof fn lemma_output_never_longer(
    result: CompressionResult,
    source: Seq<u8>,
    use_avif: bool,
    original_size: u64,
    config: Config,
)
    requires
        transcode_outcome(Ok(result), source, use_avif, original_size, config),
        source.len() <= original_size,
    ensures
        result.data@.len() <= original_size,
        0 <= result.bytes_saved,
        result.format@ == "original"@ ==> result.data@ == source && result.bytes_saved == 0,
{
    reveal_strlit("original");
    reveal_strlit("avif");
    reveal_strlit("jpeg");
    assert("original"@.len() == 8 && "avif"@.len() == 4 && "jpeg"@.len() == 4);
}

/// Whether the buffers that resampling to `width` by `height` allocates, from
/// a picture `from_width` wide, can be addressed on this machine: each takes
/// up to sixteen bytes a pixel.
pub open spec fn resample_addressable(from_width: nat, width: nat, height: nat) -> bool {
    16 * from_width * height <= isize::MAX && 16 * width * height <= isize::MAX
}

/// The message with which a picture is refused whose resampling cannot be
/// addressed.
pub open spec fn resample_refusal() -> Seq<char> {
    "picture too large to resample"@
}

/// What a transcode owes for bytes that decode, by what is handed to the
/// encoder: a picture of the planned size, at the adjusted quality, for the
/// chosen format.
///
/// A picture whose resampling cannot be addressed is refused. AVIF refuses an
/// adjusted quality outside 1..=100, and within that range a planned width of
/// 0, without calling its encoder. For JPEG the result is made of what the
/// encoder returns for a picture of the planned size at the adjusted
/// quality: a refusal is handed on with its message, bytes longer than
/// `original_size` give the source back as `original`, and any other bytes
/// are the data, tagged `jpeg`, with the saving.
pub open spec fn transcode_owed(
    res: Result<CompressionResult, CompressionError>,
    source: Seq<u8>,
    use_avif: bool,
    grayscale: bool,
    quality: u8,
    original_size: u64,
    config: Config,
) -> bool {
    decoded_extent(source) matches Some(extent) ==> {
        let plan = planned_dimensions(extent.0, extent.1, config.max_width as nat);
        let format = chosen_format(use_avif && config.avif_encoder, plan.1, config);
        let q = adjusted_quality(quality, grayscale, config);
        let fits = resample_addressable(extent.0, plan.0, plan.1);
        &&& !fits ==> (res matches Err(CompressionError::ImageError(detail)) && detail@
            == resample_refusal())
        &&& fits && format is Avif && !(1 <= q <= 100) ==> (res matches Err(
            CompressionError::ImageError(detail),
        ) && detail@ == avif_quality_refusal())
        &&& fits && format is Avif && 1 <= q <= 100 && plan.0 == 0 ==> (res matches Err(
            CompressionError::ImageError(detail),
        ) && detail@ == avif_width_refusal())
        &&& fits && format is Jpeg ==> (exists|picture: image::DynamicImage|
            #![auto]
            image_extent(picture) == plan && match jpeg_encoding(picture, q) {
                Ok(bytes) => res matches Ok(r) && (bytes.len() > original_size ==> kept_original(
                    r,
                    source,
                )) && (bytes.len() <= original_size ==> r.data@ == bytes && holds_encoding(
                    r,
                    OutputFormat::Jpeg,
                    original_size,
                )),
                Err(message) => res matches Err(CompressionError::ImageError(detail)) && detail@
                    == message,
            })
    }
}

/// Checks that the buffers of a resampling can be addressed.
fn resample_fits(from_width: u32, width: u32, height: u32) -> (fits: bool)
    ensures
        fits == resample_addressable(from_width as nat, width as nat, height as nat),
{
    let limit: u64 = (isize::MAX as u64) / 16;
    assert(from_width * height <= 0xFFFF_FFFF * 0xFFFF_FFFF && width * height <= 0xFFFF_FFFF
        * 0xFFFF_FFFF) by (nonlinear_arith)
        requires
            from_width <= 0xFFFF_FFFF,
            width <= 0xFFFF_FFFF,
            height <= 0xFFFF_FFFF,
    ;
    let tall: u64 = (from_width as u64) * (height as u64);
    let flat: u64 = (width as u64) * (height as u64);
    assert(tall == from_width * height && flat == width * height);
    assert(16 * from_width * height == 16 * tall && 16 * width * height == 16 * flat)
        by (nonlinear_arith)
        requires
            tall == from_width * height,
            flat == width * height,
    ;
    tall <= limit && flat <= limit
}

/// Transcodes under the given limits: decodes `image_data`, scales it to the
/// planned size, encodes it in the chosen format at the effective quality,
/// and keeps the original where the encoding is longer than `original_size`.
pub fn compress_with(
    image_data: &[u8],
    use_avif: bool,
    grayscale: bool,
    quality: u8,
    original_size: u64,
    config: &Config,
) -> (res: Result<CompressionResult, CompressionError>)
    requires
        original_size <= i64::MAX,
        config.grayscale_quality_range.0 <= config.grayscale_quality_range.1,
    ensures
        transcode_outcome(res, image_data@, use_avif, original_size, *config),
        transcode_owed(res, image_data@, use_avif, grayscale, quality, original_size, *config),
        image_data@.len() <= original_size ==> (res matches Ok(r) ==> r.data@.len()
            <= original_size),
{
    let img = match decode_image(image_data) {
        Ok(img) => img,
        Err(detail) => {
            return Err(CompressionError::ImageError(detail));
        },
    };
    let (orig_width, orig_height) = image_dimensions(&img);
    let (new_width, new_height) = calculate_dimensions(orig_width, orig_height, config.max_width);
    if !resample_fits(orig_width, new_width, new_height) {
        return Err(
            CompressionError::ImageError("picture too large to resample".to_owned()),
        );
    }
    let resized = resize_image(&img, new_width, new_height);
    assert(4 * new_width * new_height <= 16 * new_width * new_height) by (nonlinear_arith);
    let output_format = select_format(use_avif && config.avif_encoder, new_height, config);
    let quality = effective_quality(quality, grayscale, config);
    let encoded = match output_format {
        OutputFormat::Avif => compress_avif(&resized, quality, grayscale),
        OutputFormat::Jpeg => compress_jpeg(&resized, quality, grayscale),
    };
    match encoded {
        Ok(bytes) => Ok(keep_if_smaller(bytes, output_format, image_data, original_size)),
        Err(e) => Err(e),
    }
}

/// Transcodes under the default limits.
pub fn compress(
    image_data: &[u8],
    use_avif: bool,
    grayscale: bool,
    quality: u8,
    original_size: u64,
) -> (res: Result<CompressionResult, CompressionError>)
    requires
        original_size <= i64::MAX,
    ensures
        transcode_outcome(res, image_data@, use_avif, original_size, default_config()),
        transcode_owed(
            res,
            image_data@,
            use_avif,
            grayscale,
            quality,
            original_size,
            default_config(),
        ),
        image_data@.len() <= original_size ==> (res matches Ok(r) ==> r.data@.len()
            <= original_size),
{
    let config = Config::default();
    compress_with(image_data, use_avif, grayscale, quality, original_size, &config)
}

} // verus!
