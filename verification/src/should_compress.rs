//! Whether an image is worth transcoding, by its type and size.

use crate::text::{ends_with, eq_ignore_ascii_case, same_ignoring_case};
use vstd::prelude::*;

verus! {

/// Size limits for the decision.
pub struct Config {
    /// Images shorter than this are never transcoded.
    pub min_compress_length: u64,
    /// PNG and GIF images shorter than this are transcoded only on request.
    pub min_transparent_compress_length: u64,
    /// Images longer than this are never transcoded.
    pub max_original_size: u64,
}

/// The limits that `Config::default` returns: 2 KiB, 100 KiB and 5 MiB.
pub open spec fn default_config() -> Config {
    Config {
        min_compress_length: 2048,
        min_transparent_compress_length: 102400,
        max_original_size: 5242880,
    }
}

impl Default for Config {
    fn default() -> (c: Config)
        ensures
            c == default_config(),
    {
        Config {
            min_compress_length: 2048,
            min_transparent_compress_length: 102400,
            max_original_size: 5 * 1024 * 1024,
        }
    }
}

/// Whether a MIME type names one of the six image formats that are
/// transcoded, ASCII case aside.
pub open spec fn supported_image_type(image_type: Seq<char>) -> bool {
    ||| same_ignoring_case(image_type, "image/jpeg"@)
    ||| same_ignoring_case(image_type, "image/png"@)
    ||| same_ignoring_case(image_type, "image/gif"@)
    ||| same_ignoring_case(image_type, "image/webp"@)
    ||| same_ignoring_case(image_type, "image/bmp"@)
    ||| same_ignoring_case(image_type, "image/tiff"@)
}

/// Whether a MIME type ends in `png` or `gif`, as written.
pub open spec fn is_lossless_type(image_type: Seq<char>) -> bool {
    "png"@.is_suffix_of(image_type) || "gif"@.is_suffix_of(image_type)
}

/// Whether an image of this type and size is transcoded: the type is one of
/// the supported ones, the size lies within the limits, and a PNG or GIF is
/// either asked for with transparency in mind or at least
/// `min_transparent_compress_length` long.
pub open spec fn compressible(
    image_type: Seq<char>,
    size: u64,
    is_transparent: bool,
    config: Config,
) -> bool {
    &&& image_type.len() > 0
    &&& config.min_compress_length <= size <= config.max_original_size
    &&& supported_image_type(image_type)
    &&& (is_transparent || !is_lossless_type(image_type) || size
        >= config.min_transparent_compress_length)
}

/// Decides whether an image of this type and size is transcoded.
pub fn should_compress(image_type: &str, size: u64, is_transparent: bool, config: &Config) -> (yes:
    bool)
    ensures
        yes == compressible(image_type@, size, is_transparent, *config),
{
    if image_type.is_empty() {
        return false;
    }
    if size > config.max_original_size || size < config.min_compress_length {
        return false;
    }
    if !is_supported_image_type(image_type) {
        return false;
    }
    if is_transparent {
        return size >= config.min_compress_length;
    }
    if ends_with(image_type, "png") || ends_with(image_type, "gif") {
        return size >= config.min_transparent_compress_length;
    }
    true
}

/// Checks a MIME type against the supported image formats.
pub fn is_supported_image_type(image_type: &str) -> (yes: bool)
    ensures
        yes == supported_image_type(image_type@),
{
    eq_ignore_ascii_case(image_type, "image/jpeg") || eq_ignore_ascii_case(image_type, "image/png")
        || eq_ignore_ascii_case(image_type, "image/gif") || eq_ignore_ascii_case(
        image_type,
        "image/webp",
    ) || eq_ignore_ascii_case(image_type, "image/bmp") || eq_ignore_ascii_case(
        image_type,
        "image/tiff",
    )
}

} // verus!
