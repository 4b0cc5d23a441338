//! Whether a fetched image is passed on as it came.

use crate::config::ServerConfig;
use crate::should_compress::{
    compressible, default_config, should_compress, supported_image_type, Config,
};
use crate::text::{ascii_folded, starts_with};
use vstd::prelude::*;

verus! {

/// Why an image is passed on untouched, if it is. The first rule that
/// applies decides: shorter than `threshold` bytes; not worth transcoding by
/// type and size; not declared as an image.
pub open spec fn bypass_reason(
    content_length: u64,
    content_type: Seq<char>,
    wants_avif: bool,
    threshold: u64,
) -> Option<Seq<char>> {
    if content_length < threshold {
        Some("already_small"@)
    } else if !compressible(content_type, content_length, wants_avif, default_config()) {
        Some("criteria_not_met"@)
    } else if !"image/"@.is_prefix_of(content_type) {
        Some("non-image"@)
    } else {
        None
    }
}

/// Decides whether an image is passed on untouched, and why. `wants_avif`
/// says that the client did not insist on JPEG; PNG and GIF images are then
/// transcoded whatever their size above the general minimum.
pub fn should_bypass_compression(
    content_length: u64,
    content_type: &str,
    wants_avif: bool,
    config: &ServerConfig,
) -> (reason: Option<&'static str>)
    ensures
        match reason {
            Some(text) => bypass_reason(
                content_length,
                content_type@,
                wants_avif,
                config.bypass_threshold,
            ) == Some(text@),
            None => bypass_reason(
                content_length,
                content_type@,
                wants_avif,
                config.bypass_threshold,
            ) is None,
        },
{
    if content_length < config.bypass_threshold {
        return Some("already_small");
    }
    let compress_config = Config::default();
    if !should_compress(content_type, content_length, wants_avif, &compress_config) {
        return Some("criteria_not_met");
    }
    if !starts_with(content_type, "image/") {
        return Some("non-image");
    }
    None
}

/// An image shorter than the threshold is passed on as already small,
/// whatever its type.
pub proof fn lemma_small_image_bypassed(
    content_length: u64,
    content_type: Seq<char>,
    wants_avif: bool,
    threshold: u64,
)
    requires
        content_length < threshold,
    ensures
        bypass_reason(content_length, content_type, wants_avif, threshold) == Some(
            "already_small"@,
        ),
{
}

/// An SVG image that is not shorter than the threshold is passed on because
/// it does not meet the criteria, whatever its size.
pub proof fn lemma_svg_bypassed(content_length: u64, wants_avif: bool, threshold: u64)
    requires
        content_length >= threshold,
    ensures
        bypass_reason(content_length, "image/svg+xml"@, wants_avif, threshold) == Some(
            "criteria_not_met"@,
        ),
{
    reveal_strlit("image/svg+xml");
    reveal_strlit("image/jpeg");
    reveal_strlit("image/png");
    reveal_strlit("image/gif");
    reveal_strlit("image/webp");
    reveal_strlit("image/bmp");
    reveal_strlit("image/tiff");
    let svg = "image/svg+xml"@;
    assert(ascii_folded(svg).len() == 13);
    assert(ascii_folded("image/jpeg"@).len() == 10);
    assert(ascii_folded("image/png"@).len() == 9);
    assert(ascii_folded("image/gif"@).len() == 9);
    assert(ascii_folded("image/webp"@).len() == 10);
    assert(ascii_folded("image/bmp"@).len() == 9);
    assert(ascii_folded("image/tiff"@).len() == 10);
    assert(!supported_image_type(svg));
}

} // verus!
