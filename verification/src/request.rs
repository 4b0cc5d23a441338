//! The query of a request: which image, which format, which quality.

use crate::text::{parse_decimal, parsed_decimal, same_text, trim, trimmed};
use vstd::prelude::*;

verus! {

/// The query parameters as they arrive.
#[derive(Debug)]
pub struct CompressionQuery {
    /// The address of the image.
    pub url: Option<String>,
    /// `1` asks for JPEG in place of AVIF.
    pub jpeg: Option<String>,
    /// `1` asks for a grayscale image.
    pub bw: Option<String>,
    /// The quality, a number up to 255.
    pub l: Option<String>,
}

/// What a request asks for.
#[derive(Debug, Clone)]
pub struct CompressionParams {
    /// The address of the image, without white space around it.
    pub image_url: String,
    /// Whether the client insists on JPEG.
    pub wants_jpeg: bool,
    /// Whether the image is to be desaturated.
    pub is_grayscale: bool,
    /// The quality to encode at.
    pub quality: u8,
}

/// The quality used where the query names none that can be read.
pub open spec fn default_quality() -> u8 {
    40
}

/// Whether a parameter is present and is `1`.
pub open spec fn is_set(parameter: Option<String>) -> bool {
    parameter matches Some(text) && text@ == "1"@
}

/// The quality that a parameter asks for: the number it writes, where that
/// is at most 255, else the default.
pub open spec fn quality_of(parameter: Option<String>) -> u8 {
    match parameter {
        Some(text) => match parsed_decimal(text@, 255) {
            Some(n) => n as u8,
            None => default_quality(),
        },
        None => default_quality(),
    }
}

/// Whether a query names an image: its address is present and holds more
/// than white space.
pub open spec fn names_image(query: CompressionQuery) -> bool {
    query.url matches Some(url) && trimmed(url@).len() > 0
}

/// Whether a parameter is present and is `1`.
fn flag(parameter: &Option<String>) -> (set: bool)
    ensures
        set == is_set(*parameter),
{
    match parameter {
        Some(text) => same_text(text.as_str(), "1"),
        None => false,
    }
}

/// Reads the parameters of a request out of its query. A query without an
/// address is refused as `Missing query parameters`.
pub fn parse_query_params(params: &CompressionQuery) -> (r: Result<CompressionParams, String>)
    ensures
        match r {
            Ok(p) => {
                &&& names_image(*params)
                &&& p.image_url@ == trimmed(params.url->0@)
                &&& p.wants_jpeg == is_set(params.jpeg)
                &&& p.is_grayscale == is_set(params.bw)
                &&& p.quality == quality_of(params.l)
            },
            Err(message) => !names_image(*params) && message@ == "Missing query parameters"@,
        },
{
    if let Some(url) = &params.url {
        let address = trim(url.as_str());
        if !address.is_empty() {
            let quality: u8 = match &params.l {
                Some(text) => match parse_decimal(text.as_str(), 255) {
                    Some(n) => n as u8,
                    None => 40,
                },
                None => 40,
            };
            return Ok(
                CompressionParams {
                    image_url: address.to_owned(),
                    wants_jpeg: flag(&params.jpeg),
                    is_grayscale: flag(&params.bw),
                    quality,
                },
            );
        }
    }
    Err("Missing query parameters".to_owned())
}

} // verus!
