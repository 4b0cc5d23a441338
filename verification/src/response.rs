//! What is sent back to the client: an image with its headers, or an error.

use crate::string_map::{lemma_placed_distinct, map_of, StringMap};
use crate::text::{chars_of, decimal_digits, decimal_text};
use vstd::prelude::*;

verus! {

/// A set of headers: names with their values.
pub type HeaderSet = Map<Seq<char>, Seq<char>>;

/// The body of an error reply.
#[derive(Debug)]
pub struct ErrorResponse {
    /// What went wrong.
    pub error: String,
    /// The address of the image, where it is known.
    pub url: Option<String>,
}

/// A reply that carries an image.
#[derive(Debug)]
pub struct ImageResponse {
    /// The headers of the reply, names in lower case.
    pub headers: StringMap,
    /// The image.
    pub body: Vec<u8>,
}

/// The headers that keep every cache from storing a reply.
pub open spec fn no_cache_headers() -> HeaderSet {
    map![
        "content-encoding"@ => "identity"@,
        "cache-control"@ => "private, no-store, no-cache, must-revalidate, max-age=0"@,
        "pragma"@ => "no-cache"@,
        "expires"@ => "0"@,
        "vary"@ => "url, jpeg, grayscale, quality"@,
    ]
}

/// The headers that every reply carries: those that forbid caching, with
/// the custom ones, which win where both name a header.
pub open spec fn cache_headers(custom: Option<HeaderSet>) -> HeaderSet {
    match custom {
        Some(extra) => no_cache_headers().union_prefer_right(extra),
        None => no_cache_headers(),
    }
}

/// The headers of a custom set, where there is one.
pub open spec fn custom_set(custom: Option<StringMap>) -> Option<HeaderSet> {
    match custom {
        Some(extra) => Some(extra@),
        None => None,
    }
}

/// Builds the headers that every reply carries.
pub fn get_cache_headers(custom: Option<StringMap>) -> (headers: StringMap)
    ensures
        headers@ == cache_headers(custom_set(custom)),
{
    let mut headers = StringMap::new();
    assert(headers@ =~= Map::<Seq<char>, Seq<char>>::empty());
    headers.insert("content-encoding".to_owned(), "identity".to_owned());
    headers.insert(
        "cache-control".to_owned(),
        "private, no-store, no-cache, must-revalidate, max-age=0".to_owned(),
    );
    headers.insert("pragma".to_owned(), "no-cache".to_owned());
    headers.insert("expires".to_owned(), "0".to_owned());
    headers.insert("vary".to_owned(), "url, jpeg, grayscale, quality".to_owned());
    if let Some(extra) = custom {
        let entries = extra.entries();
        let ghost pairs = extra.pairs();
        let mut i: usize = 0;
        assert(no_cache_headers().union_prefer_right(map_of(pairs.take(0))) =~= no_cache_headers());
        while i < entries.len()
            invariant
                i <= entries.len(),
                pairs == crate::string_map::pair_views(entries@),
                crate::string_map::distinct_keys(pairs),
                headers@ == no_cache_headers().union_prefer_right(map_of(pairs.take(i as int))),
            decreases entries.len() - i,
        {
            proof {
                let seen = pairs.take(i as int);
                let pair = pairs[i as int];
                assert(crate::string_map::distinct_keys(seen));
                assert(!crate::string_map::has_key(seen, pair.0)) by {
                    if crate::string_map::has_key(seen, pair.0) {
                        let k = crate::string_map::key_index(seen, pair.0);
                        assert(pairs[k].0 == seen[k].0);
                    }
                }
                lemma_placed_distinct(seen, pair.0, pair.1);
                assert(crate::string_map::placed(seen, pair.0, pair.1) =~= pairs.take(i + 1));
                assert(no_cache_headers().union_prefer_right(map_of(seen)).insert(pair.0, pair.1)
                    =~= no_cache_headers().union_prefer_right(map_of(seen).insert(pair.0, pair.1)));
            }
            headers.insert(entries[i].0.clone(), entries[i].1.clone());
            i += 1;
        }
        assert(pairs.take(entries.len() as int) =~= pairs);
    }
    headers
}

/// Puts an error reply together.
pub fn create_error_response(status_code: u16, message: &str, url: Option<String>) -> (reply: (
    u16,
    ErrorResponse,
))
    ensures
        reply.0 == status_code,
        reply.1.error@ == message@,
        reply.1.url == url,
{
    (status_code, ErrorResponse { error: message.to_owned(), url })
}

/// Whether a character may stand in the value of a header: a tab, or
/// anything from the space on but the delete character.
pub open spec fn is_header_value_char(c: char) -> bool {
    c == '\t' || (' ' <= c && c != '\x7f')
}

/// Whether a text may be the value of a header.
pub open spec fn is_header_value(text: Seq<char>) -> bool {
    forall|i: int| 0 <= i < text.len() ==> is_header_value_char(#[trigger] text[i])
}

/// Checks that a text may be the value of a header.
pub fn check_header_value(text: &str) -> (valid: bool)
    ensures
        valid == is_header_value(text@),
{
    let chars = chars_of(text);
    let mut i: usize = 0;
    while i < chars.len()
        invariant
            i <= chars.len(),
            chars@ == text@,
            forall|k: int| 0 <= k < i ==> is_header_value_char(#[trigger] text@[k]),
        decreases chars.len() - i,
    {
        let c = chars[i];
        if !(c == '\t' || (' ' <= c && c != '\x7f')) {
            assert(!is_header_value_char(text@[i as int]));
            return false;
        }
        i += 1;
    }
    true
}

/// The content type that a reply declares: the given one where it may be
/// the value of a header, else `image/jpeg`.
pub open spec fn declared_type(content_type: Seq<char>) -> Seq<char> {
    if is_header_value(content_type) {
        content_type
    } else {
        "image/jpeg"@
    }
}

/// The headers of a reply that carries an image of `length` bytes.
pub open spec fn image_headers(
    content_type: Seq<char>,
    length: nat,
    custom: Option<HeaderSet>,
) -> HeaderSet {
    cache_headers(custom).insert("content-type"@, declared_type(content_type)).insert(
        "content-length"@,
        decimal_digits(length),
    )
}

/// Puts a reply with an image together.
pub fn create_image_response(
    buffer: Vec<u8>,
    content_type: &str,
    additional_headers: Option<StringMap>,
) -> (reply: ImageResponse)
    ensures
        reply.body@ == buffer@,
        reply.headers@ == image_headers(
            content_type@,
            buffer@.len(),
            custom_set(additional_headers),
        ),
{
    let mut headers = get_cache_headers(additional_headers);
    let declared = if check_header_value(content_type) {
        content_type
    } else {
        "image/jpeg"
    };
    headers.insert("content-type".to_owned(), declared.to_owned());
    headers.insert("content-length".to_owned(), decimal_text(buffer.len() as u64));
    ImageResponse { headers, body: buffer }
}

} // verus!
