//! The course of one request, around the upstream fetch: what is checked
//! before it, and what is made of its outcome.

use crate::bypass::{bypass_reason, should_bypass_compression};
use crate::compress::{
    compress_with, default_config_with, transcode_outcome, transcode_owed, CompressionError,
    CompressionResult, Config,
};
use crate::config::ServerConfig;
use crate::fetch::{FetchError, UpstreamFetchResult};
use crate::request::{
    is_set, names_image, parse_query_params, quality_of, CompressionParams, CompressionQuery,
};
use crate::response::{
    create_error_response, create_image_response, image_headers, is_header_value,
    no_cache_headers, ErrorResponse, HeaderSet, ImageResponse,
};
use crate::text::{decimal_digits, signed_decimal_digits, signed_decimal_text, trimmed};
use crate::urls::{clean_image_url, cleaned_url, generate_url_hash, url_hash};
use vstd::prelude::*;
use vstd::string::StringExecFns;

verus! {

/// A request that passed its checks and is ready for the fetch.
#[derive(Debug)]
pub struct PreparedRequest {
    /// What the request asks for.
    pub params: CompressionParams,
    /// The address of the image, in canonical form.
    pub image_url: String,
    /// The identifier of that address.
    pub url_hash: String,
}

/// Whether `reply` is the error reply with this status, message and address.
pub open spec fn is_rejection(
    reply: (u16, ErrorResponse),
    status: u16,
    message: Seq<char>,
    url: Option<Seq<char>>,
) -> bool {
    &&& reply.0 == status
    &&& reply.1.error@ == message
    &&& match reply.1.url {
        Some(shown) => url == Some(shown@),
        None => url is None,
    }
}

/// Checks a query before anything is fetched. A query without an address is
/// answered with status 400 and `Missing query parameters`; one whose
/// address is not well-formed with status 400 and `Invalid URL`. Otherwise
/// the request goes on with the canonical address and its identifier.
pub fn prepare_request(query: &CompressionQuery) -> (r: Result<
    PreparedRequest,
    (u16, ErrorResponse),
>)
    ensures
        match r {
            Ok(request) => {
                &&& names_image(*query)
                &&& cleaned_url(trimmed(query.url->0@)) == Some(request.image_url@)
                &&& request.url_hash@ == url_hash(request.image_url@)
                &&& request.params.image_url@ == trimmed(query.url->0@)
                &&& request.params.wants_jpeg == is_set(query.jpeg)
                &&& request.params.is_grayscale == is_set(query.bw)
                &&& request.params.quality == quality_of(query.l)
            },
            Err(reply) => if !names_image(*query) {
                is_rejection(reply, 400, "Missing query parameters"@, None)
            } else {
                cleaned_url(trimmed(query.url->0@)) is None && is_rejection(
                    reply,
                    400,
                    "Invalid URL"@,
                    None,
                )
            },
        },
{
    let params = match parse_query_params(query) {
        Ok(params) => params,
        Err(message) => {
            return Err(create_error_response(400, message.as_str(), None));
        },
    };
    let image_url = match clean_image_url(params.image_url.as_str()) {
        Ok(address) => address,
        Err(message) => {
            return Err(create_error_response(400, message.as_str(), None));
        },
    };
    let url_hash = generate_url_hash(image_url.as_str());
    Ok(PreparedRequest { params, image_url, url_hash })
}

/// The headers of a reply that passes the upstream image on untouched.
pub open spec fn bypass_headers(
    content_type: Seq<char>,
    length: nat,
    reason: Seq<char>,
    url_hash: Seq<char>,
) -> HeaderSet {
    image_headers(content_type, length, None).insert("x-bypass-reason"@, reason).insert(
        "x-url-hash"@,
        url_hash,
    )
}

/// Puts together the reply that passes the upstream image on untouched.
pub fn bypass_response(data: Vec<u8>, content_type: &str, reason: &str, url_hash: &str) -> (reply:
    ImageResponse)
    ensures
        reply.body@ == data@,
        reply.headers@ == bypass_headers(content_type@, data@.len(), reason@, url_hash@),
{
    let mut reply = create_image_response(data, content_type, None);
    reply.headers.insert("x-bypass-reason".to_owned(), reason.to_owned());
    reply.headers.insert("x-url-hash".to_owned(), url_hash.to_owned());
    reply
}

/// The headers of a reply that carries a transcoded image.
pub open spec fn transcoded_headers(
    format: Seq<char>,
    length: nat,
    bytes_saved: int,
    url_hash: Seq<char>,
) -> HeaderSet {
    image_headers("image/"@ + format, length, None).insert(
        "x-compressed-by"@,
        "bandwidth-hero"@,
    ).insert("x-url-hash"@, url_hash).insert("x-bytes-saved"@, signed_decimal_digits(bytes_saved))
}

/// Whether `reply` is what is made of the outcome of a transcode: the image
/// with its headers, or status 500 and `Compression failed`.
pub open spec fn answers_transcode(
    reply: Result<ImageResponse, (u16, ErrorResponse)>,
    outcome: Result<CompressionResult, CompressionError>,
    image_url: Seq<char>,
    url_hash: Seq<char>,
) -> bool {
    match outcome {
        Ok(result) => reply matches Ok(sent) && sent.body@ == result.data@ && sent.headers@
            == transcoded_headers(
            result.format@,
            result.data@.len(),
            result.bytes_saved as int,
            url_hash,
        ),
        Err(_) => reply matches Err(refusal) && is_rejection(
            refusal,
            500,
            "Compression failed"@,
            Some(image_url),
        ),
    }
}

/// Makes the reply out of the outcome of a transcode.
pub fn transcoded_response(
    outcome: Result<CompressionResult, CompressionError>,
    image_url: &str,
    url_hash: &str,
) -> (reply: Result<ImageResponse, (u16, ErrorResponse)>)
    ensures
        answers_transcode(reply, outcome, image_url@, url_hash@),
{
    match outcome {
        Ok(result) => {
            let content_type = "image/".to_owned().concat(result.format.as_str());
            let bytes_saved = signed_decimal_text(result.bytes_saved);
            let mut sent = create_image_response(result.data, content_type.as_str(), None);
            sent.headers.insert("x-compressed-by".to_owned(), "bandwidth-hero".to_owned());
            sent.headers.insert("x-url-hash".to_owned(), url_hash.to_owned());
            sent.headers.insert("x-bytes-saved".to_owned(), bytes_saved);
            Ok(sent)
        },
        Err(_) => Err(
            create_error_response(500, "Compression failed", Some(image_url.to_owned())),
        ),
    }
}

/// What a request is served with.
#[derive(Debug)]
pub enum Served {
    /// The upstream image as it came, and why it was not transcoded.
    Bypassed { data: Vec<u8>, content_type: String, reason: &'static str },
    /// The outcome of the transcode.
    Transcoded(CompressionResult),
}

/// Why a request is served with nothing.
#[derive(Debug)]
pub enum Refused {
    /// The fetch gave no response.
    FetchFailed(FetchError),
    /// The upstream server answered with this status, outside 200..300.
    UpstreamStatus(u16),
    /// The image could not be transcoded.
    CodecFailed(CompressionError),
}

/// Whether `outcome` is what becomes of a request whose fetch ended as
/// `fetched`.
///
/// A fetch that failed is refused with its error, and a status outside
/// 200..300 with that status. An image that is bypassed is passed on byte
/// for byte, with the reason. Any other image is transcoded for the format
/// family the client accepts, under the default limits, as grayscale and at
/// the quality the request asks for: the outcome is one that the transcode
/// allows and meets what it owes, and what it serves is never longer than
/// the upstream image.
pub open spec fn settles(
    outcome: Result<Served, Refused>,
    request: PreparedRequest,
    fetched: Result<UpstreamFetchResult, FetchError>,
    config: ServerConfig,
) -> bool {
    match fetched {
        Err(error) => outcome == Err::<Served, Refused>(Refused::FetchFailed(error)),
        Ok(image) => if !(200 <= image.status < 300) {
            outcome == Err::<Served, Refused>(Refused::UpstreamStatus(image.status))
        } else {
            match bypass_reason(
                image.data@.len() as u64,
                image.content_type@,
                !request.params.wants_jpeg,
                config.bypass_threshold,
            ) {
                Some(why) => outcome matches Ok(Served::Bypassed { data, content_type, reason })
                    && data@ == image.data@ && content_type@ == image.content_type@ && reason@
                    == why,
                None => match outcome {
                    Ok(Served::Transcoded(result)) => {
                        &&& transcode_outcome(
                            Ok(result),
                            image.data@,
                            !request.params.wants_jpeg,
                            image.data@.len() as u64,
                            default_config_with(config.avif_encoder),
                        )
                        &&& transcode_owed(
                            Ok(result),
                            image.data@,
                            !request.params.wants_jpeg,
                            request.params.is_grayscale,
                            request.params.quality,
                            image.data@.len() as u64,
                            default_config_with(config.avif_encoder),
                        )
                        &&& result.data@.len() <= image.data@.len()
                    },
                    Err(Refused::CodecFailed(error)) => {
                        &&& transcode_outcome(
                            Err(error),
                            image.data@,
                            !request.params.wants_jpeg,
                            image.data@.len() as u64,
                            default_config_with(config.avif_encoder),
                        )
                        &&& transcode_owed(
                            Err(error),
                            image.data@,
                            !request.params.wants_jpeg,
                            request.params.is_grayscale,
                            request.params.quality,
                            image.data@.len() as u64,
                            default_config_with(config.avif_encoder),
                        )
                    },
                    _ => false,
                },
            }
        },
    }
}

/// Decides what a request is served with, once its fetch has ended: checks
/// the status, then whether the image is bypassed, and transcodes it
/// otherwise.
pub fn process_fetched(
    request: &PreparedRequest,
    fetched: Result<UpstreamFetchResult, FetchError>,
    config: &ServerConfig,
) -> (outcome: Result<Served, Refused>)
    ensures
        settles(outcome, *request, fetched, *config),
{
    let image = match fetched {
        Ok(image) => image,
        Err(error) => {
            return Err(Refused::FetchFailed(error));
        },
    };
    if image.status < 200 || image.status >= 300 {
        return Err(Refused::UpstreamStatus(image.status));
    }
    let content_length: u64 = image.data.len() as u64;
    let wants_avif = !request.params.wants_jpeg;
    if let Some(reason) = should_bypass_compression(
        content_length,
        image.content_type.as_str(),
        wants_avif,
        config,
    ) {
        return Ok(
            Served::Bypassed { data: image.data, content_type: image.content_type, reason },
        );
    }
    let mut limits = Config::default();
    limits.avif_encoder = config.avif_encoder;
    match compress_with(
        image.data.as_slice(),
        wants_avif,
        request.params.is_grayscale,
        request.params.quality,
        content_length,
        &limits,
    ) {
        Ok(result) => Ok(Served::Transcoded(result)),
        Err(error) => Err(Refused::CodecFailed(error)),
    }
}

/// Whether `reply` is the reply to `outcome`: the image with its headers, or
/// status 502 with `Failed to fetch image` or `Upstream fetch failed`, or
/// status 500 with `Compression failed`.
pub open spec fn replies_to(
    reply: Result<ImageResponse, (u16, ErrorResponse)>,
    outcome: Result<Served, Refused>,
    image_url: Seq<char>,
    url_hash: Seq<char>,
) -> bool {
    match outcome {
        Ok(Served::Bypassed { data, content_type, reason }) => reply matches Ok(sent) && sent.body@
            == data@ && sent.headers@ == bypass_headers(
            content_type@,
            data@.len(),
            reason@,
            url_hash,
        ),
        Ok(Served::Transcoded(result)) => answers_transcode(
            reply,
            Ok(result),
            image_url,
            url_hash,
        ),
        Err(Refused::FetchFailed(_)) => reply matches Err(refusal) && is_rejection(
            refusal,
            502,
            "Failed to fetch image"@,
            Some(image_url),
        ),
        Err(Refused::UpstreamStatus(_)) => reply matches Err(refusal) && is_rejection(
            refusal,
            502,
            "Upstream fetch failed"@,
            Some(image_url),
        ),
        Err(Refused::CodecFailed(error)) => answers_transcode(
            reply,
            Err(error),
            image_url,
            url_hash,
        ),
    }
}

/// Puts the reply to an outcome together.
pub fn reply_to(outcome: Result<Served, Refused>, image_url: &str, url_hash: &str) -> (reply:
    Result<ImageResponse, (u16, ErrorResponse)>)
    ensures
        replies_to(reply, outcome, image_url@, url_hash@),
{
    match outcome {
        Ok(Served::Bypassed { data, content_type, reason }) => Ok(
            bypass_response(data, content_type.as_str(), reason, url_hash),
        ),
        Ok(Served::Transcoded(result)) => transcoded_response(Ok(result), image_url, url_hash),
        Err(Refused::FetchFailed(_)) => Err(
            create_error_response(502, "Failed to fetch image", Some(image_url.to_owned())),
        ),
        Err(Refused::UpstreamStatus(_)) => Err(
            create_error_response(502, "Upstream fetch failed", Some(image_url.to_owned())),
        ),
        Err(Refused::CodecFailed(error)) => transcoded_response(Err(error), image_url, url_hash),
    }
}

/// Whether `reply` answers a request whose fetch ended as `fetched`: it is
/// the reply to an outcome that settles the request.
pub open spec fn answers_fetch(
    reply: Result<ImageResponse, (u16, ErrorResponse)>,
    request: PreparedRequest,
    fetched: Result<UpstreamFetchResult, FetchError>,
    config: ServerConfig,
) -> bool {
    exists|outcome: Result<Served, Refused>|
        #![auto]
        settles(outcome, request, fetched, config) && replies_to(
            reply,
            outcome,
            request.image_url@,
            request.url_hash@,
        )
}

/// Makes the reply to a request out of the outcome of its fetch.
pub fn handle_fetched(
    request: &PreparedRequest,
    fetched: Result<UpstreamFetchResult, FetchError>,
    config: &ServerConfig,
) -> (reply: Result<ImageResponse, (u16, ErrorResponse)>)
    ensures
        answers_fetch(reply, *request, fetched, *config),
{
    let outcome = process_fetched(request, fetched, config);
    reply_to(outcome, request.image_url.as_str(), request.url_hash.as_str())
}

/// A fetched image shorter than the bypass threshold is answered with the
/// very bytes that came from upstream and the reason `already_small`.
pub proof fn lemma_small_image_passed_on(
    reply: Result<ImageResponse, (u16, ErrorResponse)>,
    request: PreparedRequest,
    image: UpstreamFetchResult,
    config: ServerConfig,
)
    requires
        answers_fetch(reply, request, Ok(image), config),
        200 <= image.status < 300,
        image.data@.len() < config.bypass_threshold,
    ensures
        reply matches Ok(sent) && sent.body@ == image.data@ && sent.headers@ == bypass_headers(
            image.content_type@,
            image.data@.len(),
            "already_small"@,
            request.url_hash@,
        ),
{
}

/// A reply that carries an image never carries more bytes than came from
/// upstream.
pub proof fn lemma_reply_never_longer(
    reply: Result<ImageResponse, (u16, ErrorResponse)>,
    request: PreparedRequest,
    image: UpstreamFetchResult,
    config: ServerConfig,
)
    requires
        answers_fetch(reply, request, Ok(image), config),
    ensures
        reply matches Ok(sent) ==> sent.body@.len() <= image.data@.len(),
{
}

/// A reply that carries a transcoded image names what compressed it and the
/// identifier of the address, gives no reason for a bypass, and states as
/// its saving the length of the upstream image less its own, which is never
/// negative.
pub proof fn lemma_transcoded_reply_headers(
    reply: Result<ImageResponse, (u16, ErrorResponse)>,
    request: PreparedRequest,
    image: UpstreamFetchResult,
    config: ServerConfig,
)
    requires
        answers_fetch(reply, request, Ok(image), config),
        image.data@.len() <= usize::MAX,
        200 <= image.status < 300,
        bypass_reason(
            image.data@.len() as u64,
            image.content_type@,
            !request.params.wants_jpeg,
            config.bypass_threshold,
        ) is None,
        reply is Ok,
    ensures
        ({
            let sent = reply->Ok_0;
            &&& sent.body@.len() <= image.data@.len()
            &&& sent.headers@.contains_key("x-compressed-by"@)
            &&& sent.headers@["x-compressed-by"@] == "bandwidth-hero"@
            &&& sent.headers@.contains_key("x-url-hash"@)
            &&& sent.headers@["x-url-hash"@] == request.url_hash@
            &&& sent.headers@.contains_key("x-bytes-saved"@)
            &&& sent.headers@["x-bytes-saved"@] == decimal_digits(
                (image.data@.len() - sent.body@.len()) as nat,
            )
            &&& sent.headers@.contains_key("content-length"@)
            &&& sent.headers@["content-length"@] == decimal_digits(sent.body@.len())
            &&& !sent.headers@.contains_key("x-bypass-reason"@)
        }),
{
    let outcome = choose|outcome: Result<Served, Refused>|
        #![auto]
        settles(outcome, request, Ok(image), config) && replies_to(
            reply,
            outcome,
            request.image_url@,
            request.url_hash@,
        );
    assert(outcome matches Ok(Served::Transcoded(_)));
    let result = outcome->Ok_0->Transcoded_0;
    let sent = reply->Ok_0;
    lemma_header_names_differ();
    reveal_strlit("original");
    reveal_strlit("avif");
    reveal_strlit("jpeg");
    assert(result.bytes_saved == image.data@.len() - result.data@.len());
    assert(sent.body@ == result.data@);
    assert(sent.headers@ == transcoded_headers(
        result.format@,
        result.data@.len(),
        result.bytes_saved as int,
        request.url_hash@,
    ));
    assert(signed_decimal_digits(result.bytes_saved as int) == decimal_digits(
        (image.data@.len() - sent.body@.len()) as nat,
    ));
    assert(!no_cache_headers().contains_key("x-bypass-reason"@));
    assert(!sent.headers@.contains_key("x-bypass-reason"@));
}

/// A reply that carries a transcoded image shorter than the upstream one
/// declares it as JPEG where the client insists on JPEG or no AVIF encoder is
/// at hand, and as AVIF or JPEG otherwise.
pub proof fn lemma_transcoded_reply_type(
    reply: Result<ImageResponse, (u16, ErrorResponse)>,
    request: PreparedRequest,
    image: UpstreamFetchResult,
    config: ServerConfig,
)
    requires
        answers_fetch(reply, request, Ok(image), config),
        image.data@.len() <= usize::MAX,
        200 <= image.status < 300,
        bypass_reason(
            image.data@.len() as u64,
            image.content_type@,
            !request.params.wants_jpeg,
            config.bypass_threshold,
        ) is None,
        reply matches Ok(sent) && sent.body@.len() < image.data@.len(),
    ensures
        ({
            let declared = reply->Ok_0.headers@["content-type"@];
            &&& reply->Ok_0.headers@.contains_key("content-type"@)
            &&& declared == "image/jpeg"@ || declared == "image/avif"@
            &&& request.params.wants_jpeg || !config.avif_encoder ==> declared == "image/jpeg"@
        }),
{
    let outcome = choose|outcome: Result<Served, Refused>|
        #![auto]
        settles(outcome, request, Ok(image), config) && replies_to(
            reply,
            outcome,
            request.image_url@,
            request.url_hash@,
        );
    assert(outcome matches Ok(Served::Transcoded(_)));
    let result = outcome->Ok_0->Transcoded_0;
    let sent = reply->Ok_0;
    lemma_header_names_differ();
    reveal_strlit("image/");
    reveal_strlit("jpeg");
    reveal_strlit("avif");
    reveal_strlit("image/jpeg");
    reveal_strlit("image/avif");
    assert(sent.body@ == result.data@);
    assert(result.format@ == "jpeg"@ || result.format@ == "avif"@);
    assert("image/"@ + "jpeg"@ =~= "image/jpeg"@);
    assert("image/"@ + "avif"@ =~= "image/avif"@);
    assert(is_header_value("image/jpeg"@));
    assert(is_header_value("image/avif"@));
    assert(sent.headers@ == transcoded_headers(
        result.format@,
        result.data@.len(),
        result.bytes_saved as int,
        request.url_hash@,
    ));
}

/// The names of the headers of a reply are all different.
proof fn lemma_header_names_differ()
    ensures
        "x-bypass-reason"@ != "content-encoding"@,
        "x-bypass-reason"@ != "cache-control"@,
        "x-bypass-reason"@ != "pragma"@,
        "x-bypass-reason"@ != "expires"@,
        "x-bypass-reason"@ != "vary"@,
        "x-bypass-reason"@ != "content-type"@,
        "x-bypass-reason"@ != "content-length"@,
        "x-bypass-reason"@ != "x-compressed-by"@,
        "x-bypass-reason"@ != "x-url-hash"@,
        "x-bypass-reason"@ != "x-bytes-saved"@,
        "x-compressed-by"@ != "x-url-hash"@,
        "x-compressed-by"@ != "x-bytes-saved"@,
        "x-url-hash"@ != "x-bytes-saved"@,
        "content-length"@ != "x-compressed-by"@,
        "content-length"@ != "x-url-hash"@,
        "content-length"@ != "x-bytes-saved"@,
        "content-type"@ != "content-length"@,
        "content-type"@ != "x-compressed-by"@,
        "content-type"@ != "x-url-hash"@,
        "content-type"@ != "x-bytes-saved"@,
{
    reveal_strlit("x-bypass-reason");
    reveal_strlit("content-encoding");
    reveal_strlit("cache-control");
    reveal_strlit("pragma");
    reveal_strlit("expires");
    reveal_strlit("vary");
    reveal_strlit("content-type");
    reveal_strlit("content-length");
    reveal_strlit("x-compressed-by");
    reveal_strlit("x-url-hash");
    reveal_strlit("x-bytes-saved");
    assert("x-bypass-reason"@.len() == 15 && "content-encoding"@.len() == 16);
    assert("cache-control"@.len() == 13 && "pragma"@.len() == 6 && "expires"@.len() == 7);
    assert("vary"@.len() == 4 && "content-type"@.len() == 12 && "content-length"@.len() == 14);
    assert("x-compressed-by"@.len() == 15 && "x-url-hash"@.len() == 10);
    assert("x-bytes-saved"@.len() == 13);
    assert("x-bypass-reason"@[2] == 'b' && "x-compressed-by"@[2] == 'c');
}

} // verus!
