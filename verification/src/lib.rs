//! Decision logic of an image-compressing HTTP proxy: which upstream headers to
//! forward, whether a fetched image is worth transcoding, which size and format
//! to transcode it to, how an upstream fetch is retried, and what the reply
//! to the client holds.

pub mod bypass;
pub mod codec;
pub mod compress;
pub mod config;
pub mod fetch;
pub mod handler;
pub mod logger;
pub mod pick;
pub mod request;
pub mod response;
pub mod should_compress;
pub mod string_map;
pub mod text;
pub mod urls;
