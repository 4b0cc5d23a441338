//! The settings of the server, fixed when it starts.

use crate::pick::property_texts;
use crate::text::{parse_decimal, parsed_decimal};
use vstd::prelude::*;

verus! {

/// Settings that every request reads and none changes.
#[derive(Clone, Debug)]
pub struct ServerConfig {
    /// The port to listen on.
    pub port: u16,
    /// Images shorter than this many bytes are passed on untouched.
    pub bypass_threshold: u64,
    /// The request headers that are forwarded upstream, in lower case.
    pub fetch_headers_to_pick: Vec<&'static str>,
    /// How many upstream fetches may run at once.
    pub fetch_concurrency: usize,
    /// How many times one fetch may be attempted.
    pub fetch_attempts: u8,
    /// How long one attempt may take, in milliseconds.
    pub fetch_timeout_millis: u64,
    /// How long a fetch waits before its first attempt, in milliseconds.
    pub throttle_delay_millis: u64,
    /// Whether an AVIF encoder is at hand. Without one, images are
    /// transcoded to JPEG whatever the client accepts.
    pub avif_encoder: bool,
}

/// The port that is used where none is set.
pub open spec fn default_port() -> u16 {
    3000
}

/// The headers that are forwarded upstream by default.
pub open spec fn default_whitelist() -> Seq<Seq<char>> {
    seq!["cookie"@, "dnt"@, "referer"@, "user-agent"@, "accept"@, "accept-language"@]
}

impl ServerConfig {
    /// Whether the settings are the default ones, the port aside.
    pub open spec fn has_default_limits(&self) -> bool {
        &&& self.bypass_threshold == 10240
        &&& property_texts(self.fetch_headers_to_pick@) == default_whitelist()
        &&& self.fetch_concurrency == 10
        &&& self.fetch_attempts == 2
        &&& self.fetch_timeout_millis == 8000
        &&& self.throttle_delay_millis == 400
        &&& self.avif_encoder
    }

    /// The port that a setting asks for: the number it writes, where it
    /// writes one that a port can be, else the default.
    pub open spec fn port_of(setting: Option<Seq<char>>) -> u16 {
        match setting {
            Some(text) => match parsed_decimal(text, 65535) {
                Some(port) => port as u16,
                None => default_port(),
            },
            None => default_port(),
        }
    }

    /// The default settings, with the port taken from `setting` where that
    /// is a port number.
    pub fn with_port_setting(setting: Option<&str>) -> (c: ServerConfig)
        ensures
            c.has_default_limits(),
            c.port == Self::port_of(
                match setting {
                    Some(text) => Some(text@),
                    None => None,
                },
            ),
    {
        let port: u16 = match setting {
            Some(text) => match parse_decimal(text, 65535) {
                Some(port) => port as u16,
                None => 3000,
            },
            None => 3000,
        };
        let fetch_headers_to_pick = vec![
            "cookie",
            "dnt",
            "referer",
            "user-agent",
            "accept",
            "accept-language",
        ];
        assert(property_texts(fetch_headers_to_pick@) =~= default_whitelist());
        ServerConfig {
            port,
            bypass_threshold: 10240,
            fetch_headers_to_pick,
            fetch_concurrency: 10,
            fetch_attempts: 2,
            fetch_timeout_millis: 8000,
            throttle_delay_millis: 400,
            avif_encoder: true,
        }
    }
}

impl Default for ServerConfig {
    fn default() -> (c: ServerConfig)
        ensures
            c.has_default_limits(),
            c.port == default_port(),
    {
        ServerConfig::with_port_setting(None)
    }
}

} // verus!
