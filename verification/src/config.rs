//! Process configuration: the media platform's address and API credentials.

use vstd::prelude::*;

verus! {

/// Where the media platform is reached and the credentials that sign access
/// tokens for it.
#[derive(Debug, Clone, PartialEq, Eq)]
pub struct Config {
    pub livekit_url: String,
    pub livekit_api_key: String,
    pub livekit_api_secret: String,
}

/// The address used when none is configured.
pub open spec fn default_livekit_url() -> Seq<char> {
    "ws://localhost:7880"@
}

/// The API key used when none is configured.
pub open spec fn default_livekit_api_key() -> Seq<char> {
    "devkey"@
}

/// The API secret used when none is configured.
pub open spec fn default_livekit_api_secret() -> Seq<char> {
    "secret"@
}

/// The text of a setting: the configured value, or the fallback when the
/// setting is absent.
pub open spec fn setting_or(given: Option<String>, fallback: Seq<char>) -> Seq<char> {
    match given {
        Some(value) => value@,
        None => fallback,
    }
}

/// Assembles the configuration from the three settings as found in the
/// environment. A setting that is absent takes its documented default; one
/// that is present is taken as it is, even when empty.
pub fn load_config(
    livekit_url: Option<String>,
    livekit_api_key: Option<String>,
    livekit_api_secret: Option<String>,
) -> (config: Config)
    ensures
        config.livekit_url@ == setting_or(livekit_url, default_livekit_url()),
        config.livekit_api_key@ == setting_or(livekit_api_key, default_livekit_api_key()),
        config.livekit_api_secret@ == setting_or(livekit_api_secret, default_livekit_api_secret()),
{
    Config {
        livekit_url: match livekit_url {
            Some(value) => value,
            None => "ws://localhost:7880".to_owned(),
        },
        livekit_api_key: match livekit_api_key {
            Some(value) => value,
            None => "devkey".to_owned(),
        },
        livekit_api_secret: match livekit_api_secret {
            Some(value) => value,
            None => "secret".to_owned(),
        },
    }
}

} // verus!
