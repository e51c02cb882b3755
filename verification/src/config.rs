//! Resolution of the engine's connection settings: merging a loaded
//! configuration file with command-line overrides, and building the
//! authorization header value.

use vstd::prelude::*;

verus! {

/// Connection settings of the engine, fully resolved.
#[derive(Debug)]
pub struct WikiConfig {
    pub api_key: String,
    pub endpoint: String,
    pub http2: bool,
    pub https: bool,
}

/// Settings as a configuration file holds them: every field optional.
#[derive(Debug)]
pub struct WikcliConfig {
    pub api_key: Option<String>,
    pub endpoint: Option<String>,
    pub no_http2_prior_knowledge: Option<bool>,
    pub no_force_https: Option<bool>,
}

impl Default for WikcliConfig {
    /// An empty configuration: nothing set.
    fn default() -> (r: Self)
        ensures
            r.api_key matches Option::None,
            r.endpoint matches Option::None,
            r.no_http2_prior_knowledge matches Option::None,
            r.no_force_https matches Option::None,
    {
        WikcliConfig {
            api_key: Option::None,
            endpoint: Option::None,
            no_http2_prior_knowledge: Option::None,
            no_force_https: Option::None,
        }
    }
}

/// Command-line settings that override the configuration file.
#[derive(Debug)]
pub struct GlobalOpts {
    pub api_key: Option<String>,
    pub endpoint: Option<String>,
    pub no_http2_prior_knowledge: bool,
    pub no_force_https: bool,
}

/// A missing mandatory connection setting.
#[derive(Clone, Copy, Debug, PartialEq, Eq, Structural)]
pub enum ConfigError {
    /// No API key on the command line nor in the configuration file.
    MissingApiKey,
    /// No endpoint on the command line nor in the configuration file.
    MissingEndpoint,
}

impl ConfigError {
    /// A human-readable account of the missing setting.
    pub fn describe(&self) -> String {
        match self {
            ConfigError::MissingApiKey => "You must specify an API key via --api-key or config".to_owned(),
            ConfigError::MissingEndpoint => "You must specify an endpoint via --endpoint or config".to_owned(),
        }
    }
}

/// The first value that is set, if any.
pub open spec fn pick(first: Option<Seq<char>>, second: Option<Seq<char>>) -> Option<Seq<char>> {
    match first {
        Option::Some(v) => Option::Some(v),
        Option::None => second,
    }
}

/// Whether a transport feature is on: a configuration file that switches it
/// off wins; otherwise the command line decides, and the feature defaults
/// to on.
pub open spec fn feature_on(cfg_off: Option<bool>, cli_off: bool) -> bool {
    match cfg_off {
        Option::Some(true) => false,
        _ => !cli_off,
    }
}

/// Merges the configuration file with the command-line overrides: the
/// command line wins for the API key and the endpoint, either source can
/// switch a transport feature off, and a missing mandatory setting is an
/// error — the API key is checked first.
pub fn wiki_config(cfg: &WikcliConfig, globals: &GlobalOpts) -> (r: Result<WikiConfig, ConfigError>)
    ensures
        match r {
            Result::Ok(w) => {
                &&& pick(globals.api_key.deep_view(), cfg.api_key.deep_view()) == Option::Some(
                    w.api_key@,
                )
                &&& pick(globals.endpoint.deep_view(), cfg.endpoint.deep_view()) == Option::Some(
                    w.endpoint@,
                )
                &&& w.http2 == feature_on(
                    cfg.no_http2_prior_knowledge.deep_view(),
                    globals.no_http2_prior_knowledge,
                )
                &&& w.https == feature_on(cfg.no_force_https.deep_view(), globals.no_force_https)
            },
            Result::Err(e) => {
                ||| (e == ConfigError::MissingApiKey && pick(
                    globals.api_key.deep_view(),
                    cfg.api_key.deep_view(),
                ) matches Option::None)
                ||| {
                    &&& e == ConfigError::MissingEndpoint
                    &&& pick(
                        globals.api_key.deep_view(),
                        cfg.api_key.deep_view(),
                    ) matches Option::Some(_)
                    &&& pick(
                        globals.endpoint.deep_view(),
                        cfg.endpoint.deep_view(),
                    ) matches Option::None
                }
            },
        },
{
    let api_key: String = match (&globals.api_key, &cfg.api_key) {
        (Option::Some(k), _) => k.clone(),
        (_, Option::Some(k)) => k.clone(),
        (Option::None, Option::None) => {
            return Result::Err(ConfigError::MissingApiKey);
        },
    };
    let endpoint: String = match (&globals.endpoint, &cfg.endpoint) {
        (Option::Some(k), _) => k.clone(),
        (_, Option::Some(k)) => k.clone(),
        (Option::None, Option::None) => {
            return Result::Err(ConfigError::MissingEndpoint);
        },
    };
    let http2 = match cfg.no_http2_prior_knowledge {
        Option::Some(true) => false,
        _ => !globals.no_http2_prior_knowledge,
    };
    let https = match cfg.no_force_https {
        Option::Some(true) => false,
        _ => !globals.no_force_https,
    };
    Result::Ok(WikiConfig { api_key, endpoint, http2, https })
}

/// Builds the bearer value of the authorization header from the API key.
pub fn bearer_token(api_key: &str) -> (r: String)
    ensures
        r@ == "Bearer "@ + api_key@,
{
    String::from_str("Bearer ").concat(api_key)
}

} // verus!
