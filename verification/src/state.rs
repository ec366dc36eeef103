//! Long-lived configuration and per-actor state: which wire shape content
//! takes, the retry policy, and the credentials and defaults loaded once at
//! initialization.

use vstd::prelude::*;
use vstd::string::StringExecFns;
use crate::retry::RetryConfig;

verus! {

/// How message content is placed on the wire.
#[derive(Clone, Copy, Debug, PartialEq, Eq, Structural)]
pub enum ContentFormat {
    /// Flatten content to a single string, for providers that reject
    /// structured content.
    Plain,
    /// Serialize content as a structured array of tagged items.
    Array,
}

impl Default for ContentFormat {
    /// The modern structured format.
    fn default() -> (fmt: Self)
        ensures
            fmt == ContentFormat::Array,
    {
        ContentFormat::Array
    }
}

/// Configuration of the proxy, loaded once at initialization.
#[derive(Debug, Clone, PartialEq, Eq)]
pub struct Config {
    /// The model used when the caller names none.
    pub default_model: String,
    /// Base URL of the API; `None` selects the vendor's own.
    pub base_url: Option<String>,
    /// Name of the environment variable holding the API key; `None` selects
    /// the default name.
    pub api_key_env: Option<String>,
    /// How message content is placed on the wire.
    pub content_format: ContentFormat,
    /// Bound on the optional cache, in items.
    pub max_cache_size: Option<usize>,
    /// Request timeout in milliseconds.
    pub timeout_ms: u32,
    /// Retry policy for failed requests.
    pub retry_config: RetryConfig,
}

/// The mathematical value of a [`Config`].
#[verifier::ext_equal]
pub struct ConfigView {
    pub default_model: Seq<char>,
    pub base_url: Option<Seq<char>>,
    pub api_key_env: Option<Seq<char>>,
    pub content_format: ContentFormat,
    pub max_cache_size: Option<usize>,
    pub timeout_ms: u32,
    pub retry_config: RetryConfig,
}

impl View for Config {
    type V = ConfigView;

    open spec fn view(&self) -> ConfigView {
        ConfigView {
            default_model: self.default_model@,
            base_url: self.base_url.deep_view(),
            api_key_env: self.api_key_env.deep_view(),
            content_format: self.content_format,
            max_cache_size: self.max_cache_size,
            timeout_ms: self.timeout_ms,
            retry_config: self.retry_config,
        }
    }
}

impl DeepView for Config {
    type V = ConfigView;

    open spec fn deep_view(&self) -> ConfigView {
        self.view()
    }
}

/// The stock configuration's value: `gpt-4o`, the vendor's own URL and key
/// variable, structured content, a small cache, a thirty-second timeout and
/// the stock retry policy.
pub open spec fn spec_default_config() -> ConfigView {
    ConfigView {
        default_model: "gpt-4o"@,
        base_url: None,
        api_key_env: None,
        content_format: ContentFormat::Array,
        max_cache_size: Some(100usize),
        timeout_ms: 30000,
        retry_config: RetryConfig {
            max_retries: 3,
            initial_delay_ms: 1000,
            max_delay_ms: 30000,
            backoff_multiplier_hundredths: 200,
            max_total_timeout_ms: 60000,
        },
    }
}

impl Default for Config {
    /// The stock configuration.
    fn default() -> (config: Self)
        ensures
            config@ == spec_default_config(),
    {
        Config {
            default_model: String::from_str("gpt-4o"),
            base_url: None,
            api_key_env: None,
            content_format: ContentFormat::Array,
            max_cache_size: Some(100),
            timeout_ms: 30000,
            retry_config: RetryConfig::default(),
        }
    }
}

/// The state of one proxy actor.
#[derive(Debug, Clone, PartialEq, Eq)]
pub struct State {
    /// Actor id.
    pub id: String,
    /// The API key read at initialization.
    pub api_key: String,
    /// The actor's configuration.
    pub config: Config,
    /// Store id, when a runtime store is in use.
    pub store_id: Option<String>,
}

/// The mathematical value of a [`State`].
#[verifier::ext_equal]
pub struct StateView {
    pub id: Seq<char>,
    pub api_key: Seq<char>,
    pub config: ConfigView,
    pub store_id: Option<Seq<char>>,
}

impl View for State {
    type V = StateView;

    open spec fn view(&self) -> StateView {
        StateView {
            id: self.id@,
            api_key: self.api_key@,
            config: self.config@,
            store_id: self.store_id.deep_view(),
        }
    }
}

impl DeepView for State {
    type V = StateView;

    open spec fn deep_view(&self) -> StateView {
        self.view()
    }
}

impl State {
    /// Assemble the actor state, falling back to the stock configuration
    /// when none is supplied.
    pub fn new(id: String, api_key: String, store_id: Option<String>, config: Option<Config>) -> (
        state: Self)
        ensures
            state@.id == id@,
            state@.api_key == api_key@,
            state@.store_id == store_id.deep_view(),
            state@.config == (match config {
                Some(c) => c@,
                None => spec_default_config(),
            }),
    {
        let config = match config {
            Some(c) => c,
            None => Config::default(),
        };
        State { id, api_key, config, store_id }
    }
}

} // verus!
