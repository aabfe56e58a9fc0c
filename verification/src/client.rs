//! The client's settings, its builder, and the request it sends upstream.

use vstd::prelude::*;
use vstd::string::*;
use crate::error::CacheError;
use crate::key::{join, joined, texts};
use crate::text::text_of;
use crate::time::DEFAULT_TTL_SECS;

verus! {

/// How the API key reaches the service.
#[derive(Debug, Clone, Copy, PartialEq, Eq, Structural)]
pub enum AuthMethod {
    /// The key is a segment of the URL.
    InUrl,
    /// The key travels in the `Authorization` header as a bearer token.
    BearerToken,
}

impl Default for AuthMethod {
    /// The bearer token, which keeps the key out of URLs.
    fn default() -> (m: Self)
        ensures
            m == AuthMethod::BearerToken,
    {
        AuthMethod::BearerToken
    }
}

/// Whether answers are cached, and for how long where nothing else decides.
#[derive(Debug, Clone, Copy, PartialEq, Eq, Structural)]
pub struct CacheConfig {
    /// Whether answers are cached at all.
    pub enabled: bool,
    /// The time to live, in seconds, of an answer that declares none.
    pub default_ttl: i64,
}

impl Default for CacheConfig {
    /// Caching enabled, with a time to live of 24 hours.
    fn default() -> (c: Self)
        ensures
            c == (CacheConfig { enabled: true, default_ttl: DEFAULT_TTL_SECS }),
    {
        CacheConfig { enabled: true, default_ttl: DEFAULT_TTL_SECS }
    }
}

/// What a failed transport says of itself.
#[derive(Debug, Clone)]
pub struct TransportFailure {
    /// The request timed out.
    pub is_timeout: bool,
    /// The connection could not be made.
    pub is_connect: bool,
    /// The transport's own words.
    pub text: String,
}

/// What a request to the service can fail with.
#[derive(Debug, Clone)]
pub enum ExchangeRateError {
    MissingApiKey,
    UnsupportedCode,
    MalformedRequest,
    InvalidKey,
    InactiveAccount,
    QuotaReached,
    /// The transport failed before an answer came.
    HttpClientError(TransportFailure),
    /// The service answered with this status, which is no success, and this status line.
    HttpError(u16, String),
    /// The answer could not be parsed.
    JsonError(String),
    /// The cache failed.
    CacheError(CacheError),
}

impl ExchangeRateError {
    /// The text of the error.
    pub open spec fn message_text(self) -> Seq<char> {
        match self {
            ExchangeRateError::MissingApiKey => "Missing API key"@,
            ExchangeRateError::UnsupportedCode => "Unsupported currency code"@,
            ExchangeRateError::MalformedRequest => "Malformed request"@,
            ExchangeRateError::InvalidKey => "Invalid API key"@,
            ExchangeRateError::InactiveAccount => "Inactive account"@,
            ExchangeRateError::QuotaReached => "API quota reached"@,
            ExchangeRateError::HttpClientError(f) => "HTTP client error: "@ + f.text@,
            ExchangeRateError::HttpError(_, line) => "HTTP error: "@ + line@,
            ExchangeRateError::JsonError(m) => "JSON parsing error: "@ + m@,
            ExchangeRateError::CacheError(e) => "Cache error: "@ + e.message_text(),
        }
    }

    /// The text of the error, for a reader.
    pub fn message(&self) -> (s: String)
        ensures
            s@ == self.message_text(),
    {
        match self {
            ExchangeRateError::MissingApiKey => String::from_str("Missing API key"),
            ExchangeRateError::UnsupportedCode => String::from_str("Unsupported currency code"),
            ExchangeRateError::MalformedRequest => String::from_str("Malformed request"),
            ExchangeRateError::InvalidKey => String::from_str("Invalid API key"),
            ExchangeRateError::InactiveAccount => String::from_str("Inactive account"),
            ExchangeRateError::QuotaReached => String::from_str("API quota reached"),
            ExchangeRateError::HttpClientError(f) => String::from_str("HTTP client error: ").concat(
                f.text.as_str(),
            ),
            ExchangeRateError::HttpError(_, line) => String::from_str("HTTP error: ").concat(
                line.as_str(),
            ),
            ExchangeRateError::JsonError(m) => String::from_str("JSON parsing error: ").concat(
                m.as_str(),
            ),
            ExchangeRateError::CacheError(e) => {
                let inner = e.message();
                String::from_str("Cache error: ").concat(inner.as_str())
            },
        }
    }
}

/// The text of the service's address when a client is given none.
pub open spec fn default_base_url() -> Seq<char> {
    "https://v6.exchangerate-api.com/v6"@
}

/// The URL of a request: the base, the key where it travels in the URL, the
/// endpoint, and the parameters, with a slash between each two.
pub open spec fn url_text(
    base_url: Seq<char>,
    api_key: Seq<char>,
    auth_method: AuthMethod,
    endpoint: Seq<char>,
    params: Seq<Seq<char>>,
) -> Seq<char> {
    match auth_method {
        AuthMethod::InUrl => base_url + "/"@ + api_key + "/"@ + endpoint + "/"@ + joined(
            params,
            "/"@,
        ),
        AuthMethod::BearerToken => base_url + "/"@ + endpoint + "/"@ + joined(params, "/"@),
    }
}

/// The `Authorization` header of a request: the bearer token, or none where
/// the key travels in the URL.
pub open spec fn authorization_text(auth_method: AuthMethod, api_key: Seq<char>) -> Option<
    Seq<char>,
> {
    match auth_method {
        AuthMethod::InUrl => None,
        AuthMethod::BearerToken => Some("Bearer "@ + api_key),
    }
}

/// A client of the service: its settings and, where it caches, its backend.
///
/// `B` is the backend. The transport is the caller's: the client says what to
/// send and what to do with each answer.
pub struct ExchangeRateClient<B> {
    pub api_key: String,
    pub base_url: String,
    pub auth_method: AuthMethod,
    /// The time in seconds after which a request is given up, if any.
    pub timeout: Option<u64>,
    /// The backend; none where caching is disabled or none was given.
    pub cache: Option<B>,
    pub cache_config: CacheConfig,
}

/// Collects the settings of an `ExchangeRateClient`.
pub struct ExchangeRateClientBuilder<B> {
    pub api_key: Option<String>,
    pub base_url: Option<String>,
    pub auth_method: AuthMethod,
    pub timeout: Option<u64>,
    pub cache: Option<B>,
    pub cache_config: CacheConfig,
}

impl<B> ExchangeRateClientBuilder<B> {
    /// A builder with the service's address, the bearer token, a timeout of
    /// 30 seconds, no key, no backend, and caching enabled for 24 hours.
    pub fn new() -> (b: Self)
        ensures
            b.api_key is None,
            text_of(b.base_url) == Some(default_base_url()),
            b.auth_method == AuthMethod::BearerToken,
            b.timeout == Some(30u64),
            b.cache is None,
            b.cache_config == (CacheConfig { enabled: true, default_ttl: DEFAULT_TTL_SECS }),
    {
        ExchangeRateClientBuilder {
            api_key: None,
            base_url: Some(String::from_str("https://v6.exchangerate-api.com/v6")),
            auth_method: AuthMethod::BearerToken,
            timeout: Some(30),
            cache: None,
            cache_config: CacheConfig::default(),
        }
    }

    /// Sets the API key.
    pub fn api_key(self, api_key: &str) -> (b: Self)
        ensures
            text_of(b.api_key) == Some(api_key@),
            b.base_url == self.base_url,
            b.auth_method == self.auth_method,
            b.timeout == self.timeout,
            b.cache == self.cache,
            b.cache_config == self.cache_config,
    {
        let mut b = self;
        b.api_key = Some(String::from_str(api_key));
        b
    }

    /// Sets how the key reaches the service.
    pub fn auth_method(self, auth_method: AuthMethod) -> (b: Self)
        ensures
            b.auth_method == auth_method,
            b.api_key == self.api_key,
            b.base_url == self.base_url,
            b.timeout == self.timeout,
            b.cache == self.cache,
            b.cache_config == self.cache_config,
    {
        let mut b = self;
        b.auth_method = auth_method;
        b
    }

    /// Sets the service's address.
    pub fn base_url(self, base_url: &str) -> (b: Self)
        ensures
            text_of(b.base_url) == Some(base_url@),
            b.api_key == self.api_key,
            b.auth_method == self.auth_method,
            b.timeout == self.timeout,
            b.cache == self.cache,
            b.cache_config == self.cache_config,
    {
        let mut b = self;
        b.base_url = Some(String::from_str(base_url));
        b
    }

    /// Sets the time in seconds after which a request is given up.
    pub fn timeout(self, seconds: u64) -> (b: Self)
        ensures
            b.timeout == Some(seconds),
            b.api_key == self.api_key,
            b.base_url == self.base_url,
            b.auth_method == self.auth_method,
            b.cache == self.cache,
            b.cache_config == self.cache_config,
    {
        let mut b = self;
        b.timeout = Some(seconds);
        b
    }

    /// Sets the backend.
    pub fn with_cache(self, cache: B) -> (b: Self)
        ensures
            b.cache == Some(cache),
            b.api_key == self.api_key,
            b.base_url == self.base_url,
            b.auth_method == self.auth_method,
            b.timeout == self.timeout,
            b.cache_config == self.cache_config,
    {
        let mut b = self;
        b.cache = Some(cache);
        b
    }

    /// Sets the cache configuration.
    pub fn cache_config(self, config: CacheConfig) -> (b: Self)
        ensures
            b.cache_config == config,
            b.api_key == self.api_key,
            b.base_url == self.base_url,
            b.auth_method == self.auth_method,
            b.timeout == self.timeout,
            b.cache == self.cache,
    {
        let mut b = self;
        b.cache_config = config;
        b
    }

    /// Disables caching; the time to live stays as it is.
    pub fn disable_cache(self) -> (b: Self)
        ensures
            b.cache_config == (CacheConfig {
                enabled: false,
                default_ttl: self.cache_config.default_ttl,
            }),
            b.api_key == self.api_key,
            b.base_url == self.base_url,
            b.auth_method == self.auth_method,
            b.timeout == self.timeout,
            b.cache == self.cache,
    {
        let mut b = self;
        b.cache_config.enabled = false;
        b
    }

    /// The client with the collected settings. Fails with `MissingApiKey`
    /// exactly where no key was set. A client with caching disabled has no
    /// backend; one without an address has the service's.
    pub fn build(self) -> (r: Result<ExchangeRateClient<B>, ExchangeRateError>)
        ensures
            match r {
                Ok(c) => {
                    &&& self.api_key == Some(c.api_key)
                    &&& c.base_url@ == (match self.base_url {
                        Some(u) => u@,
                        None => default_base_url(),
                    })
                    &&& c.auth_method == self.auth_method
                    &&& c.timeout == self.timeout
                    &&& c.cache == (if self.cache_config.enabled {
                        self.cache
                    } else {
                        None
                    })
                    &&& c.cache_config == self.cache_config
                },
                Err(e) => self.api_key is None && e is MissingApiKey,
            },
    {
        let api_key = match self.api_key {
            Some(k) => k,
            None => {
                return Err(ExchangeRateError::MissingApiKey);
            },
        };
        let cache = if self.cache_config.enabled {
            self.cache
        } else {
            None
        };
        let base_url = match self.base_url {
            Some(u) => u,
            None => String::from_str("https://v6.exchangerate-api.com/v6"),
        };
        Ok(
            ExchangeRateClient {
                api_key,
                base_url,
                auth_method: self.auth_method,
                timeout: self.timeout,
                cache,
                cache_config: self.cache_config,
            },
        )
    }
}

impl<B> ExchangeRateClient<B> {
    /// A builder with the default settings.
    pub fn builder() -> (b: ExchangeRateClientBuilder<B>)
        ensures
            b.api_key is None,
            text_of(b.base_url) == Some(default_base_url()),
            b.auth_method == AuthMethod::BearerToken,
            b.timeout == Some(30u64),
            b.cache is None,
            b.cache_config == (CacheConfig { enabled: true, default_ttl: DEFAULT_TTL_SECS }),
    {
        ExchangeRateClientBuilder::new()
    }

    /// The client reads and writes a cache: caching is enabled and a backend is there.
    pub open spec fn caches(&self) -> bool {
        self.cache_config.enabled && self.cache is Some
    }

    /// Whether the client reads and writes a cache.
    pub fn uses_cache(&self) -> (r: bool)
        ensures
            r == self.caches(),
    {
        self.cache_config.enabled && self.cache.is_some()
    }

    /// The URL of the request for `endpoint` with `params`.
    pub fn build_url(&self, endpoint: &str, params: &[&str]) -> (url: String)
        ensures
            url@ == url_text(
                self.base_url@,
                self.api_key@,
                self.auth_method,
                endpoint@,
                texts(params@),
            ),
    {
        let mut url = self.base_url.clone();
        url.append("/");
        match self.auth_method {
            AuthMethod::InUrl => {
                url.append(self.api_key.as_str());
                url.append("/");
            },
            AuthMethod::BearerToken => {},
        }
        url.append(endpoint);
        url.append("/");
        let tail = join(params, "/");
        url.append(tail.as_str());
        url
    }

    /// The `Authorization` header of a request, if it has one.
    pub fn authorization(&self) -> (header: Option<String>)
        ensures
            text_of(header) == authorization_text(self.auth_method, self.api_key@),
    {
        match self.auth_method {
            AuthMethod::InUrl => None,
            AuthMethod::BearerToken => Some(
                String::from_str("Bearer ").concat(self.api_key.as_str()),
            ),
        }
    }
}

} // verus!
