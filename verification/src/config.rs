//! The settings that the command line keeps between runs.

use vstd::prelude::*;
use vstd::string::*;
use crate::cli_error::CliError;
use crate::client::AuthMethod;
use crate::text::{lowercase_text, str_eq, text_of, to_lowercase};

verus! {

/// The kept settings; a setting that is absent takes its default when it is used.
#[derive(Debug, Clone)]
pub struct Config {
    /// The API key.
    pub api_key: Option<String>,
    /// How the key reaches the service: `bearer` or `url`.
    pub auth_method: Option<String>,
    /// The output format: `text`, `json` or `csv`.
    pub default_format: Option<String>,
    /// Whether output is colored.
    pub use_color: Option<bool>,
    /// Whether answers are cached.
    pub use_cache: Option<bool>,
}

/// The settings as contracts see them.
pub ghost struct ConfigView {
    pub api_key: Option<Seq<char>>,
    pub auth_method: Option<Seq<char>>,
    pub default_format: Option<Seq<char>>,
    pub use_color: Option<bool>,
    pub use_cache: Option<bool>,
}

impl View for Config {
    type V = ConfigView;

    open spec fn view(&self) -> ConfigView {
        ConfigView {
            api_key: text_of(self.api_key),
            auth_method: text_of(self.auth_method),
            default_format: text_of(self.default_format),
            use_color: self.use_color,
            use_cache: self.use_cache,
        }
    }
}

/// Why a setting was not changed.
#[derive(Debug, Clone)]
pub enum ConfigError {
    /// The value is none that the setting takes.
    InvalidConfigValue(String),
    /// There is no setting of that name.
    InvalidConfigKey(String),
}

/// A `ConfigError` as contracts see it.
pub ghost enum ConfigErrorView {
    InvalidConfigValue(Seq<char>),
    InvalidConfigKey(Seq<char>),
}

impl View for ConfigError {
    type V = ConfigErrorView;

    open spec fn view(&self) -> ConfigErrorView {
        match *self {
            ConfigError::InvalidConfigValue(m) => ConfigErrorView::InvalidConfigValue(m@),
            ConfigError::InvalidConfigKey(m) => ConfigErrorView::InvalidConfigKey(m@),
        }
    }
}

/// The truth value that a lowercase word states, if any.
pub open spec fn truth_named(lowercase: Seq<char>) -> Option<bool> {
    if lowercase == "true"@ || lowercase == "yes"@ || lowercase == "1"@ {
        Some(true)
    } else if lowercase == "false"@ || lowercase == "no"@ || lowercase == "0"@ {
        Some(false)
    } else {
        None
    }
}

/// The way of authentication that a lowercase word names, if any.
pub open spec fn auth_method_named(lowercase: Seq<char>) -> Option<AuthMethod> {
    if lowercase == "bearer"@ {
        Some(AuthMethod::BearerToken)
    } else if lowercase == "url"@ {
        Some(AuthMethod::InUrl)
    } else {
        None
    }
}

/// The settings after `key` was set to `value`, whose lowercase form is
/// `lowercase`, with what is said of the change; or why nothing was changed.
pub open spec fn setting_outcome(
    config: ConfigView,
    key: Seq<char>,
    value: Seq<char>,
    lowercase: Seq<char>,
) -> Result<(ConfigView, Seq<char>), ConfigErrorView> {
    if key == "api_key"@ {
        Ok((ConfigView { api_key: Some(value), ..config }, "API key updated"@))
    } else if key == "auth_method"@ {
        if lowercase == "bearer"@ || lowercase == "url"@ {
            Ok(
                (
                    ConfigView { auth_method: Some(lowercase), ..config },
                    "Auth method set to: "@ + lowercase,
                ),
            )
        } else {
            Err(
                ConfigErrorView::InvalidConfigValue(
                    "Invalid auth method: "@ + value + ". Valid values are 'bearer' or 'url'."@,
                ),
            )
        }
    } else if key == "default_format"@ {
        if lowercase == "text"@ || lowercase == "json"@ || lowercase == "csv"@ {
            Ok(
                (
                    ConfigView { default_format: Some(lowercase), ..config },
                    "Default format set to: "@ + lowercase,
                ),
            )
        } else {
            Err(
                ConfigErrorView::InvalidConfigValue(
                    "Invalid format: "@ + value + ". Valid values are 'text', 'json', or 'csv'."@,
                ),
            )
        }
    } else if key == "use_color"@ {
        match truth_named(lowercase) {
            Some(b) => Ok(
                (
                    ConfigView { use_color: Some(b), ..config },
                    if b {
                        "Color output enabled"@
                    } else {
                        "Color output disabled"@
                    },
                ),
            ),
            None => Err(
                ConfigErrorView::InvalidConfigValue(
                    "Invalid boolean value: "@ + value + ". Use 'true' or 'false'."@,
                ),
            ),
        }
    } else if key == "use_cache"@ {
        match truth_named(lowercase) {
            Some(b) => Ok(
                (
                    ConfigView { use_cache: Some(b), ..config },
                    if b {
                        "Caching enabled"@
                    } else {
                        "Caching disabled"@
                    },
                ),
            ),
            None => Err(
                ConfigErrorView::InvalidConfigValue(
                    "Invalid boolean value: "@ + value + ". Use 'true' or 'false'."@,
                ),
            ),
        }
    } else {
        Err(
            ConfigErrorView::InvalidConfigKey(
                "Invalid configuration key: "@ + key
                    + ". Valid keys are 'api_key', 'auth_method', 'default_format', 'use_color', 'use_cache'."@,
            ),
        )
    }
}

/// The answer `r` of setting something in `before`, which left `after`, is `outcome`.
pub open spec fn setting_answer_is(
    r: Result<String, ConfigError>,
    before: ConfigView,
    after: ConfigView,
    outcome: Result<(ConfigView, Seq<char>), ConfigErrorView>,
) -> bool {
    match outcome {
        Ok(changed) => r is Ok && r->Ok_0@ == changed.1 && after == changed.0,
        Err(why) => r is Err && r->Err_0@ == why && after == before,
    }
}

/// The truth value that a lowercase word states, if any.
pub fn parse_truth(lowercase: &str) -> (r: Option<bool>)
    ensures
        r == truth_named(lowercase@),
{
    if str_eq(lowercase, "true") || str_eq(lowercase, "yes") || str_eq(lowercase, "1") {
        Some(true)
    } else if str_eq(lowercase, "false") || str_eq(lowercase, "no") || str_eq(lowercase, "0") {
        Some(false)
    } else {
        None
    }
}

/// The way of authentication that a lowercase word names, if any.
pub fn parse_auth_method(lowercase: &str) -> (r: Option<AuthMethod>)
    ensures
        r == auth_method_named(lowercase@),
{
    if str_eq(lowercase, "bearer") {
        Some(AuthMethod::BearerToken)
    } else if str_eq(lowercase, "url") {
        Some(AuthMethod::InUrl)
    } else {
        None
    }
}

/// The way of authentication that a word names, whatever the case of its letters.
pub fn auth_method_from(word: &str) -> (r: Option<AuthMethod>)
    ensures
        r == auth_method_named(lowercase_text(word@)),
{
    let lowercase = to_lowercase(word);
    parse_auth_method(lowercase.as_str())
}

/// The API key of a run: the one given on the command line, else the one in
/// the environment, else the kept one; without any the run fails.
pub fn resolve_api_key(flag: Option<String>, environment: Option<String>, kept: Option<String>) -> (r:
    Result<String, CliError>)
    ensures
        match r {
            Ok(key) => Some(key) == (if flag is Some {
                flag
            } else if environment is Some {
                environment
            } else {
                kept
            }),
            Err(e) => flag is None && environment is None && kept is None && e is MissingApiKey,
        },
{
    match flag {
        Some(key) => Ok(key),
        None => match environment {
            Some(key) => Ok(key),
            None => match kept {
                Some(key) => Ok(key),
                None => Err(CliError::MissingApiKey),
            },
        },
    }
}

fn invalid_truth(value: &str) -> (e: ConfigError)
    ensures
        e@ == ConfigErrorView::InvalidConfigValue(
            "Invalid boolean value: "@ + value@ + ". Use 'true' or 'false'."@,
        ),
{
    ConfigError::InvalidConfigValue(
        String::from_str("Invalid boolean value: ").concat(value).concat(
            ". Use 'true' or 'false'.",
        ),
    )
}

impl Default for Config {
    /// No key, the bearer token, text output, colors and caching.
    fn default() -> (c: Self)
        ensures
            c@ == (ConfigView {
                api_key: None,
                auth_method: Some("bearer"@),
                default_format: Some("text"@),
                use_color: Some(true),
                use_cache: Some(true),
            }),
    {
        Config {
            api_key: None,
            auth_method: Some(String::from_str("bearer")),
            default_format: Some(String::from_str("text")),
            use_color: Some(true),
            use_cache: Some(true),
        }
    }
}

impl Config {
    /// Whether answers are cached: unless the command line forbids it or the settings do.
    pub fn caching(&self, no_cache: bool) -> (r: bool)
        ensures
            r == (!no_cache && self.use_cache != Some(false)),
    {
        let kept = match self.use_cache {
            Some(b) => b,
            None => true,
        };
        !no_cache && kept
    }

    /// Sets `key` to `value`, whose lowercase form is `lowercase`, and says
    /// what was changed; a key or a value that is not known changes nothing.
    pub fn set_with_lowercase(&mut self, key: &str, value: &str, lowercase: &str) -> (r: Result<
        String,
        ConfigError,
    >)
        ensures
            setting_answer_is(
                r,
                old(self)@,
                final(self)@,
                setting_outcome(old(self)@, key@, value@, lowercase@),
            ),
    {
        if str_eq(key, "api_key") {
            self.api_key = Some(String::from_str(value));
            Ok(String::from_str("API key updated"))
        } else if str_eq(key, "auth_method") {
            if str_eq(lowercase, "bearer") || str_eq(lowercase, "url") {
                self.auth_method = Some(String::from_str(lowercase));
                Ok(String::from_str("Auth method set to: ").concat(lowercase))
            } else {
                Err(
                    ConfigError::InvalidConfigValue(
                        String::from_str("Invalid auth method: ").concat(value).concat(
                            ". Valid values are 'bearer' or 'url'.",
                        ),
                    ),
                )
            }
        } else if str_eq(key, "default_format") {
            if str_eq(lowercase, "text") || str_eq(lowercase, "json") || str_eq(lowercase, "csv") {
                self.default_format = Some(String::from_str(lowercase));
                Ok(String::from_str("Default format set to: ").concat(lowercase))
            } else {
                Err(
                    ConfigError::InvalidConfigValue(
                        String::from_str("Invalid format: ").concat(value).concat(
                            ". Valid values are 'text', 'json', or 'csv'.",
                        ),
                    ),
                )
            }
        } else if str_eq(key, "use_color") {
            match parse_truth(lowercase) {
                Some(b) => {
                    self.use_color = Some(b);
                    if b {
                        Ok(String::from_str("Color output enabled"))
                    } else {
                        Ok(String::from_str("Color output disabled"))
                    }
                },
                None => Err(invalid_truth(value)),
            }
        } else if str_eq(key, "use_cache") {
            match parse_truth(lowercase) {
                Some(b) => {
                    self.use_cache = Some(b);
                    if b {
                        Ok(String::from_str("Caching enabled"))
                    } else {
                        Ok(String::from_str("Caching disabled"))
                    }
                },
                None => Err(invalid_truth(value)),
            }
        } else {
            Err(
                ConfigError::InvalidConfigKey(
                    String::from_str("Invalid configuration key: ").concat(key).concat(
                        ". Valid keys are 'api_key', 'auth_method', 'default_format', 'use_color', 'use_cache'.",
                    ),
                ),
            )
        }
    }

    /// Sets `key` to `value` and says what was changed; a key or a value that
    /// is not known changes nothing. Values are read whatever the case of
    /// their letters, but for the API key, which is kept as it is written.
    pub fn set(&mut self, key: &str, value: &str) -> (r: Result<String, ConfigError>)
        ensures
            setting_answer_is(
                r,
                old(self)@,
                final(self)@,
                setting_outcome(old(self)@, key@, value@, lowercase_text(value@)),
            ),
    {
        let lowercase = to_lowercase(value);
        self.set_with_lowercase(key, value, lowercase.as_str())
    }
}

} // verus!
