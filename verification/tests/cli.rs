use exchangerate::cli_error::CliError;
use exchangerate::client::{ExchangeRateError, TransportFailure};
use exchangerate::client::AuthMethod;
use exchangerate::config::{
    auth_method_from, parse_auth_method, parse_truth, resolve_api_key, Config, ConfigError,
};
use exchangerate::currency::{
    check_currency_code, common_currency, decimal_places, get_currency_symbol,
    validate_currency_code,
};
use exchangerate::error::CacheError;
use exchangerate::output::{format_currency_codes_csv, OutputFormat};
use exchangerate::text::{all_ascii_capitals, all_ascii_letters, str_eq};

fn complaint(r: Result<(), CliError>) -> String {
    match r {
        Err(CliError::InvalidCurrency(text)) => text,
        other => panic!("expected an invalid currency, got {:?}", other),
    }
}

#[test]
fn well_formed_codes_pass() {
    assert!(validate_currency_code("USD").is_ok());
    assert!(validate_currency_code("EUR").is_ok());
    assert!(validate_currency_code("XYZ").is_ok());
}

#[test]
fn code_of_wrong_length() {
    assert_eq!(complaint(validate_currency_code("US")), "US (should be 3 letters)");
    assert_eq!(complaint(validate_currency_code("")), " (should be 3 letters)");
    assert_eq!(complaint(validate_currency_code("USDT")), "USDT (should be 3 letters)");
    assert_eq!(complaint(validate_currency_code("\u{e9}\u{e9}\u{e9}")), "\u{e9}\u{e9}\u{e9} (should be 3 letters)");
}

#[test]
fn code_with_other_than_letters() {
    assert_eq!(complaint(validate_currency_code("U5D")), "U5D (should only contain letters)");
    assert_eq!(complaint(validate_currency_code("\u{20ac}")), "\u{20ac} (should only contain letters)");
    assert_eq!(complaint(validate_currency_code("U D")), "U D (should only contain letters)");
}

#[test]
fn code_in_lowercase_gets_hint() {
    assert_eq!(complaint(validate_currency_code("usd")), "usd (did you mean USD?)");
    assert_eq!(complaint(validate_currency_code("Eur")), "Eur (did you mean EUR?)");
    assert_eq!(complaint(validate_currency_code("xyz")), "xyz");
    assert_eq!(complaint(check_currency_code("usd", "GBP")), "usd (did you mean GBP?)");
    assert_eq!(complaint(check_currency_code("usd", "usd")), "usd");
    assert!(check_currency_code("USD", "whatever").is_ok());
}

#[test]
fn common_currencies() {
    for code in [
        "USD", "EUR", "GBP", "JPY", "AUD", "CAD", "CHF", "CNY", "HKD", "NZD", "SEK", "KRW", "SGD",
        "NOK", "MXN", "INR", "RUB", "ZAR", "TRY", "BRL", "TWD", "DKK", "PLN", "THB", "IDR",
    ] {
        assert!(common_currency(code));
    }
    assert!(!common_currency("usd"));
    assert!(!common_currency("XYZ"));
    assert!(!common_currency(""));
}

#[test]
fn currency_symbols() {
    assert_eq!(get_currency_symbol("USD"), "$");
    assert_eq!(get_currency_symbol("EUR"), "\u{20ac}");
    assert_eq!(get_currency_symbol("GBP"), "\u{a3}");
    assert_eq!(get_currency_symbol("JPY"), "\u{a5}");
    assert_eq!(get_currency_symbol("CNY"), "\u{a5}");
    assert_eq!(get_currency_symbol("NOK"), "kr");
    assert_eq!(get_currency_symbol("PLN"), "z\u{142}");
    assert_eq!(get_currency_symbol("MXN"), "Mex$");
    assert_eq!(get_currency_symbol("NZD"), "NZ$");
    assert_eq!(get_currency_symbol("IDR"), "");
    assert_eq!(get_currency_symbol("usd"), "");
    assert_eq!(decimal_places("JPY"), 0);
    assert_eq!(decimal_places("KRW"), 0);
    assert_eq!(decimal_places("IDR"), 0);
    assert_eq!(decimal_places("USD"), 2);
    assert_eq!(decimal_places(""), 2);
}

#[test]
fn text_helpers() {
    assert!(str_eq("abc", "abc"));
    assert!(!str_eq("abc", "abd"));
    assert!(!str_eq("abc", "ab"));
    assert!(str_eq("", ""));
    assert!(str_eq("z\u{142}", "z\u{142}"));
    assert!(all_ascii_letters("abcXYZ"));
    assert!(!all_ascii_letters("ab1"));
    assert!(!all_ascii_letters("\u{e9}"));
    assert!(all_ascii_letters(""));
    assert!(all_ascii_capitals("ABC"));
    assert!(!all_ascii_capitals("ABc"));
    assert!(!all_ascii_capitals("A@"));
    assert!(!all_ascii_capitals("A["));
}

#[test]
fn output_format_names() {
    assert_eq!(OutputFormat::try_from("text").unwrap(), OutputFormat::Text);
    assert_eq!(OutputFormat::try_from("JSON").unwrap(), OutputFormat::Json);
    assert_eq!(OutputFormat::try_from("Csv").unwrap(), OutputFormat::Csv);
    match OutputFormat::try_from("XML") {
        Err(CliError::InvalidFormat(given)) => assert_eq!(given, "XML"),
        other => panic!("expected an invalid format, got {:?}", other),
    }
    assert_eq!(OutputFormat::or_text(None).unwrap(), OutputFormat::Text);
    assert_eq!(OutputFormat::or_text(Some("csv")).unwrap(), OutputFormat::Csv);
    assert!(OutputFormat::or_text(Some("")).is_err());
    assert!(OutputFormat::from_lowercase("JSON", "JSON").is_err());
}

#[test]
fn codes_as_csv() {
    let codes = vec![
        ("USD".to_string(), "United States Dollar".to_string()),
        ("EUR".to_string(), "Euro".to_string()),
    ];
    assert_eq!(
        format_currency_codes_csv(&codes),
        "Code,Currency\nUSD,United States Dollar\nEUR,Euro\n"
    );
    assert_eq!(format_currency_codes_csv(&[]), "Code,Currency\n");
}

#[test]
fn default_config() {
    let c = Config::default();
    assert_eq!(c.api_key, None);
    assert_eq!(c.auth_method.as_deref(), Some("bearer"));
    assert_eq!(c.default_format.as_deref(), Some("text"));
    assert_eq!(c.use_color, Some(true));
    assert_eq!(c.use_cache, Some(true));
    assert!(c.caching(false));
    assert!(!c.caching(true));
    let off = Config { use_cache: Some(false), ..Config::default() };
    assert!(!off.caching(false));
    let unset = Config { use_cache: None, ..Config::default() };
    assert!(unset.caching(false));
}

fn text_of(e: CliError) -> (u8, String) {
    match e {
        CliError::ApiError(m) => (0, m),
        CliError::InvalidCurrency(m) => (1, m),
        CliError::InvalidFormat(m) => (2, m),
        CliError::MissingApiKey => (3, String::new()),
        CliError::NetworkError(m) => (4, m),
        CliError::UnexpectedError(m) => (5, m),
    }
}

fn transport(is_timeout: bool, is_connect: bool) -> ExchangeRateError {
    ExchangeRateError::HttpClientError(TransportFailure {
        is_timeout,
        is_connect,
        text: "boom".to_string(),
    })
}

#[test]
fn client_errors_as_cli_errors() {
    assert_eq!(text_of(CliError::from(ExchangeRateError::MissingApiKey)).0, 3);
    assert_eq!(
        text_of(CliError::from(ExchangeRateError::UnsupportedCode)),
        (1, "Unsupported currency code".to_string())
    );
    assert_eq!(
        text_of(CliError::from(ExchangeRateError::InvalidKey)),
        (0, "Invalid API key. Please check your API key and try again".to_string())
    );
    assert_eq!(
        text_of(CliError::from(ExchangeRateError::InactiveAccount)),
        (0, "Your account is inactive. Please check your subscription status".to_string())
    );
    assert_eq!(
        text_of(CliError::from(ExchangeRateError::QuotaReached)),
        (0, "API quota reached. Please upgrade your plan or try again later".to_string())
    );
    assert_eq!(
        text_of(CliError::from(ExchangeRateError::MalformedRequest)),
        (0, "Malformed request. This is likely a bug in the CLI".to_string())
    );
    assert_eq!(
        text_of(CliError::from(transport(true, true))),
        (4, "Request timed out. The server might be busy, please try again later".to_string())
    );
    assert_eq!(
        text_of(CliError::from(transport(false, true))),
        (4, "Connection failed. Please check your internet connection".to_string())
    );
    assert_eq!(
        text_of(CliError::from(transport(false, false))),
        (4, "HTTP client error: boom".to_string())
    );
    assert_eq!(
        text_of(CliError::from(ExchangeRateError::JsonError("eof".to_string()))),
        (5, "Failed to parse API response: eof".to_string())
    );
    assert_eq!(
        text_of(CliError::from(ExchangeRateError::CacheError(CacheError::NotFound))),
        (5, "Cache error: Item not found in cache. Try using --no-cache".to_string())
    );
}

#[test]
fn http_statuses_as_cli_errors() {
    let of = |status: u16| {
        text_of(CliError::from(ExchangeRateError::HttpError(status, format!("{} Status", status))))
    };
    assert_eq!(of(429), (0, "Too many requests. Please try again later".to_string()));
    assert_eq!(of(403), (0, "Access forbidden. Please check your API key".to_string()));
    assert_eq!(
        of(404),
        (0, "Resource not found. The requested endpoint might not exist".to_string())
    );
    assert_eq!(
        of(500),
        (0, "Server error. The API service might be experiencing issues".to_string())
    );
    assert_eq!(
        of(599),
        (0, "Server error. The API service might be experiencing issues".to_string())
    );
    assert_eq!(of(600), (4, "HTTP error: 600 Status".to_string()));
    assert_eq!(of(418), (4, "HTTP error: 418 Status".to_string()));
    assert_eq!(of(499), (4, "HTTP error: 499 Status".to_string()));
}

#[test]
fn cli_error_messages() {
    assert_eq!(
        CliError::ApiError("x".to_string()).message(),
        "API Error: x. Please check your request parameters."
    );
    assert_eq!(
        CliError::InvalidCurrency("usd".to_string()).message(),
        "Invalid currency code: 'usd'. Currency codes must be 3 uppercase letters (e.g., USD, EUR, GBP)."
    );
    assert_eq!(
        CliError::InvalidFormat("xml".to_string()).message(),
        "Invalid output format: 'xml'. Supported formats are: text, json, csv."
    );
    assert_eq!(
        CliError::MissingApiKey.message(),
        "API key not provided. Use --api-key option or set EXCHANGE_RATE_API_KEY environment variable.\nGet your API key at https://www.exchangerate-api.com/"
    );
    assert_eq!(
        CliError::NetworkError("x".to_string()).message(),
        "Network Error: x. Please check your internet connection and try again."
    );
    assert_eq!(
        CliError::UnexpectedError("x".to_string()).message(),
        "Unexpected Error: x. Please report this issue if it persists."
    );
}

fn refusal(r: Result<String, ConfigError>) -> (bool, String) {
    match r {
        Err(ConfigError::InvalidConfigValue(m)) => (true, m),
        Err(ConfigError::InvalidConfigKey(m)) => (false, m),
        Ok(m) => panic!("the setting was accepted: {}", m),
    }
}

#[test]
fn settings_are_set() {
    let mut c = Config::default();
    assert_eq!(c.set("api_key", "SeCrEt").unwrap(), "API key updated");
    assert_eq!(c.api_key.as_deref(), Some("SeCrEt"));
    assert_eq!(c.set("auth_method", "URL").unwrap(), "Auth method set to: url");
    assert_eq!(c.auth_method.as_deref(), Some("url"));
    assert_eq!(c.set("default_format", "Json").unwrap(), "Default format set to: json");
    assert_eq!(c.default_format.as_deref(), Some("json"));
    assert_eq!(c.set("use_color", "No").unwrap(), "Color output disabled");
    assert_eq!(c.use_color, Some(false));
    assert_eq!(c.set("use_color", "1").unwrap(), "Color output enabled");
    assert_eq!(c.use_color, Some(true));
    assert_eq!(c.set("use_cache", "FALSE").unwrap(), "Caching disabled");
    assert_eq!(c.use_cache, Some(false));
    assert_eq!(c.set("use_cache", "yes").unwrap(), "Caching enabled");
    assert_eq!(c.use_cache, Some(true));
}

#[test]
fn unknown_settings_change_nothing() {
    let mut c = Config::default();
    assert_eq!(
        refusal(c.set("auth_method", "Basic")),
        (true, "Invalid auth method: Basic. Valid values are 'bearer' or 'url'.".to_string())
    );
    assert_eq!(
        refusal(c.set("default_format", "xml")),
        (true, "Invalid format: xml. Valid values are 'text', 'json', or 'csv'.".to_string())
    );
    assert_eq!(
        refusal(c.set("use_color", "maybe")),
        (true, "Invalid boolean value: maybe. Use 'true' or 'false'.".to_string())
    );
    assert_eq!(
        refusal(c.set("use_cache", "")),
        (true, "Invalid boolean value: . Use 'true' or 'false'.".to_string())
    );
    assert_eq!(
        refusal(c.set("colour", "true")),
        (
            false,
            "Invalid configuration key: colour. Valid keys are 'api_key', 'auth_method', 'default_format', 'use_color', 'use_cache'."
                .to_string()
        )
    );
    assert_eq!(c.auth_method.as_deref(), Some("bearer"));
    assert_eq!(c.default_format.as_deref(), Some("text"));
    assert_eq!(c.use_color, Some(true));
    assert_eq!(c.use_cache, Some(true));
    assert_eq!(c.api_key, None);
    assert!(c.set_with_lowercase("auth_method", "URL", "URL").is_err());
}

#[test]
fn words_for_truth_and_auth() {
    assert_eq!(parse_truth("true"), Some(true));
    assert_eq!(parse_truth("yes"), Some(true));
    assert_eq!(parse_truth("1"), Some(true));
    assert_eq!(parse_truth("false"), Some(false));
    assert_eq!(parse_truth("no"), Some(false));
    assert_eq!(parse_truth("0"), Some(false));
    assert_eq!(parse_truth("TRUE"), None);
    assert_eq!(parse_auth_method("bearer"), Some(AuthMethod::BearerToken));
    assert_eq!(parse_auth_method("url"), Some(AuthMethod::InUrl));
    assert_eq!(parse_auth_method("Bearer"), None);
    assert_eq!(auth_method_from("Bearer"), Some(AuthMethod::BearerToken));
    assert_eq!(auth_method_from("URL"), Some(AuthMethod::InUrl));
    assert_eq!(auth_method_from("token"), None);
}

#[test]
fn api_key_precedence() {
    let s = |t: &str| Some(t.to_string());
    assert_eq!(resolve_api_key(s("flag"), s("env"), s("kept")).unwrap(), "flag");
    assert_eq!(resolve_api_key(None, s("env"), s("kept")).unwrap(), "env");
    assert_eq!(resolve_api_key(None, None, s("kept")).unwrap(), "kept");
    assert!(matches!(resolve_api_key(None, None, None), Err(CliError::MissingApiKey)));
}
