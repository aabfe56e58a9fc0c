//! What the command line reports when a command fails.

use vstd::prelude::*;
use vstd::string::*;
use crate::client::ExchangeRateError;

verus! {

/// What a command can fail with.
#[derive(Debug, Clone)]
pub enum CliError {
    /// The service refused the request.
    ApiError(String),
    /// A currency code is not acceptable.
    InvalidCurrency(String),
    /// An output format is not known.
    InvalidFormat(String),
    /// No API key was given.
    MissingApiKey,
    /// The network failed.
    NetworkError(String),
    /// Anything else.
    UnexpectedError(String),
}

/// A `CliError` as contracts see it.
pub ghost enum CliErrorView {
    ApiError(Seq<char>),
    InvalidCurrency(Seq<char>),
    InvalidFormat(Seq<char>),
    MissingApiKey,
    NetworkError(Seq<char>),
    UnexpectedError(Seq<char>),
}

impl View for CliError {
    type V = CliErrorView;

    open spec fn view(&self) -> CliErrorView {
        match *self {
            CliError::ApiError(m) => CliErrorView::ApiError(m@),
            CliError::InvalidCurrency(m) => CliErrorView::InvalidCurrency(m@),
            CliError::InvalidFormat(m) => CliErrorView::InvalidFormat(m@),
            CliError::MissingApiKey => CliErrorView::MissingApiKey,
            CliError::NetworkError(m) => CliErrorView::NetworkError(m@),
            CliError::UnexpectedError(m) => CliErrorView::UnexpectedError(m@),
        }
    }
}

/// The text shown for an error.
pub open spec fn cli_message_text(e: CliErrorView) -> Seq<char> {
    match e {
        CliErrorView::ApiError(m) => "API Error: "@ + m
            + ". Please check your request parameters."@,
        CliErrorView::InvalidCurrency(code) => "Invalid currency code: '"@ + code
            + "'. Currency codes must be 3 uppercase letters (e.g., USD, EUR, GBP)."@,
        CliErrorView::InvalidFormat(f) => "Invalid output format: '"@ + f
            + "'. Supported formats are: text, json, csv."@,
        CliErrorView::MissingApiKey =>
            "API key not provided. Use --api-key option or set EXCHANGE_RATE_API_KEY environment variable.\nGet your API key at https://www.exchangerate-api.com/"@,
        CliErrorView::NetworkError(m) => "Network Error: "@ + m
            + ". Please check your internet connection and try again."@,
        CliErrorView::UnexpectedError(m) => "Unexpected Error: "@ + m
            + ". Please report this issue if it persists."@,
    }
}

/// What the command line reports for a failure of the client.
pub open spec fn cli_error_of(err: ExchangeRateError) -> CliErrorView {
    match err {
        ExchangeRateError::MissingApiKey => CliErrorView::MissingApiKey,
        ExchangeRateError::UnsupportedCode => CliErrorView::InvalidCurrency(
            "Unsupported currency code"@,
        ),
        ExchangeRateError::InvalidKey => CliErrorView::ApiError(
            "Invalid API key. Please check your API key and try again"@,
        ),
        ExchangeRateError::InactiveAccount => CliErrorView::ApiError(
            "Your account is inactive. Please check your subscription status"@,
        ),
        ExchangeRateError::QuotaReached => CliErrorView::ApiError(
            "API quota reached. Please upgrade your plan or try again later"@,
        ),
        ExchangeRateError::MalformedRequest => CliErrorView::ApiError(
            "Malformed request. This is likely a bug in the CLI"@,
        ),
        ExchangeRateError::HttpClientError(f) => if f.is_timeout {
            CliErrorView::NetworkError(
                "Request timed out. The server might be busy, please try again later"@,
            )
        } else if f.is_connect {
            CliErrorView::NetworkError("Connection failed. Please check your internet connection"@)
        } else {
            CliErrorView::NetworkError("HTTP client error: "@ + f.text@)
        },
        ExchangeRateError::HttpError(status, line) => if status == 429 {
            CliErrorView::ApiError("Too many requests. Please try again later"@)
        } else if status == 403 {
            CliErrorView::ApiError("Access forbidden. Please check your API key"@)
        } else if status == 404 {
            CliErrorView::ApiError("Resource not found. The requested endpoint might not exist"@)
        } else if 500 <= status <= 599 {
            CliErrorView::ApiError("Server error. The API service might be experiencing issues"@)
        } else {
            CliErrorView::NetworkError("HTTP error: "@ + line@)
        },
        ExchangeRateError::JsonError(m) => CliErrorView::UnexpectedError(
            "Failed to parse API response: "@ + m@,
        ),
        ExchangeRateError::CacheError(e) => CliErrorView::UnexpectedError(
            "Cache error: "@ + e.message_text() + ". Try using --no-cache"@,
        ),
    }
}

impl CliError {
    /// The text shown for the error.
    pub fn message(&self) -> (s: String)
        ensures
            s@ == cli_message_text(self@),
    {
        match self {
            CliError::ApiError(m) => String::from_str("API Error: ").concat(m.as_str()).concat(
                ". Please check your request parameters.",
            ),
            CliError::InvalidCurrency(code) => String::from_str("Invalid currency code: '").concat(
                code.as_str(),
            ).concat("'. Currency codes must be 3 uppercase letters (e.g., USD, EUR, GBP)."),
            CliError::InvalidFormat(f) => String::from_str("Invalid output format: '").concat(
                f.as_str(),
            ).concat("'. Supported formats are: text, json, csv."),
            CliError::MissingApiKey => String::from_str(
                "API key not provided. Use --api-key option or set EXCHANGE_RATE_API_KEY environment variable.\nGet your API key at https://www.exchangerate-api.com/",
            ),
            CliError::NetworkError(m) => String::from_str("Network Error: ").concat(
                m.as_str(),
            ).concat(". Please check your internet connection and try again."),
            CliError::UnexpectedError(m) => String::from_str("Unexpected Error: ").concat(
                m.as_str(),
            ).concat(". Please report this issue if it persists."),
        }
    }

    /// What the command line reports for a failure of the client.
    pub fn from(err: ExchangeRateError) -> (e: CliError)
        ensures
            e@ == cli_error_of(err),
    {
        match err {
            ExchangeRateError::MissingApiKey => CliError::MissingApiKey,
            ExchangeRateError::UnsupportedCode => CliError::InvalidCurrency(
                String::from_str("Unsupported currency code"),
            ),
            ExchangeRateError::InvalidKey => CliError::ApiError(
                String::from_str("Invalid API key. Please check your API key and try again"),
            ),
            ExchangeRateError::InactiveAccount => CliError::ApiError(
                String::from_str("Your account is inactive. Please check your subscription status"),
            ),
            ExchangeRateError::QuotaReached => CliError::ApiError(
                String::from_str("API quota reached. Please upgrade your plan or try again later"),
            ),
            ExchangeRateError::MalformedRequest => CliError::ApiError(
                String::from_str("Malformed request. This is likely a bug in the CLI"),
            ),
            ExchangeRateError::HttpClientError(f) => {
                if f.is_timeout {
                    CliError::NetworkError(
                        String::from_str(
                            "Request timed out. The server might be busy, please try again later",
                        ),
                    )
                } else if f.is_connect {
                    CliError::NetworkError(
                        String::from_str("Connection failed. Please check your internet connection"),
                    )
                } else {
                    CliError::NetworkError(
                        String::from_str("HTTP client error: ").concat(f.text.as_str()),
                    )
                }
            },
            ExchangeRateError::HttpError(status, line) => {
                if status == 429 {
                    CliError::ApiError(String::from_str("Too many requests. Please try again later"))
                } else if status == 403 {
                    CliError::ApiError(
                        String::from_str("Access forbidden. Please check your API key"),
                    )
                } else if status == 404 {
                    CliError::ApiError(
                        String::from_str(
                            "Resource not found. The requested endpoint might not exist",
                        ),
                    )
                } else if 500 <= status && status <= 599 {
                    CliError::ApiError(
                        String::from_str(
                            "Server error. The API service might be experiencing issues",
                        ),
                    )
                } else {
                    CliError::NetworkError(String::from_str("HTTP error: ").concat(line.as_str()))
                }
            },
            ExchangeRateError::JsonError(m) => CliError::UnexpectedError(
                String::from_str("Failed to parse API response: ").concat(m.as_str()),
            ),
            ExchangeRateError::CacheError(e) => {
                let inner = e.message();
                CliError::UnexpectedError(
                    String::from_str("Cache error: ").concat(inner.as_str()).concat(
                        ". Try using --no-cache",
                    ),
                )
            },
        }
    }
}

} // verus!
