//! Currency codes: what a well-formed code is, and the symbols of common currencies.

use vstd::prelude::*;
use vstd::string::*;
use crate::cli_error::{CliError, CliErrorView};
use crate::text::{
    all_ascii_capitals, all_ascii_letters, byte_len, only_ascii_capitals, only_ascii_letters,
    str_eq, to_uppercase, uppercase_text,
};

verus! {

/// `code` is one of the 25 common currency codes.
pub open spec fn is_common_currency(code: Seq<char>) -> bool {
    code == "USD"@ || code == "EUR"@ || code == "GBP"@ || code == "JPY"@ || code == "AUD"@ || code
        == "CAD"@ || code == "CHF"@ || code == "CNY"@ || code == "HKD"@ || code == "NZD"@ || code
        == "SEK"@ || code == "KRW"@ || code == "SGD"@ || code == "NOK"@ || code == "MXN"@ || code
        == "INR"@ || code == "RUB"@ || code == "ZAR"@ || code == "TRY"@ || code == "BRL"@ || code
        == "TWD"@ || code == "DKK"@ || code == "PLN"@ || code == "THB"@ || code == "IDR"@
}

/// Whether `code` is one of the 25 common currency codes.
pub fn common_currency(code: &str) -> (r: bool)
    ensures
        r == is_common_currency(code@),
{
    str_eq(code, "USD") || str_eq(code, "EUR") || str_eq(code, "GBP") || str_eq(code, "JPY")
        || str_eq(code, "AUD") || str_eq(code, "CAD") || str_eq(code, "CHF") || str_eq(code, "CNY")
        || str_eq(code, "HKD") || str_eq(code, "NZD") || str_eq(code, "SEK") || str_eq(code, "KRW")
        || str_eq(code, "SGD") || str_eq(code, "NOK") || str_eq(code, "MXN") || str_eq(code, "INR")
        || str_eq(code, "RUB") || str_eq(code, "ZAR") || str_eq(code, "TRY") || str_eq(code, "BRL")
        || str_eq(code, "TWD") || str_eq(code, "DKK") || str_eq(code, "PLN") || str_eq(code, "THB")
        || str_eq(code, "IDR")
}

/// A well-formed code: three bytes, each an ASCII capital letter.
pub open spec fn well_formed_code(code: Seq<char>) -> bool {
    byte_len(code) == 3 && only_ascii_capitals(code)
}

/// What is said of a code that is not well formed, given its uppercase form:
/// that it has not three bytes; else that it holds something else than
/// letters; else the common code that it spells in capitals; else the code alone.
pub open spec fn code_complaint(code: Seq<char>, uppercase: Seq<char>) -> Seq<char> {
    if byte_len(code) != 3 {
        code + " (should be 3 letters)"@
    } else if !only_ascii_letters(code) {
        code + " (should only contain letters)"@
    } else if is_common_currency(uppercase) {
        code + " (did you mean "@ + uppercase + "?)"@
    } else {
        code
    }
}

/// Accepts a well-formed code and refuses any other, given its uppercase form.
pub fn check_currency_code(code: &str, uppercase: &str) -> (r: Result<(), CliError>)
    ensures
        match r {
            Ok(_) => well_formed_code(code@),
            Err(e) => !well_formed_code(code@) && e@ == CliErrorView::InvalidCurrency(
                code_complaint(code@, uppercase@),
            ),
        },
{
    if code.as_bytes().len() != 3 {
        return Err(
            CliError::InvalidCurrency(String::from_str(code).concat(" (should be 3 letters)")),
        );
    }
    if !all_ascii_letters(code) {
        return Err(
            CliError::InvalidCurrency(
                String::from_str(code).concat(" (should only contain letters)"),
            ),
        );
    }
    if all_ascii_capitals(code) {
        return Ok(());
    }
    if common_currency(uppercase) {
        return Err(
            CliError::InvalidCurrency(
                String::from_str(code).concat(" (did you mean ").concat(uppercase).concat("?)"),
            ),
        );
    }
    Err(CliError::InvalidCurrency(String::from_str(code)))
}

/// Accepts a currency code of three ASCII capital letters and refuses any
/// other, with a hint where its capitals spell a common code.
pub fn validate_currency_code(code: &str) -> (r: Result<(), CliError>)
    ensures
        match r {
            Ok(_) => well_formed_code(code@),
            Err(e) => !well_formed_code(code@) && e@ == CliErrorView::InvalidCurrency(
                code_complaint(code@, uppercase_text(code@)),
            ),
        },
{
    let uppercase = to_uppercase(code);
    check_currency_code(code, uppercase.as_str())
}

/// The number of decimal places an amount of a currency is shown with: none
/// for the yen, the won and the rupiah, two for any other.
pub fn decimal_places(currency: &str) -> (places: usize)
    ensures
        places == (if currency@ == "JPY"@ || currency@ == "KRW"@ || currency@ == "IDR"@ {
            0usize
        } else {
            2usize
        }),
{
    if str_eq(currency, "JPY") || str_eq(currency, "KRW") || str_eq(currency, "IDR") {
        0
    } else {
        2
    }
}

/// The symbol of a currency, empty for a currency without a known one.
pub open spec fn currency_symbol(code: Seq<char>) -> Seq<char> {
    if code == "USD"@ {
        "$"@
    } else if code == "EUR"@ {
        "\u{20ac}"@
    } else if code == "GBP"@ {
        "\u{a3}"@
    } else if code == "JPY"@ || code == "CNY"@ {
        "\u{a5}"@
    } else if code == "AUD"@ {
        "A$"@
    } else if code == "CAD"@ {
        "C$"@
    } else if code == "CHF"@ {
        "Fr"@
    } else if code == "INR"@ {
        "\u{20b9}"@
    } else if code == "KRW"@ {
        "\u{20a9}"@
    } else if code == "RUB"@ {
        "\u{20bd}"@
    } else if code == "TRY"@ {
        "\u{20ba}"@
    } else if code == "BRL"@ {
        "R$"@
    } else if code == "ZAR"@ {
        "R"@
    } else if code == "SEK"@ || code == "NOK"@ || code == "DKK"@ {
        "kr"@
    } else if code == "PLN"@ {
        "z\u{142}"@
    } else if code == "THB"@ {
        "\u{e3f}"@
    } else if code == "MXN"@ {
        "Mex$"@
    } else if code == "SGD"@ {
        "S$"@
    } else if code == "HKD"@ {
        "HK$"@
    } else if code == "NZD"@ {
        "NZ$"@
    } else {
        ""@
    }
}

/// The symbol of a currency, empty for a currency without a known one.
pub fn get_currency_symbol(code: &str) -> (symbol: &'static str)
    ensures
        symbol@ == currency_symbol(code@),
{
    if str_eq(code, "USD") {
        "$"
    } else if str_eq(code, "EUR") {
        "\u{20ac}"
    } else if str_eq(code, "GBP") {
        "\u{a3}"
    } else if str_eq(code, "JPY") || str_eq(code, "CNY") {
        "\u{a5}"
    } else if str_eq(code, "AUD") {
        "A$"
    } else if str_eq(code, "CAD") {
        "C$"
    } else if str_eq(code, "CHF") {
        "Fr"
    } else if str_eq(code, "INR") {
        "\u{20b9}"
    } else if str_eq(code, "KRW") {
        "\u{20a9}"
    } else if str_eq(code, "RUB") {
        "\u{20bd}"
    } else if str_eq(code, "TRY") {
        "\u{20ba}"
    } else if str_eq(code, "BRL") {
        "R$"
    } else if str_eq(code, "ZAR") {
        "R"
    } else if str_eq(code, "SEK") || str_eq(code, "NOK") || str_eq(code, "DKK") {
        "kr"
    } else if str_eq(code, "PLN") {
        "z\u{142}"
    } else if str_eq(code, "THB") {
        "\u{e3f}"
    } else if str_eq(code, "MXN") {
        "Mex$"
    } else if str_eq(code, "SGD") {
        "S$"
    } else if str_eq(code, "HKD") {
        "HK$"
    } else if str_eq(code, "NZD") {
        "NZ$"
    } else {
        ""
    }
}

} // verus!
