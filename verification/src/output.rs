//! Output formats, and the list of currency codes as comma-separated values.

use vstd::prelude::*;
use vstd::string::*;
use crate::cli_error::{CliError, CliErrorView};
use crate::text::{lowercase_text, str_eq, to_lowercase};

verus! {

/// The three ways a command prints its result.
#[derive(Debug, Clone, Copy, PartialEq, Eq, Structural)]
pub enum OutputFormat {
    Text,
    Json,
    Csv,
}

/// The format that a lowercase name stands for, if any.
pub open spec fn format_named(lowercase: Seq<char>) -> Option<OutputFormat> {
    if lowercase == "text"@ {
        Some(OutputFormat::Text)
    } else if lowercase == "json"@ {
        Some(OutputFormat::Json)
    } else if lowercase == "csv"@ {
        Some(OutputFormat::Csv)
    } else {
        None
    }
}

/// The answer `r` names the format `found`, or refuses `given` where there is none.
pub open spec fn names_format(
    r: Result<OutputFormat, CliError>,
    found: Option<OutputFormat>,
    given: Seq<char>,
) -> bool {
    match found {
        Some(f) => r == Ok::<OutputFormat, CliError>(f),
        None => r is Err && r->Err_0@ == CliErrorView::InvalidFormat(given),
    }
}

impl OutputFormat {
    /// The format that `lowercase` names; `given`, the name as it was
    /// written, is refused where `lowercase` names none.
    pub fn from_lowercase(lowercase: &str, given: &str) -> (r: Result<OutputFormat, CliError>)
        ensures
            names_format(r, format_named(lowercase@), given@),
    {
        if str_eq(lowercase, "text") {
            Ok(OutputFormat::Text)
        } else if str_eq(lowercase, "json") {
            Ok(OutputFormat::Json)
        } else if str_eq(lowercase, "csv") {
            Ok(OutputFormat::Csv)
        } else {
            Err(CliError::InvalidFormat(String::from_str(given)))
        }
    }

    /// The format that `s` names, whatever the case of its letters.
    pub fn try_from(s: &str) -> (r: Result<OutputFormat, CliError>)
        ensures
            names_format(r, format_named(lowercase_text(s@)), s@),
    {
        let lowercase = to_lowercase(s);
        OutputFormat::from_lowercase(lowercase.as_str(), s)
    }

    /// The format a command prints in: the one that was asked for, text where none was.
    pub fn or_text(format: Option<&str>) -> (r: Result<OutputFormat, CliError>)
        ensures
            match format {
                Some(s) => names_format(r, format_named(lowercase_text(s@)), s@),
                None => r == Ok::<OutputFormat, CliError>(OutputFormat::Text),
            },
    {
        match format {
            Some(s) => OutputFormat::try_from(s),
            None => Ok(OutputFormat::Text),
        }
    }
}

/// One line for each pair: the code, a comma, the name, a line feed.
pub open spec fn code_lines(codes: Seq<(Seq<char>, Seq<char>)>) -> Seq<char>
    decreases codes.len(),
{
    if codes.len() == 0 {
        Seq::empty()
    } else {
        code_lines(codes.drop_last()) + codes.last().0 + ","@ + codes.last().1 + "\n"@
    }
}

/// The list of currency codes as comma-separated values: a header line, then
/// one line for each code and its name, in order.
pub fn format_currency_codes_csv(codes: &[(String, String)]) -> (out: String)
    ensures
        out@ == "Code,Currency\n"@ + code_lines(codes.deep_view()),
{
    let mut out = String::from_str("Code,Currency\n");
    let mut i: usize = 0;
    assert(codes.deep_view().take(0) =~= Seq::empty());
    assert(out@ =~= "Code,Currency\n"@ + code_lines(codes.deep_view().take(0)));
    while i < codes.len()
        invariant
            i <= codes.len(),
            out@ == "Code,Currency\n"@ + code_lines(codes.deep_view().take(i as int)),
        decreases codes.len() - i,
    {
        let ghost before = out@;
        proof {
            let upto = codes.deep_view().take(i + 1);
            assert(upto.drop_last() =~= codes.deep_view().take(i as int));
            assert(upto.last() == codes[i as int].deep_view());
            assert(codes.deep_view().len() == codes.len());
        }
        out.append(codes[i].0.as_str());
        out.append(",");
        out.append(codes[i].1.as_str());
        out.append("\n");
        assert(out@ =~= before + codes[i as int].0@ + ","@ + codes[i as int].1@ + "\n"@);
        i += 1;
    }
    assert(codes.deep_view().take(codes.len() as int) =~= codes.deep_view());
    out
}

} // verus!
