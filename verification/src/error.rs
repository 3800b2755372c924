use vstd::prelude::*;

use crate::text::{decimal, decimal_text};

verus! {

/// What can go wrong while collecting scholar data.
#[derive(Debug, Clone)]
pub enum Error {
    /// No author list was named on the command line.
    ReadArgs,
    /// The author list could not be read.
    ReadFile,
    /// The request to the given URL could not be sent.
    FailedFetch(String),
    /// The server answered with a status code outside 200 to 299.
    HttpError(u16),
    /// The body of the answer for the given scholar id was not text.
    ConvertText(String),
    /// The answer was not JSON.
    ConvertJson,
    /// The JSON answer had no text member `B`.
    ReadJson,
    /// A page of publications could not be fetched.
    FailedProcess,
}

/// The reason phrase that the `http` crate gives for a status code, such as
/// `Not Found` for 404; `None` for a code it has no phrase for.
pub uninterp spec fn status_reason(code: u16) -> Option<Seq<char>>;

/// Makes a `reqwest::StatusCode` with `StatusCode::from_u16` and reads
/// `StatusCode::canonical_reason`. The phrase is taken to be a function of the
/// code alone, named `status_reason`; beyond that `from_u16` refuses codes outside
/// 100 to 999, for which there is no phrase, nothing is stated of it.
#[verifier::external_body]
fn canonical_reason(code: u16) -> (r: Option<String>)
    ensures
        r.deep_view() == status_reason(code),
        !(100 <= code <= 999) ==> r is None,
{
    reqwest::StatusCode::from_u16(code).ok()?.canonical_reason().map(str::to_string)
}

/// A status code as `StatusCode` displays it: the number, a space, and the
/// reason phrase or `<unknown status code>`.
pub open spec fn status_text_spec(code: u16, reason: Option<Seq<char>>) -> Seq<char> {
    decimal(code as nat) + " "@ + match reason {
        Some(phrase) => phrase,
        None => "<unknown status code>"@,
    }
}

/// The message of an error, as the program reports it.
pub open spec fn error_message(e: Error) -> Seq<char> {
    match e {
        Error::ReadArgs => "Failed to read arguments"@,
        Error::ReadFile => "Failed to read file"@,
        Error::FailedFetch(url) => "Failed to access the "@ + url@,
        Error::HttpError(code) => "HTTP request failed with status code "@ + status_text_spec(
            code,
            status_reason(code),
        ),
        Error::ConvertText(id) => "Failed to convert response with id: "@ + id@,
        Error::ConvertJson => "Failed to convert JSON response"@,
        Error::ReadJson => "Failed to read JSON response"@,
        Error::FailedProcess => "Failed Processing"@,
    }
}

/// A status code with its reason phrase, as `StatusCode` displays it.
pub fn status_text(code: u16, reason: Option<String>) -> (r: String)
    ensures
        r@ == status_text_spec(code, reason.deep_view()),
{
    let mut r = decimal_text(code as usize);
    r.append(" ");
    match reason {
        Some(phrase) => r.append(phrase.as_str()),
        None => r.append("<unknown status code>"),
    }
    r
}

impl Error {
    /// The message of this error, as the program reports it.
    pub fn message(&self) -> (r: String)
        ensures
            r@ == error_message(*self),
    {
        match self {
            Error::ReadArgs => String::from_str("Failed to read arguments"),
            Error::ReadFile => String::from_str("Failed to read file"),
            Error::FailedFetch(url) => {
                let mut r = String::from_str("Failed to access the ");
                r.append(url.as_str());
                r
            },
            Error::HttpError(code) => {
                let mut r = String::from_str("HTTP request failed with status code ");
                let status = status_text(*code, canonical_reason(*code));
                r.append(status.as_str());
                r
            },
            Error::ConvertText(id) => {
                let mut r = String::from_str("Failed to convert response with id: ");
                r.append(id.as_str());
                r
            },
            Error::ConvertJson => String::from_str("Failed to convert JSON response"),
            Error::ReadJson => String::from_str("Failed to read JSON response"),
            Error::FailedProcess => String::from_str("Failed Processing"),
        }
    }
}

} // verus!
