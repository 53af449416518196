//! Errors of the Cloudflare API operations, and the text each one shows.
use vstd::prelude::*;
use crate::utils::text::{decimal, int_decimal, push_decimal, push_int};

verus! {

/// Errors that can occur during Cloudflare API operations.
#[derive(Debug, Clone)]
pub enum CloudflareError {
    /// The API answered with an error code and message.
    ApiError { code: i64, message: String },
    /// The API answered with several errors, each already written out.
    ApiErrors(Vec<String>),
    /// The HTTP request came back with a status that is not a success.
    HttpError { status: u16, body: String },
    /// The answer could not be parsed; the parser's message.
    ParseError(String),
    /// The request could not be sent or its answer not read; the client's message.
    RequestError(String),
    /// An update was asked for a record without an ID.
    MissingRecordId,
    /// The API answered successfully but without a result.
    NoResult,
}

/// `parts` joined with `sep` between each two.
pub open spec fn joined(parts: Seq<Seq<char>>, sep: Seq<char>) -> Seq<char>
    decreases parts.len(),
{
    if parts.len() == 0 {
        Seq::empty()
    } else if parts.len() == 1 {
        parts[0]
    } else {
        joined(parts.drop_last(), sep) + sep + parts.last()
    }
}

/// The text of an error.
pub open spec fn error_text(e: CloudflareError) -> Seq<char> {
    match e {
        CloudflareError::ApiError { code, message } => "API error: "@ + message@ + " (code: "@
            + int_decimal(code as int) + ")"@,
        CloudflareError::ApiErrors(list) => "API errors: "@ + joined(
            list@.map_values(|s: String| s@),
            ", "@,
        ),
        CloudflareError::HttpError { status, body } => "HTTP request failed with status "@
            + decimal(status as nat) + ": "@ + body@,
        CloudflareError::ParseError(m) => "Failed to parse API response: "@ + m@,
        CloudflareError::RequestError(m) => "Failed to send request: "@ + m@,
        CloudflareError::MissingRecordId => "Cannot update record: no ID provided"@,
        CloudflareError::NoResult => "No result returned from API"@,
    }
}

/// Appends `parts` joined with `sep`.
fn push_joined(out: &mut String, parts: &Vec<String>, sep: &str)
    ensures
        final(out)@ == old(out)@ + joined(parts@.map_values(|s: String| s@), sep@),
{
    let ghost start = out@;
    let ghost all = parts@.map_values(|s: String| s@);
    let mut i: usize = 0;
    while i < parts.len()
        invariant
            i <= parts@.len(),
            all == parts@.map_values(|s: String| s@),
            out@ == start + joined(all.take(i as int), sep@),
        decreases parts@.len() - i,
    {
        let ghost before = out@;
        if i > 0 {
            out.append(sep);
        }
        out.append(parts[i].as_str());
        proof {
            assert(all.take(i + 1).drop_last() =~= all.take(i as int));
            assert(all.take(i + 1).last() == parts@[i as int]@);
            if i == 0 {
                assert(all.take(1) =~= seq![parts@[0]@]);
            }
            assert(out@ =~= start + joined(all.take(i + 1), sep@));
        }
        i = i + 1;
    }
    assert(all.take(parts@.len() as int) =~= all);
}

impl CloudflareError {
    /// The text of the error, as the interface shows it.
    pub fn to_string(&self) -> (s: String)
        ensures
            s@ == error_text(*self),
    {
        match self {
            CloudflareError::ApiError { code, message } => {
                let mut s = String::from_str("API error: ");
                s.append(message.as_str());
                s.append(" (code: ");
                push_int(&mut s, *code);
                s.append(")");
                s
            },
            CloudflareError::ApiErrors(list) => {
                let mut s = String::from_str("API errors: ");
                push_joined(&mut s, list, ", ");
                s
            },
            CloudflareError::HttpError { status, body } => {
                let mut s = String::from_str("HTTP request failed with status ");
                push_decimal(&mut s, *status as u64);
                s.append(": ");
                s.append(body.as_str());
                s
            },
            CloudflareError::ParseError(m) => {
                let mut s = String::from_str("Failed to parse API response: ");
                s.append(m.as_str());
                s
            },
            CloudflareError::RequestError(m) => {
                let mut s = String::from_str("Failed to send request: ");
                s.append(m.as_str());
                s
            },
            CloudflareError::MissingRecordId => String::from_str(
                "Cannot update record: no ID provided",
            ),
            CloudflareError::NoResult => String::from_str("No result returned from API"),
        }
    }
}

} // verus!
