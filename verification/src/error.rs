//! Errors that the library reports.

use vstd::prelude::*;
use vstd::string::StringExecFns;

use crate::text::decimal;
use crate::text::decimal_text;

verus! {

/// A text was read that names no value of the type asked for.
#[derive(Debug, Clone, Copy, PartialEq, Eq, Structural)]
pub struct UnknownName;

impl UnknownName {
    /// The message of this error.
    pub fn to_string(&self) -> (text: String)
        ensures
            text@ == "Matching variant not found"@,
    {
        String::from_str("Matching variant not found")
    }
}

/// Why a URL could not be built.
#[derive(Debug, Clone, Copy, PartialEq, Eq, Structural)]
pub enum UrlError {
    /// The base and the pairs together are longer than a URL may be.
    TooLong,
    /// The base is not an absolute URL.
    Invalid,
}

/// Why a query was refused before anything was sent.
#[derive(Debug, Clone, Copy, PartialEq, Eq, Structural)]
pub enum QueryError {
    /// The query needs a profile ID and has none.
    MissingProfileId,
    /// The search has no text to search for.
    MissingQuery,
    /// The text to search for is shorter than three bytes; the field holds its length.
    QueryTooShort(usize),
    /// The query needs a leaderboard and has none.
    MissingLeaderboard,
    /// The `since` filter holds a point in time that the calendar cannot express.
    InvalidTimestamp,
    /// The URL of the query could not be built.
    Url(UrlError),
}

impl QueryError {
    /// The message of this error as a sequence of characters.
    pub open spec fn message_text(self) -> Seq<char> {
        match self {
            QueryError::MissingProfileId => "missing profile_id"@,
            QueryError::MissingQuery => "missing search query"@,
            QueryError::QueryTooShort(len) => {
                "search query must contain at least 3 characters, got "@ + decimal_text(len as nat)
            },
            QueryError::MissingLeaderboard => "missing leaderboard"@,
            QueryError::InvalidTimestamp => "since is out of range"@,
            QueryError::Url(UrlError::TooLong) => "query URL is too long"@,
            QueryError::Url(UrlError::Invalid) => "query URL is not valid"@,
        }
    }

    /// The message of this error.
    pub fn to_string(&self) -> (text: String)
        ensures
            text@ == self.message_text(),
    {
        match self {
            QueryError::MissingProfileId => String::from_str("missing profile_id"),
            QueryError::MissingQuery => String::from_str("missing search query"),
            QueryError::QueryTooShort(len) => {
                let mut text = String::from_str(
                    "search query must contain at least 3 characters, got ",
                );
                let digits = decimal(*len as u64);
                text.append(digits.as_str());
                text
            },
            QueryError::MissingLeaderboard => String::from_str("missing leaderboard"),
            QueryError::InvalidTimestamp => String::from_str("since is out of range"),
            QueryError::Url(UrlError::TooLong) => String::from_str("query URL is too long"),
            QueryError::Url(UrlError::Invalid) => String::from_str("query URL is not valid"),
        }
    }
}

/// Why a page could not be read.
#[derive(Debug, Clone, PartialEq, Eq)]
pub enum FetchError {
    /// The HTTP call could not be completed; the field holds the transport's message.
    Transport(String),
    /// The server answered with a status outside 200..=299; the field holds it.
    HttpStatus(u16),
    /// The body is not JSON of the expected shape; the field holds the decoder's message.
    Decode(String),
    /// The URL of the page could not be built.
    Url(UrlError),
}

} // verus!
