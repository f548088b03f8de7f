//! The errors that the library reports.

use vstd::prelude::*;
use vstd::string::StringExecFns;

verus! {

/// An error of the library, by kind.
#[derive(Debug)]
pub enum DiscordError {
    /// Bad gateway URL, failed send, resume without a session, protocol error.
    Gateway(String),
    /// Transport failure, or a response that is neither a success nor a retry.
    Http(String),
    /// A rate-limited request that cannot be tried again.
    RateLimit,
    /// A value that could not be decoded or encoded.
    Serialization(String),
    /// A header value or token that is not acceptable.
    Validation(String),
    /// The token was refused.
    InvalidToken,
    /// The shards could not be planned.
    Sharding(String),
    /// A setting that the operation needs is missing.
    Configuration(String),
}

/// A `DiscordError` with its messages as sequences of characters.
pub enum ErrorView {
    Gateway(Seq<char>),
    Http(Seq<char>),
    RateLimit,
    Serialization(Seq<char>),
    Validation(Seq<char>),
    InvalidToken,
    Sharding(Seq<char>),
    Configuration(Seq<char>),
}

impl View for DiscordError {
    type V = ErrorView;

    open spec fn view(&self) -> ErrorView {
        match self {
            DiscordError::Gateway(m) => ErrorView::Gateway(m@),
            DiscordError::Http(m) => ErrorView::Http(m@),
            DiscordError::RateLimit => ErrorView::RateLimit,
            DiscordError::Serialization(m) => ErrorView::Serialization(m@),
            DiscordError::Validation(m) => ErrorView::Validation(m@),
            DiscordError::InvalidToken => ErrorView::InvalidToken,
            DiscordError::Sharding(m) => ErrorView::Sharding(m@),
            DiscordError::Configuration(m) => ErrorView::Configuration(m@),
        }
    }
}

impl ErrorView {
    /// The line of text that describes the error.
    pub open spec fn text(self) -> Seq<char> {
        match self {
            ErrorView::Gateway(m) => "Gateway error: "@ + m,
            ErrorView::Http(m) => "HTTP error: "@ + m,
            ErrorView::RateLimit => "Rate limit exceeded"@,
            ErrorView::Serialization(m) => "Serialization error: "@ + m,
            ErrorView::Validation(m) => "Validation error: "@ + m,
            ErrorView::InvalidToken => "Invalid token"@,
            ErrorView::Sharding(m) => "Sharding error: "@ + m,
            ErrorView::Configuration(m) => "Configuration error: "@ + m,
        }
    }
}

/// `prefix` followed by `rest`.
pub fn joined(prefix: &str, rest: &str) -> (s: String)
    ensures
        s@ == prefix@ + rest@,
{
    let mut s = String::from_str(prefix);
    s.append(rest);
    s
}

impl DiscordError {
    /// The line of text that describes the error.
    pub fn to_text(&self) -> (s: String)
        ensures
            s@ == self@.text(),
    {
        match self {
            DiscordError::Gateway(m) => joined("Gateway error: ", m.as_str()),
            DiscordError::Http(m) => joined("HTTP error: ", m.as_str()),
            DiscordError::RateLimit => String::from_str("Rate limit exceeded"),
            DiscordError::Serialization(m) => joined("Serialization error: ", m.as_str()),
            DiscordError::Validation(m) => joined("Validation error: ", m.as_str()),
            DiscordError::InvalidToken => String::from_str("Invalid token"),
            DiscordError::Sharding(m) => joined("Sharding error: ", m.as_str()),
            DiscordError::Configuration(m) => joined("Configuration error: ", m.as_str()),
        }
    }
}

} // verus!
