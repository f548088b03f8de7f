//! The structured error that the platform sends with a failed request.

use crate::text::decimal_digits;
use crate::text::push_decimal;
use vstd::prelude::*;
use vstd::string::StringExecFns;

verus! {

/// An error of the platform: its code, its message and, where the
/// platform gave any, its details as text.
#[derive(Debug)]
pub struct DiscordApiError {
    pub code: u64,
    pub message: String,
    pub errors: Option<String>,
}

/// The line of text that describes an error of the platform.
pub open spec fn api_error_text(code: u64, message: Seq<char>, errors: Option<Seq<char>>) -> Seq<
    char,
> {
    let head = "Discord API Error "@ + decimal_digits(code as nat) + ": "@ + message;
    match errors {
        Some(details) => head + " | Details: "@ + details,
        None => head,
    }
}

impl DiscordApiError {
    /// The line of text that describes the error.
    pub open spec fn text(&self) -> Seq<char> {
        api_error_text(
            self.code,
            self.message@,
            match self.errors {
                Some(e) => Some(e@),
                None => None,
            },
        )
    }

    /// The line of text that describes the error.
    pub fn to_text(&self) -> (s: String)
        ensures
            s@ == self.text(),
    {
        let mut s = String::from_str("Discord API Error ");
        push_decimal(&mut s, self.code);
        s.append(": ");
        s.append(self.message.as_str());
        match &self.errors {
            Some(details) => {
                s.append(" | Details: ");
                s.append(details.as_str());
            },
            None => {},
        }
        s
    }
}

} // verus!
