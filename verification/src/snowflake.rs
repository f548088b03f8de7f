//! 64-bit identifiers and their decimal notation on the wire.

use crate::error::DiscordError;
use crate::error::ErrorView;
use crate::text::decimal_digits;
use crate::text::format_u64;
use crate::text::lemma_parse_decimal_u64;
use crate::text::parse_u64;
use crate::text::parse_u64_spec;
use crate::text::push_decimal;
use crate::text::chars_of;
use crate::text::string_of;
use vstd::prelude::*;
use vstd::std_specs::convert::FromSpecImpl;
use vstd::string::StringExecFns;

verus! {

/// A 64-bit identifier. On the wire it is a decimal string; a JSON number is
/// read as well.
#[derive(Clone, Copy, Debug, PartialEq, Eq, Structural, Hash, PartialOrd, Ord)]
pub struct Snowflake(pub u64);

/// The JSON string token that holds the decimal notation of `id`.
pub open spec fn json_string_of(id: u64) -> Seq<char> {
    seq!['"'] + decimal_digits(id as nat) + seq!['"']
}

/// The identifier that a JSON token denotes: a decimal number, bare or
/// between double quotes.
pub open spec fn json_snowflake(token: Seq<char>) -> Option<u64> {
    if token.len() >= 2 && token[0] == '"' && token.last() == '"' {
        parse_u64_spec(token.subrange(1, token.len() - 1))
    } else {
        parse_u64_spec(token)
    }
}

impl Snowflake {
    /// The identifier with the given value.
    pub fn new(id: u64) -> (s: Self)
        ensures
            s.0 == id,
    {
        Snowflake(id)
    }

    /// The decimal notation of the identifier.
    pub fn to_text(&self) -> (s: String)
        ensures
            s@ == decimal_digits(self.0 as nat),
    {
        format_u64(self.0)
    }

    /// Reads the decimal notation of an identifier.
    pub fn parse(text: &str) -> (r: Result<Snowflake, DiscordError>)
        ensures
            match parse_u64_spec(text@) {
                Some(id) => r == Ok::<Snowflake, DiscordError>(Snowflake(id)),
                None => r is Err && r->Err_0@ == ErrorView::Serialization(
                    "invalid snowflake: "@ + text@,
                ),
            },
    {
        match parse_u64(text) {
            Some(id) => Ok(Snowflake(id)),
            None => {
                let mut m = String::from_str("invalid snowflake: ");
                m.append(text);
                Err(DiscordError::Serialization(m))
            },
        }
    }

    /// The JSON token for the identifier: its decimal notation as a string.
    pub fn to_json(&self) -> (s: String)
        ensures
            s@ == json_string_of(self.0),
    {
        let mut s = String::new();
        s.push('"');
        push_decimal(&mut s, self.0);
        s.push('"');
        assert(s@ =~= json_string_of(self.0));
        s
    }

    /// Reads an identifier from a JSON token, which is a string that holds a
    /// decimal number, or a number.
    pub fn from_json(token: &str) -> (r: Option<Snowflake>)
        ensures
            r == match json_snowflake(token@) {
                Some(id) => Some(Snowflake(id)),
                None => None,
            },
    {
        let v = chars_of(token);
        let n = v.len();
        let parsed = if n >= 2 && v[0] == '"' && v[n - 1] == '"' {
            let inner = string_of(&v, 1, n - 1);
            parse_u64(inner.as_str())
        } else {
            parse_u64(token)
        };
        match parsed {
            Some(id) => Some(Snowflake(id)),
            None => None,
        }
    }
}

impl From<u64> for Snowflake {
    fn from(id: u64) -> (s: Snowflake) {
        Snowflake(id)
    }
}

impl FromSpecImpl<u64> for Snowflake {
    open spec fn obeys_from_spec() -> bool {
        true
    }

    open spec fn from_spec(id: u64) -> Snowflake {
        Snowflake(id)
    }
}

impl From<Snowflake> for u64 {
    fn from(s: Snowflake) -> (id: u64) {
        s.0
    }
}

impl FromSpecImpl<Snowflake> for u64 {
    open spec fn obeys_from_spec() -> bool {
        true
    }

    open spec fn from_spec(s: Snowflake) -> u64 {
        s.0
    }
}

/// An identifier survives the wire: reading back what was written for it,
/// as a JSON string or as a JSON number, gives the identifier again.
pub proof fn law_snowflake_round_trip(id: u64)
    ensures
        parse_u64_spec(decimal_digits(id as nat)) == Some(id),
        json_snowflake(json_string_of(id)) == Some(id),
        json_snowflake(decimal_digits(id as nat)) == Some(id),
{
    lemma_parse_decimal_u64(id);
    let digits = decimal_digits(id as nat);
    crate::text::lemma_decimal_digits(id as nat);
    let quoted = json_string_of(id);
    assert(quoted.subrange(1, quoted.len() - 1) =~= digits);
    assert(quoted[0] == '"');
    assert(quoted.last() == '"');
    assert(crate::text::is_digit(digits[0]));
    assert(crate::text::is_digit(digits.last()));
}

} // verus!
