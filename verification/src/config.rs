//! The settings that every component shares.

use crate::snowflake::Snowflake;
use vstd::prelude::*;
use vstd::string::StringExecFns;

verus! {

/// Process-wide settings: the authentication token and, where the
/// application needs it, its identifier.
#[derive(Debug)]
pub struct Config {
    pub token: String,
    pub application_id: Option<Snowflake>,
}

impl Config {
    /// Settings with the given token and no application identifier.
    pub fn new(token: &str) -> (c: Self)
        ensures
            c.token@ == token@,
            c.application_id is None,
    {
        Self { token: String::from_str(token), application_id: None }
    }
}

impl Clone for Config {
    fn clone(&self) -> (c: Self)
        ensures
            c == *self,
    {
        Self { token: self.token.clone(), application_id: self.application_id }
    }
}

} // verus!
