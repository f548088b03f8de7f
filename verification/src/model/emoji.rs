use crate::model::user::User;
use crate::snowflake::Snowflake;
use vstd::prelude::*;

verus! {

#[derive(Debug, Clone)]
pub struct Emoji {
    pub id: Option<Snowflake>,
    pub name: Option<String>,
    pub roles: Vec<Snowflake>,
    pub user: Option<User>,
    pub require_colons: bool,
    pub managed: bool,
    pub animated: bool,
    pub available: bool,
}

} // verus!
