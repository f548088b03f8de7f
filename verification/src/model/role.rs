use crate::snowflake::Snowflake;
use serde_json::Value;
use vstd::prelude::*;

verus! {

#[derive(Debug, Clone)]
pub struct Role {
    pub id: Snowflake,
    pub name: String,
    pub color: u32,
    pub hoist: bool,
    pub icon: Option<String>,
    pub unicode_emoji: Option<String>,
    pub position: i32,
    pub permissions: String,
    pub managed: bool,
    pub mentionable: bool,
    pub tags: Option<RoleTags>,
}

#[derive(Debug, Clone)]
pub struct RoleTags {
    pub bot_id: Option<Snowflake>,
    pub integration_id: Option<Snowflake>,
    pub premium_subscriber: Option<Value>,
    pub subscription_listing_id: Option<Snowflake>,
    pub available_for_purchase: Option<Value>,
    pub guild_connections: Option<Value>,
}

} // verus!
