use crate::model::emoji::Emoji;
use crate::model::role::Role;
use crate::model::sticker::Sticker;
use crate::snowflake::Snowflake;
use vstd::prelude::*;

verus! {

/// A guild.
#[derive(Debug)]
pub struct Guild {
    pub id: Snowflake,
    pub name: String,
    pub icon: Option<String>,
    pub icon_hash: Option<String>,
    pub splash: Option<String>,
    pub discovery_splash: Option<String>,
    pub owner: Option<bool>,
    pub owner_id: Snowflake,
    pub permissions: Option<String>,
    pub afk_channel_id: Option<Snowflake>,
    pub afk_timeout: i32,
    pub widget_enabled: bool,
    pub widget_channel_id: Option<Snowflake>,
    pub verification_level: i32,
    pub default_message_notifications: i32,
    pub explicit_content_filter: i32,
    pub roles: Vec<Role>,
    pub emojis: Vec<Emoji>,
    pub features: Vec<String>,
    pub mfa_level: i32,
    pub application_id: Option<Snowflake>,
    pub system_channel_id: Option<Snowflake>,
    pub system_channel_flags: i32,
    pub rules_channel_id: Option<Snowflake>,
    pub max_presences: Option<i32>,
    pub max_members: Option<i32>,
    pub vanity_url_code: Option<String>,
    pub description: Option<String>,
    pub banner: Option<String>,
    pub premium_tier: i32,
    pub premium_subscription_count: Option<i32>,
    pub preferred_locale: String,
    pub public_updates_channel_id: Option<Snowflake>,
    pub max_video_channel_users: Option<i32>,
    pub approximate_member_count: Option<i32>,
    pub approximate_presence_count: Option<i32>,
    pub nsfw_level: i32,
    pub stickers: Vec<Sticker>,
    pub premium_progress_bar_enabled: bool,
}

impl Clone for Guild {
    fn clone(&self) -> (g: Self)
        ensures
            g.id == self.id,
            g.name == self.name,
            g.owner_id == self.owner_id,
    {
        Guild {
            id: self.id,
            name: self.name.clone(),
            icon: self.icon.clone(),
            icon_hash: self.icon_hash.clone(),
            splash: self.splash.clone(),
            discovery_splash: self.discovery_splash.clone(),
            owner: self.owner,
            owner_id: self.owner_id,
            permissions: self.permissions.clone(),
            afk_channel_id: self.afk_channel_id,
            afk_timeout: self.afk_timeout,
            widget_enabled: self.widget_enabled,
            widget_channel_id: self.widget_channel_id,
            verification_level: self.verification_level,
            default_message_notifications: self.default_message_notifications,
            explicit_content_filter: self.explicit_content_filter,
            roles: self.roles.clone(),
            emojis: self.emojis.clone(),
            features: self.features.clone(),
            mfa_level: self.mfa_level,
            application_id: self.application_id,
            system_channel_id: self.system_channel_id,
            system_channel_flags: self.system_channel_flags,
            rules_channel_id: self.rules_channel_id,
            max_presences: self.max_presences,
            max_members: self.max_members,
            vanity_url_code: self.vanity_url_code.clone(),
            description: self.description.clone(),
            banner: self.banner.clone(),
            premium_tier: self.premium_tier,
            premium_subscription_count: self.premium_subscription_count,
            preferred_locale: self.preferred_locale.clone(),
            public_updates_channel_id: self.public_updates_channel_id,
            max_video_channel_users: self.max_video_channel_users,
            approximate_member_count: self.approximate_member_count,
            approximate_presence_count: self.approximate_presence_count,
            nsfw_level: self.nsfw_level,
            stickers: self.stickers.clone(),
            premium_progress_bar_enabled: self.premium_progress_bar_enabled,
        }
    }
}


#[derive(Debug, Clone)]
pub struct UnavailableGuild {
    pub id: Snowflake,
    pub unavailable: bool,
}

#[derive(Debug, Clone)]
pub struct PartialGuild {
    pub id: Snowflake,
    pub name: String,
    pub icon: Option<String>,
    pub owner: Option<bool>,
    pub permissions: Option<String>,
}

} // verus!
