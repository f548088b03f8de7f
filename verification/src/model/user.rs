use crate::snowflake::Snowflake;
use vstd::prelude::*;

verus! {

/// A user of the platform.
#[derive(Debug)]
pub struct User {
    pub id: Snowflake,
    pub username: String,
    pub discriminator: String,
    pub global_name: Option<String>,
    pub avatar: Option<String>,
    pub bot: bool,
    pub system: bool,
    pub mfa_enabled: bool,
    pub banner: Option<String>,
    pub accent_color: Option<u32>,
    pub locale: Option<String>,
    pub verified: bool,
    pub email: Option<String>,
    pub flags: u64,
    pub premium_type: u8,
    pub public_flags: u64,
}

impl Clone for User {
    fn clone(&self) -> (u: Self)
        ensures
            u == *self,
    {
        User {
            id: self.id,
            username: self.username.clone(),
            discriminator: self.discriminator.clone(),
            global_name: self.global_name.clone(),
            avatar: self.avatar.clone(),
            bot: self.bot,
            system: self.system,
            mfa_enabled: self.mfa_enabled,
            banner: self.banner.clone(),
            accent_color: self.accent_color,
            locale: self.locale.clone(),
            verified: self.verified,
            email: self.email.clone(),
            flags: self.flags,
            premium_type: self.premium_type,
            public_flags: self.public_flags,
        }
    }
}

/// What is known of a user where only a part is sent.
#[derive(Debug, Clone)]
pub struct PartialUser {
    pub id: Snowflake,
    pub username: Option<String>,
    pub discriminator: Option<String>,
    pub avatar: Option<String>,
}

} // verus!
