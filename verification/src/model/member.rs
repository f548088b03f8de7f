use crate::model::user::User;
use crate::snowflake::Snowflake;
use vstd::prelude::*;

verus! {

/// A member of a guild.
#[derive(Debug)]
pub struct Member {
    pub user: Option<User>,
    pub nick: Option<String>,
    pub avatar: Option<String>,
    pub roles: Vec<Snowflake>,
    pub joined_at: String,
    pub premium_since: Option<String>,
    pub deaf: bool,
    pub mute: bool,
    pub flags: i32,
    pub pending: bool,
    pub permissions: Option<String>,
    pub communication_disabled_until: Option<String>,
}

impl Member {
    /// Whether two members agree in all but the user.
    pub open spec fn same_but_user(self, other: Member) -> bool {
        &&& self.nick == other.nick
        &&& self.avatar == other.avatar
        &&& self.roles@ == other.roles@
        &&& self.joined_at == other.joined_at
        &&& self.premium_since == other.premium_since
        &&& self.deaf == other.deaf
        &&& self.mute == other.mute
        &&& self.flags == other.flags
        &&& self.pending == other.pending
        &&& self.permissions == other.permissions
        &&& self.communication_disabled_until == other.communication_disabled_until
    }
}

impl Clone for Member {
    fn clone(&self) -> (m: Self)
        ensures
            m.user == self.user,
            m.same_but_user(*self),
    {
        let roles = self.roles.clone();
        assert(roles@ =~= self.roles@);
        Member {
            user: match &self.user {
                Some(u) => Some(u.clone()),
                None => None,
            },
            nick: self.nick.clone(),
            avatar: self.avatar.clone(),
            roles,
            joined_at: self.joined_at.clone(),
            premium_since: self.premium_since.clone(),
            deaf: self.deaf,
            mute: self.mute,
            flags: self.flags,
            pending: self.pending,
            permissions: self.permissions.clone(),
            communication_disabled_until: self.communication_disabled_until.clone(),
        }
    }
}

} // verus!
