//! The cache of entities that events bring: users, guilds, channels and
//! members, each under its identifier.

use crate::model::channel::Channel;
use crate::model::event::Event;
use crate::model::gateway::CurrentUser;
use crate::model::guild::Guild;
use crate::model::member::Member;
use crate::model::user::User;
use crate::snowflake::Snowflake;
use dashmap::DashMap;
use std::collections::hash_map::RandomState;
use std::sync::Arc;
use vstd::prelude::*;

verus! {

/// The kind of entry that holds a user.
pub const USER: u8 = 0;

/// The kind of entry that holds a guild.
pub const GUILD: u8 = 1;

/// The kind of entry that holds a channel.
pub const CHANNEL: u8 = 2;

/// The kind of entry that holds a member of a guild.
pub const MEMBER: u8 = 3;

/// One entry of the cache.
#[derive(Debug, Clone)]
pub enum Entry {
    User(Arc<User>),
    Guild(Arc<Guild>),
    Channel(Arc<Channel>),
    Member(Arc<Member>),
}

/// The key of the user `id`.
pub open spec fn user_key(id: Snowflake) -> (u8, u64, u64) {
    (USER, id.0, 0u64)
}

/// The key of the guild `id`.
pub open spec fn guild_key(id: Snowflake) -> (u8, u64, u64) {
    (GUILD, id.0, 0u64)
}

/// The key of the channel `id`.
pub open spec fn channel_key(id: Snowflake) -> (u8, u64, u64) {
    (CHANNEL, id.0, 0u64)
}

/// The key of the member `user_id` of the guild `guild_id`.
pub open spec fn member_key(guild_id: Snowflake, user_id: Snowflake) -> (u8, u64, u64) {
    (MEMBER, guild_id.0, user_id.0)
}

/// The entries that a store holds, by their keys.
pub uninterp spec fn entries(store: DashMap<(u8, u64, u64), Entry, RandomState>) -> Map<
    (u8, u64, u64),
    Entry,
>;

/// No entry at all.
pub open spec fn no_entries() -> Map<(u8, u64, u64), Entry> {
    Map::empty()
}

/// `DashMap::new` of the crate `dashmap`: a map that holds nothing.
#[verifier::external_body]
fn new_store() -> (made: DashMap<(u8, u64, u64), Entry, RandomState>)
    ensures
        entries(made) == no_entries(),
{
    DashMap::new()
}

/// `DashMap::get` of the crate `dashmap`: the entry under `key`, if the
/// map holds one. The entry that is handed out shares what it points to
/// with the one that is held.
#[verifier::external_body]
fn store_get(store: &DashMap<(u8, u64, u64), Entry, RandomState>, key: (u8, u64, u64)) -> (r:
    Option<Entry>)
    ensures
        match r {
            Some(entry) => entries(*store).contains_key(key) && entries(*store)[key] == entry,
            None => !entries(*store).contains_key(key),
        },
{
    store.get(&key).map(|held| held.value().clone())
}

/// `DashMap::insert` of the crate `dashmap`: the map then holds `entry`
/// under `key`, in place of what it held there, and the rest as before.
#[verifier::external_body]
fn store_put(store: &mut DashMap<(u8, u64, u64), Entry, RandomState>, key: (u8, u64, u64), entry: Entry)
    ensures
        entries(*final(store)) == entries(*old(store)).insert(key, entry),
{
    store.insert(key, entry);
}

/// `Arc::clone` of the standard library: another handle to the same
/// value.
#[verifier::external_body]
fn share<T>(handle: &Arc<T>) -> (r: Arc<T>)
    ensures
        r == *handle,
{
    Arc::clone(handle)
}

/// The cache.
pub struct Cache {
    store: DashMap<(u8, u64, u64), Entry, RandomState>,
}

impl View for Cache {
    type V = Map<(u8, u64, u64), Entry>;

    closed spec fn view(&self) -> Map<(u8, u64, u64), Entry> {
        entries(self.store)
    }
}

/// The user that READY names as the one the session runs as.
pub fn user_of(current: &CurrentUser) -> (u: User)
    ensures
        u.id == current.id,
        u.username == current.username,
        u.discriminator == current.discriminator,
        u.bot == current.bot,
        u.global_name is None,
        u.avatar is None,
        !u.system,
        !u.mfa_enabled,
        u.banner is None,
        u.accent_color is None,
        u.locale is None,
        !u.verified,
        u.email is None,
        u.flags == 0,
        u.premium_type == 0,
        u.public_flags == 0,
{
    User {
        id: current.id,
        username: current.username.clone(),
        discriminator: current.discriminator.clone(),
        global_name: None,
        avatar: None,
        bot: current.bot,
        system: false,
        mfa_enabled: false,
        banner: None,
        accent_color: None,
        locale: None,
        verified: false,
        email: None,
        flags: 0,
        premium_type: 0,
        public_flags: 0,
    }
}

impl Cache {
    /// A cache that holds nothing.
    pub fn new() -> (c: Self)
        ensures
            c@ == no_entries(),
    {
        Cache { store: new_store() }
    }

    /// Caches a user under its identifier, in place of what was known of
    /// that user.
    pub fn update_user(&mut self, user: User) -> (held: Arc<User>)
        ensures
            *held == user,
            final(self)@ == old(self)@.insert(user_key(user.id), Entry::User(held)),
    {
        let key = (USER, user.id.0, 0u64);
        let held = Arc::new(user);
        store_put(&mut self.store, key, Entry::User(share(&held)));
        held
    }

    /// Caches a guild under its identifier.
    pub fn update_guild(&mut self, guild: Guild) -> (held: Arc<Guild>)
        ensures
            *held == guild,
            final(self)@ == old(self)@.insert(guild_key(guild.id), Entry::Guild(held)),
    {
        let key = (GUILD, guild.id.0, 0u64);
        let held = Arc::new(guild);
        store_put(&mut self.store, key, Entry::Guild(share(&held)));
        held
    }

    /// Caches a channel under its identifier.
    pub fn update_channel(&mut self, channel: Channel) -> (held: Arc<Channel>)
        ensures
            *held == channel,
            final(self)@ == old(self)@.insert(channel_key(channel.id), Entry::Channel(held)),
    {
        let key = (CHANNEL, channel.id.0, 0u64);
        let held = Arc::new(channel);
        store_put(&mut self.store, key, Entry::Channel(share(&held)));
        held
    }

    /// Caches a member of the guild `guild_id` under the identifier of
    /// its user. A member without a user cannot be cached: nothing
    /// changes then.
    pub fn update_member(&mut self, guild_id: Snowflake, member: Member) -> (r: Option<Arc<Member>>)
        ensures
            match member.user {
                Some(user) => r matches Some(held) && *held == member && final(self)@ == old(
                    self,
                )@.insert(member_key(guild_id, user.id), Entry::Member(held)),
                None => r is None && final(self)@ == old(self)@,
            },
    {
        let user_id = match &member.user {
            Some(user) => user.id,
            None => {
                return None;
            },
        };
        let key = (MEMBER, guild_id.0, user_id.0);
        let held = Arc::new(member);
        store_put(&mut self.store, key, Entry::Member(share(&held)));
        Some(held)
    }

    /// The user `id`, if it is cached.
    pub fn user(&self, id: Snowflake) -> (r: Option<Arc<User>>)
        ensures
            r == match self@.get(user_key(id)) {
                Some(Entry::User(held)) => Some(held),
                _ => None,
            },
    {
        match store_get(&self.store, (USER, id.0, 0u64)) {
            Some(Entry::User(held)) => Some(held),
            _ => None,
        }
    }

    /// The guild `id`, if it is cached.
    pub fn guild(&self, id: Snowflake) -> (r: Option<Arc<Guild>>)
        ensures
            r == match self@.get(guild_key(id)) {
                Some(Entry::Guild(held)) => Some(held),
                _ => None,
            },
    {
        match store_get(&self.store, (GUILD, id.0, 0u64)) {
            Some(Entry::Guild(held)) => Some(held),
            _ => None,
        }
    }

    /// The channel `id`, if it is cached.
    pub fn channel(&self, id: Snowflake) -> (r: Option<Arc<Channel>>)
        ensures
            r == match self@.get(channel_key(id)) {
                Some(Entry::Channel(held)) => Some(held),
                _ => None,
            },
    {
        match store_get(&self.store, (CHANNEL, id.0, 0u64)) {
            Some(Entry::Channel(held)) => Some(held),
            _ => None,
        }
    }

    /// The member `user_id` of the guild `guild_id`, if it is cached.
    pub fn member(&self, guild_id: Snowflake, user_id: Snowflake) -> (r: Option<Arc<Member>>)
        ensures
            r == match self@.get(member_key(guild_id, user_id)) {
                Some(Entry::Member(held)) => Some(held),
                _ => None,
            },
    {
        match store_get(&self.store, (MEMBER, guild_id.0, user_id.0)) {
            Some(Entry::Member(held)) => Some(held),
            _ => None,
        }
    }
}

/// Takes into the cache what an event brings. READY brings the user that
/// the session runs as. A new guild is cached. A new message brings its
/// author, and where it comes from a guild and names the author as a
/// member, that member with the author as its user. Other events bring
/// nothing.
pub fn update_cache_from_event(cache: &mut Cache, event: &Event)
    ensures
        match *event {
            Event::Ready(ready) => {
                &&& final(cache)@.dom() == old(cache)@.dom().insert(user_key(ready.user.id))
                &&& match final(cache)@[user_key(ready.user.id)] {
                    Entry::User(held) => held.id == ready.user.id && held.username
                        == ready.user.username && held.discriminator == ready.user.discriminator
                        && held.bot == ready.user.bot,
                    _ => false,
                }
                &&& forall|k: (u8, u64, u64)|
                    k != user_key(ready.user.id) && old(cache)@.contains_key(k) ==> final(cache)@[k] == old(cache)@[k]
            },
            Event::GuildCreate(guild) => {
                &&& final(cache)@.dom() == old(cache)@.dom().insert(guild_key(guild.id))
                &&& match final(cache)@[guild_key(guild.id)] {
                    Entry::Guild(held) => held.id == guild.id && held.name == guild.name
                        && held.owner_id == guild.owner_id,
                    _ => false,
                }
                &&& forall|k: (u8, u64, u64)|
                    k != guild_key(guild.id) && old(cache)@.contains_key(k) ==> final(cache)@[k]
                        == old(cache)@[k]
            },
            Event::MessageCreate(msg) => {
                let cached_member = msg.guild_id is Some && msg.member is Some;
                &&& final(cache)@[user_key(msg.author.id)] matches Entry::User(held) && *held
                    == msg.author
                &&& cached_member ==> (final(cache)@[member_key(msg.guild_id->0, msg.author.id)]
                    matches Entry::Member(held) && held.user == Some(msg.author)
                    && held.same_but_user(msg.member->0))
                &&& final(cache)@.dom() == if cached_member {
                    old(cache)@.dom().insert(user_key(msg.author.id)).insert(
                        member_key(msg.guild_id->0, msg.author.id),
                    )
                } else {
                    old(cache)@.dom().insert(user_key(msg.author.id))
                }
                &&& forall|k: (u8, u64, u64)|
                    k != user_key(msg.author.id) && (!cached_member || k != member_key(
                        msg.guild_id->0,
                        msg.author.id,
                    )) && old(cache)@.contains_key(k) ==> final(cache)@[k] == old(cache)@[k]
            },
            _ => final(cache)@ == old(cache)@,
        },
{
    match event {
        Event::Ready(ready) => {
            cache.update_user(user_of(&ready.user));
        },
        Event::GuildCreate(guild) => {
            cache.update_guild(guild.clone());
        },
        Event::MessageCreate(msg) => {
            cache.update_user(msg.author.clone());
            match (msg.guild_id, &msg.member) {
                (Some(guild_id), Some(member)) => {
                    let mut member = member.clone();
                    member.user = Some(msg.author.clone());
                    cache.update_member(guild_id, member);
                },
                _ => {},
            }
        },
        _ => {},
    }
}

} // verus!
