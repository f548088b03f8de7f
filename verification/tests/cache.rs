use discord_rs::cache::update_cache_from_event;
use discord_rs::cache::user_of;
use discord_rs::cache::Cache;
use discord_rs::model::event::Event;
use discord_rs::model::gateway::CurrentUser;
use discord_rs::model::gateway::Ready;
use discord_rs::model::member::Member;
use discord_rs::model::message::Message;
use discord_rs::model::message::MessageType;
use discord_rs::model::user::User;
use discord_rs::snowflake::Snowflake;
use std::sync::Arc;

fn user(id: u64, name: &str) -> User {
    User {
        id: Snowflake(id),
        username: name.to_string(),
        discriminator: "0".to_string(),
        global_name: None,
        avatar: None,
        bot: false,
        system: false,
        mfa_enabled: false,
        banner: None,
        accent_color: None,
        locale: None,
        verified: false,
        email: None,
        flags: 0,
        premium_type: 0,
        public_flags: 0,
    }
}

fn member(user: Option<User>, nick: &str) -> Member {
    Member {
        user,
        nick: Some(nick.to_string()),
        avatar: None,
        roles: vec![Snowflake(8)],
        joined_at: "2020".to_string(),
        premium_since: None,
        deaf: false,
        mute: true,
        flags: 0,
        pending: false,
        permissions: None,
        communication_disabled_until: None,
    }
}

fn message(author: User, guild_id: Option<u64>, member: Option<Member>) -> Message {
    Message {
        id: Snowflake(100),
        channel_id: Snowflake(200),
        guild_id: guild_id.map(Snowflake),
        author,
        member,
        content: "hi".to_string(),
        timestamp: "now".to_string(),
        edited_timestamp: None,
        tts: false,
        mention_everyone: false,
        mentions: Vec::new(),
        mention_roles: Vec::new(),
        mention_channels: Vec::new(),
        attachments: Vec::new(),
        embeds: Vec::new(),
        reactions: Vec::new(),
        nonce: None,
        pinned: false,
        webhook_id: None,
        kind: MessageType::Default,
        activity: None,
        application: None,
        application_id: None,
        message_reference: None,
        flags: 0,
        referenced_message: None,
        interaction: None,
        thread: None,
        components: Vec::new(),
        sticker_items: Vec::new(),
        stickers: Vec::new(),
        position: None,
        role_subscription_data: None,
    }
}

#[test]
fn users_are_kept_under_their_id() {
    let mut cache = Cache::new();
    assert!(cache.user(Snowflake(1)).is_none());
    let held = cache.update_user(user(1, "a"));
    assert_eq!(held.username, "a");
    let found = cache.user(Snowflake(1)).unwrap();
    assert!(Arc::ptr_eq(&held, &found));
    assert!(cache.user(Snowflake(2)).is_none());
    assert!(cache.guild(Snowflake(1)).is_none());
    assert!(cache.channel(Snowflake(1)).is_none());
    assert!(cache.member(Snowflake(1), Snowflake(0)).is_none());
    cache.update_user(user(1, "b"));
    assert_eq!(cache.user(Snowflake(1)).unwrap().username, "b");
    assert_eq!(held.username, "a");
}

#[test]
fn members_need_a_user() {
    let mut cache = Cache::new();
    assert!(cache.update_member(Snowflake(5), member(None, "n")).is_none());
    assert!(cache.member(Snowflake(5), Snowflake(1)).is_none());
    let held = cache.update_member(Snowflake(5), member(Some(user(1, "a")), "n")).unwrap();
    assert_eq!(held.nick.as_deref(), Some("n"));
    assert!(cache.member(Snowflake(5), Snowflake(1)).is_some());
    assert!(cache.member(Snowflake(1), Snowflake(5)).is_none());
    assert!(cache.member(Snowflake(6), Snowflake(1)).is_none());
    assert!(cache.user(Snowflake(1)).is_none());
}

#[test]
fn ready_brings_the_current_user() {
    let mut cache = Cache::new();
    let current = CurrentUser {
        id: Snowflake(9),
        username: "bot".to_string(),
        discriminator: "1234".to_string(),
        bot: true,
    };
    let made = user_of(&current);
    assert_eq!((made.id, made.username.as_str(), made.bot), (Snowflake(9), "bot", true));
    let event = Event::Ready(Ready {
        v: 10,
        user: current,
        guilds: Vec::new(),
        session_id: "s".to_string(),
        resume_gateway_url: "wss://r".to_string(),
    });
    update_cache_from_event(&mut cache, &event);
    let held = cache.user(Snowflake(9)).unwrap();
    assert_eq!(held.username, "bot");
    assert_eq!(held.discriminator, "1234");
    assert!(held.bot);
}

#[test]
fn messages_bring_author_and_member() {
    let mut cache = Cache::new();
    let event = Event::MessageCreate(Box::new(message(user(1, "a"), Some(5), Some(member(None, "nick")))));
    update_cache_from_event(&mut cache, &event);
    assert_eq!(cache.user(Snowflake(1)).unwrap().username, "a");
    let held = cache.member(Snowflake(5), Snowflake(1)).unwrap();
    assert_eq!(held.nick.as_deref(), Some("nick"));
    assert_eq!(held.user.as_ref().unwrap().username, "a");
    assert_eq!(held.roles, vec![Snowflake(8)]);
    assert!(held.mute);

    let mut cache = Cache::new();
    let direct = Event::MessageCreate(Box::new(message(user(2, "b"), None, Some(member(None, "n")))));
    update_cache_from_event(&mut cache, &direct);
    assert!(cache.user(Snowflake(2)).is_some());
    assert!(cache.member(Snowflake(5), Snowflake(2)).is_none());

    let mut cache = Cache::new();
    let update = Event::MessageUpdate(Box::new(message(user(3, "c"), Some(5), None)));
    update_cache_from_event(&mut cache, &update);
    assert!(cache.user(Snowflake(3)).is_none());
    update_cache_from_event(&mut cache, &Event::Unknown);
    assert!(cache.user(Snowflake(3)).is_none());
}
