use discord_rs::error::DiscordError;
use discord_rs::intents::Intents;
use discord_rs::intents::GUILDS;
use discord_rs::intents::GUILD_MESSAGES;
use discord_rs::intents::MESSAGE_CONTENT;
use discord_rs::model::channel::ChannelType;
use discord_rs::model::component::ButtonStyle;
use discord_rs::model::component::ComponentType;
use discord_rs::model::gateway::OpCode;
use discord_rs::model::interaction::ApplicationCommandType;
use discord_rs::model::interaction::InteractionResponseType;
use discord_rs::model::interaction::InteractionType;
use discord_rs::model::message::MessageType;
use discord_rs::model::presence::ActivityType;
use discord_rs::model::sticker::StickerFormatType;
use discord_rs::model::sticker::StickerType;
use discord_rs::snowflake::Snowflake;
use discord_rs::text::format_u64;
use discord_rs::text::parse_i64;
use discord_rs::text::parse_u64;
use discord_rs::Config;

#[test]
fn test_snowflake_serialization() {
    let id = Snowflake(123456789);
    let json = id.to_json();
    assert_eq!(json, "\"123456789\"");
}

#[test]
fn snowflake_round_trips_as_string_and_number() {
    for id in [0u64, 1, 9, 10, 99, 100, 80351110224678912, u64::MAX - 1, u64::MAX] {
        let flake = Snowflake::new(id);
        assert_eq!(Snowflake::from_json(&flake.to_json()), Some(flake));
        assert_eq!(Snowflake::from_json(&flake.to_text()), Some(flake));
        assert_eq!(Snowflake::parse(&flake.to_text()).unwrap(), flake);
        assert_eq!(flake.to_text(), id.to_string());
        assert_eq!(u64::from(Snowflake::from(id)), id);
    }
}

#[test]
fn snowflake_refuses_what_is_no_number() {
    assert_eq!(Snowflake::from_json("\"80351110224678912\""), Some(Snowflake(80351110224678912)));
    assert_eq!(Snowflake::from_json("80351110224678912"), Some(Snowflake(80351110224678912)));
    assert_eq!(Snowflake::from_json("\"+5\""), Some(Snowflake(5)));
    assert_eq!(Snowflake::from_json("\"007\""), Some(Snowflake(7)));
    assert_eq!(Snowflake::from_json("\"\""), None);
    assert_eq!(Snowflake::from_json("\""), None);
    assert_eq!(Snowflake::from_json(""), None);
    assert_eq!(Snowflake::from_json("\"12"), None);
    assert_eq!(Snowflake::from_json("\"-1\""), None);
    assert_eq!(Snowflake::from_json("\"1.5\""), None);
    assert_eq!(Snowflake::from_json("18446744073709551616"), None);
    assert_eq!(Snowflake::from_json("null"), None);
    match Snowflake::parse("12x") {
        Err(e) => {
            assert!(matches!(e, DiscordError::Serialization(_)));
            assert_eq!(e.to_text(), "Serialization error: invalid snowflake: 12x");
        }
        Ok(_) => panic!("a number out of letters"),
    }
}

#[test]
fn decimal_numbers_are_read_as_the_standard_library_reads_them() {
    for text in [
        "", "+", "-", "0", "+0", "-0", "00012", "12", "+12", "-12", " 12", "12 ", "1_000", "0x10",
        "18446744073709551615", "18446744073709551616", "99999999999999999999999",
        "9223372036854775807", "9223372036854775808", "-9223372036854775808",
        "-9223372036854775809", "+-1", "--1", "1-", "\u{661}",
    ] {
        assert_eq!(parse_u64(text), text.parse::<u64>().ok(), "u64 from {:?}", text);
        assert_eq!(parse_i64(text), text.parse::<i64>().ok(), "i64 from {:?}", text);
    }
    assert_eq!(format_u64(0), "0");
    assert_eq!(format_u64(1234567890), "1234567890");
    assert_eq!(format_u64(u64::MAX), "18446744073709551615");
}

#[test]
fn op_codes_round_trip() {
    for code in 0..=u8::MAX {
        assert_eq!(u8::from(OpCode::from(code)), code);
        let known = matches!(code, 0 | 1 | 2 | 3 | 4 | 6 | 7 | 8 | 9 | 10 | 11);
        assert_eq!(OpCode::from(code) == OpCode::Unknown(code), !known);
    }
    assert_eq!(OpCode::from(0), OpCode::Dispatch);
    assert_eq!(OpCode::from(1), OpCode::Heartbeat);
    assert_eq!(OpCode::from(2), OpCode::Identify);
    assert_eq!(OpCode::from(3), OpCode::PresenceUpdate);
    assert_eq!(OpCode::from(4), OpCode::VoiceStateUpdate);
    assert_eq!(OpCode::from(5), OpCode::Unknown(5));
    assert_eq!(OpCode::from(6), OpCode::Resume);
    assert_eq!(OpCode::from(7), OpCode::Reconnect);
    assert_eq!(OpCode::from(8), OpCode::RequestGuildMembers);
    assert_eq!(OpCode::from(9), OpCode::InvalidSession);
    assert_eq!(OpCode::from(10), OpCode::Hello);
    assert_eq!(OpCode::from(11), OpCode::HeartbeatAck);
    assert_eq!(OpCode::from(12), OpCode::Unknown(12));
}

#[test]
fn coded_kinds_round_trip() {
    for code in 0..=u8::MAX {
        assert_eq!(u8::from(ChannelType::from(code)), code);
        assert_eq!(u8::from(ComponentType::from(code)), code);
        assert_eq!(u8::from(ButtonStyle::from(code)), code);
        assert_eq!(u8::from(InteractionType::from(code)), code);
        assert_eq!(u8::from(ApplicationCommandType::from(code)), code);
        assert_eq!(u8::from(InteractionResponseType::from(code)), code);
        assert_eq!(u8::from(MessageType::from(code)), code);
        assert_eq!(u8::from(ActivityType::from(code)), code);
        assert_eq!(u8::from(StickerType::from(code)), code);
        assert_eq!(u8::from(StickerFormatType::from(code)), code);
    }
    assert_eq!(ChannelType::from(0), ChannelType::GuildText);
    assert_eq!(ChannelType::from(6), ChannelType::Unknown(6));
    assert_eq!(ChannelType::from(15), ChannelType::GuildForum);
    assert_eq!(ComponentType::from(8), ComponentType::ChannelSelect);
    assert_eq!(ComponentType::from(0), ComponentType::Unknown(0));
    assert_eq!(ButtonStyle::from(5), ButtonStyle::Link);
    assert_eq!(InteractionType::from(5), InteractionType::ModalSubmit);
    assert_eq!(ApplicationCommandType::from(3), ApplicationCommandType::Message);
    assert_eq!(InteractionResponseType::from(4), InteractionResponseType::ChannelMessageWithSource);
    assert_eq!(InteractionResponseType::from(2), InteractionResponseType::Unknown(2));
    assert_eq!(MessageType::from(19), MessageType::Reply);
    assert_eq!(MessageType::from(13), MessageType::Unknown(13));
    assert_eq!(MessageType::from(30), MessageType::Unknown(30));
    assert_eq!(MessageType::from(32), MessageType::GuildApplicationPremiumSubscription);
    assert_eq!(ActivityType::from(5), ActivityType::Competing);
    assert_eq!(StickerType::from(2), StickerType::Guild);
    assert_eq!(StickerFormatType::from(4), StickerFormatType::Gif);
}

#[test]
fn intents_are_a_bitmask() {
    assert_eq!(Intents::empty().bits(), 0);
    let wanted = Intents::from_bits(GUILDS).union(Intents::from_bits(GUILD_MESSAGES));
    assert_eq!(wanted.bits(), 513);
    assert!(wanted.contains(Intents::from_bits(GUILDS)));
    assert!(!wanted.contains(Intents::from_bits(MESSAGE_CONTENT)));
    assert!(wanted.contains(Intents::empty()));
    assert_eq!(wanted.union(Intents::from_bits(MESSAGE_CONTENT)).bits(), 33281);
}

#[test]
fn config_starts_without_application() {
    let config = Config::new("secret");
    assert_eq!(config.token, "secret");
    assert_eq!(config.application_id, None);
    let copy = config.clone();
    assert_eq!(copy.token, "secret");
}

#[test]
fn errors_are_shown_by_kind() {
    assert_eq!(DiscordError::Gateway("a".to_string()).to_text(), "Gateway error: a");
    assert_eq!(DiscordError::Http("b".to_string()).to_text(), "HTTP error: b");
    assert_eq!(DiscordError::RateLimit.to_text(), "Rate limit exceeded");
    assert_eq!(DiscordError::Serialization("c".to_string()).to_text(), "Serialization error: c");
    assert_eq!(DiscordError::Validation("d".to_string()).to_text(), "Validation error: d");
    assert_eq!(DiscordError::InvalidToken.to_text(), "Invalid token");
    assert_eq!(DiscordError::Sharding("e".to_string()).to_text(), "Sharding error: e");
    assert_eq!(DiscordError::Configuration("f".to_string()).to_text(), "Configuration error: f");
}
