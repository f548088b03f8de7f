use discord_rs::config::Config;
use discord_rs::error::DiscordError;
use discord_rs::gateway::endpoint::gateway_url;
use discord_rs::gateway::framer::find_zlib_suffix;
use discord_rs::gateway::framer::judge_chunk;
use discord_rs::gateway::framer::judge_round;
use discord_rs::gateway::framer::take_message;
use discord_rs::gateway::framer::InflateError;
use discord_rs::gateway::framer::Chunk;
use discord_rs::gateway::framer::Round;
use discord_rs::gateway::framer::ZlibFramer;
use discord_rs::gateway::manager::backoff_delay;
use discord_rs::gateway::token::gateway_token_of;
use discord_rs::gateway::connection::CloseFrame;
use discord_rs::gateway::outbound::Command;
use discord_rs::gateway::connection::Connection;
use discord_rs::gateway::connection::Frame;
use discord_rs::gateway::connection::FrameAction;
use discord_rs::gateway::manager::GatewayManager;
use discord_rs::gateway::outbound::HeartbeatAction;
use discord_rs::gateway::inbound::Item;
use discord_rs::gateway::outbound::Outbound;
use discord_rs::gateway::inbound::PayloadData;
use discord_rs::gateway::session::Phase;
use discord_rs::gateway::manager::Step;
use discord_rs::intents::Intents;
use discord_rs::model::event::Event;
use discord_rs::model::event::EventKind;
use discord_rs::model::gateway::CurrentUser;
use discord_rs::model::gateway::GatewayPayload;
use discord_rs::model::gateway::Hello;
use discord_rs::model::gateway::IdentifyProperties;
use discord_rs::model::gateway::OpCode;
use discord_rs::model::gateway::Ready;
use discord_rs::model::presence::PresenceStatus;
use discord_rs::model::presence::PresenceUpdate;
use discord_rs::snowflake::Snowflake;
use flate2::Compress;
use flate2::Compression;
use flate2::FlushCompress;

fn manager(token: &str) -> GatewayManager {
    GatewayManager::new(
        Config::new(token),
        Intents::from_bits(513),
        IdentifyProperties::for_os("linux"),
        1_000,
    )
}

fn payload(op: OpCode, d: Option<PayloadData>, s: Option<u64>, t: Option<&str>) -> GatewayPayload<PayloadData> {
    GatewayPayload { op, d, s, t: t.map(|x| x.to_string()) }
}

fn ready(session_id: &str, resume_url: &str) -> Ready {
    Ready {
        v: 10,
        user: CurrentUser {
            id: Snowflake(1),
            username: "bot".to_string(),
            discriminator: "0001".to_string(),
            bot: true,
        },
        guilds: Vec::new(),
        session_id: session_id.to_string(),
        resume_gateway_url: resume_url.to_string(),
    }
}

fn ready_payload(session_id: &str, resume_url: &str, s: u64) -> GatewayPayload<PayloadData> {
    payload(
        OpCode::Dispatch,
        Some(PayloadData::Dispatch(Event::Ready(ready(session_id, resume_url)))),
        Some(s),
        Some("READY"),
    )
}

fn hello(interval: u64) -> GatewayPayload<PayloadData> {
    payload(OpCode::Hello, Some(PayloadData::Hello(Hello { heartbeat_interval: interval })), None, None)
}

fn error_text(step: &Step) -> String {
    match &step.outcome {
        Err(e) => e.to_text(),
        Ok(_) => panic!("the step is no error"),
    }
}

#[test]
fn handshake_sends_heartbeat_then_identify() {
    let mut m = manager("Bot secret");
    assert!(!m.connected(2_000));
    let step = m.process_single_payload(hello(45_000), false, 2_000);
    assert!(matches!(step.outcome, Ok(false)));
    assert_eq!(m.heartbeat_interval(), Some(45_000));
    assert_eq!(step.commands.len(), 3);
    assert!(matches!(step.commands[0], Command::Send(Outbound::Heartbeat(None))));
    assert!(matches!(step.commands[1], Command::StartHeartbeat(45_000)));
    match &step.commands[2] {
        Command::Send(Outbound::Identify(identify)) => {
            assert_eq!(identify.token, "secret");
            assert_eq!(identify.intents, 513);
            assert_eq!(identify.properties.os, "linux");
            assert_eq!(identify.properties.browser, "discord_rs");
            assert_eq!(identify.properties.device, "discord_rs");
            assert_eq!(identify.shard, None);
            assert!(identify.presence.is_none());
            assert_eq!(identify.compress, None);
            assert_eq!(identify.large_threshold, None);
        }
        _ => panic!("the third command is no identify"),
    }

    let dispatch = payload(OpCode::Dispatch, None, Some(7), Some("SOMETHING_ELSE"));
    let step = m.process_single_payload(dispatch, false, 2_100);
    assert!(matches!(step.outcome, Ok(false)));
    assert_eq!(step.commands.len(), 1);
    assert!(matches!(step.commands[0], Command::Emit(Event::Unknown)));
    assert_eq!(m.last_sequence(), Some(7));
    assert_eq!(m.last_ack(), 2_000);

    let ack = payload(OpCode::HeartbeatAck, None, None, None);
    let step = m.process_single_payload(ack, false, 2_500);
    assert!(matches!(step.outcome, Ok(false)));
    assert!(step.commands.is_empty());
    assert_eq!(m.last_sequence(), Some(7));
    assert_eq!(m.last_ack(), 2_500);
}

#[test]
fn identify_names_shard_and_presence() {
    let presence = PresenceUpdate {
        since: None,
        activities: Vec::new(),
        status: PresenceStatus::Idle,
        afk: true,
    };
    let m = manager("t").shard(2, 4).presence(presence);
    match m.identify() {
        Outbound::Identify(identify) => {
            assert_eq!(identify.shard, Some([2, 4]));
            let p = identify.presence.expect("a presence");
            assert_eq!(p.status, PresenceStatus::Idle);
            assert!(p.afk);
        }
        _ => panic!("no identify"),
    }
    assert_eq!(m.identify().op(), OpCode::Identify);
}

#[test]
fn zombie_is_declared_after_two_intervals() {
    let mut m = manager("t");
    m.connected(10_000);
    m.process_single_payload(hello(1_000), false, 10_000);
    assert!(matches!(
        m.heartbeat_tick(11_000, false),
        HeartbeatAction::Send(Outbound::Heartbeat(None))
    ));
    assert!(matches!(m.heartbeat_tick(12_000, false), HeartbeatAction::Send(_)));
    assert!(matches!(m.heartbeat_tick(12_001, false), HeartbeatAction::Zombie));
    assert!(matches!(m.heartbeat_tick(13_000, false), HeartbeatAction::Zombie));
    assert!(matches!(m.heartbeat_tick(11_000, true), HeartbeatAction::Stop));
    m.process_single_payload(payload(OpCode::HeartbeatAck, None, None, None), false, 12_500);
    assert!(matches!(m.heartbeat_tick(13_000, false), HeartbeatAction::Send(_)));
}

#[test]
fn heartbeat_timer_stops_without_interval() {
    let m = manager("t");
    assert!(matches!(m.heartbeat_tick(5_000, false), HeartbeatAction::Stop));
}

#[test]
fn resume_path_targets_resume_url() {
    let mut m = manager("Bot tok");
    m.connected(0);
    let step = m.process_single_payload(ready_payload("abc", "wss://r/", 3), false, 10);
    assert!(matches!(step.outcome, Ok(false)));
    assert!(matches!(step.commands[0], Command::Emit(Event::Ready(_))));
    assert_eq!(m.session_id().map(|s| s.as_str()), Some("abc"));
    assert_eq!(m.resume_url().map(|s| s.as_str()), Some("wss://r/"));
    assert_eq!(m.last_sequence(), Some(3));

    assert_eq!(m.target_url("wss://gateway.example/"), "wss://r/");
    let url = m.start("wss://gateway.example/").expect("a url");
    assert_eq!(url, "wss://r/?v=10&encoding=json");

    assert!(m.connected(100));
    let step = m.process_single_payload(hello(41_250), true, 100);
    assert!(matches!(step.outcome, Ok(false)));
    assert_eq!(step.commands.len(), 3);
    assert!(matches!(step.commands[0], Command::Send(Outbound::Heartbeat(Some(3)))));
    match &step.commands[2] {
        Command::Send(Outbound::Resume(resume)) => {
            assert_eq!(resume.token, "tok");
            assert_eq!(resume.session_id, "abc");
            assert_eq!(resume.seq, Some(3));
        }
        _ => panic!("no resume"),
    }
}

#[test]
fn fresh_session_targets_initial_url() {
    let m = manager("t");
    assert_eq!(m.target_url("wss://gateway.example/"), "wss://gateway.example/");
    let mut m = m.compress(true);
    let url = m.start("wss://gateway.example").expect("a url");
    assert_eq!(url, "wss://gateway.example/?v=10&encoding=json&compress=zlib-stream");
}

#[test]
fn start_refuses_what_is_no_url() {
    let mut m = manager("t");
    match m.start("not a url") {
        Err(DiscordError::Gateway(why)) => {
            assert_eq!(why, "Invalid Gateway URL: relative URL without a base")
        }
        _ => panic!("the target was taken for a URL"),
    }
}

#[test]
fn url_parameters_are_not_doubled() {
    assert_eq!(
        gateway_url("wss://g.example/?v=9", false).unwrap(),
        "wss://g.example/?v=9&encoding=json"
    );
    assert_eq!(
        gateway_url("wss://g.example/?encoding=etf&v=10", true).unwrap(),
        "wss://g.example/?encoding=etf&v=10&compress=zlib-stream"
    );
    assert_eq!(
        gateway_url("wss://g.example/?v=10&encoding=json&compress=zlib-stream", true).unwrap(),
        "wss://g.example/?v=10&encoding=json&compress=zlib-stream"
    );
    assert_eq!(
        gateway_url("wss://g.example/?compress=zlib-stream", false).unwrap(),
        "wss://g.example/?compress=zlib-stream&v=10&encoding=json"
    );
}

#[test]
fn resume_without_session_is_an_error() {
    let mut m = manager("t");
    assert!(matches!(m.resume(), Err(DiscordError::Gateway(_))));
    assert_eq!(
        m.resume().unwrap_err().to_text(),
        "Gateway error: Cannot resume without session_id"
    );
    let step = m.process_single_payload(hello(100), true, 0);
    assert_eq!(step.commands.len(), 2);
    assert_eq!(error_text(&step), "Gateway error: Cannot resume without session_id");
    assert_eq!(m.heartbeat_interval(), Some(100));
}

#[test]
fn hello_without_data_is_a_serialization_error() {
    let mut m = manager("t");
    let step = m.process_single_payload(payload(OpCode::Hello, None, Some(4), None), false, 0);
    assert!(step.commands.is_empty());
    assert_eq!(error_text(&step), "Serialization error: HELLO without a heartbeat interval");
    assert_eq!(m.last_sequence(), Some(4));
    assert_eq!(m.heartbeat_interval(), None);

    let bad = payload(OpCode::Hello, Some(PayloadData::Malformed("missing field".to_string())), None, None);
    let step = m.process_single_payload(bad, false, 0);
    assert_eq!(error_text(&step), "Serialization error: missing field");
}

#[test]
fn dispatch_data_must_match_the_name() {
    let mut m = manager("t");
    let wrong = payload(
        OpCode::Dispatch,
        Some(PayloadData::Dispatch(Event::Ready(ready("abc", "wss://r/")))),
        Some(1),
        Some("GUILD_CREATE"),
    );
    let step = m.process_single_payload(wrong, false, 0);
    assert!(step.commands.is_empty());
    assert_eq!(
        error_text(&step),
        "Serialization error: dispatch data does not match the event name"
    );
    assert!(m.session_id().is_none());
    assert!(m.resume_url().is_none());

    let bad = payload(
        OpCode::Dispatch,
        Some(PayloadData::Malformed("invalid type".to_string())),
        Some(2),
        Some("MESSAGE_CREATE"),
    );
    let step = m.process_single_payload(bad, false, 0);
    assert_eq!(error_text(&step), "Serialization error: invalid type");
    assert_eq!(m.last_sequence(), Some(2));
}

#[test]
fn sequence_never_goes_back() {
    let mut m = manager("t");
    m.process_single_payload(payload(OpCode::Dispatch, None, Some(10), Some("X")), false, 0);
    assert_eq!(m.last_sequence(), Some(10));
    m.process_single_payload(payload(OpCode::Dispatch, None, Some(4), Some("X")), false, 0);
    assert_eq!(m.last_sequence(), Some(10));
    m.process_single_payload(payload(OpCode::Heartbeat, None, None, None), false, 0);
    assert_eq!(m.last_sequence(), Some(10));
    m.process_single_payload(payload(OpCode::Dispatch, None, Some(11), Some("X")), false, 0);
    assert_eq!(m.last_sequence(), Some(11));
}

#[test]
fn server_heartbeat_request_is_answered_at_once() {
    let mut m = manager("t");
    let step = m.process_single_payload(payload(OpCode::Heartbeat, None, Some(9), None), false, 0);
    assert!(matches!(step.outcome, Ok(false)));
    assert_eq!(step.commands.len(), 1);
    assert!(matches!(step.commands[0], Command::Send(Outbound::Heartbeat(Some(9)))));
    assert_eq!(m.send_heartbeat().op(), OpCode::Heartbeat);
}

#[test]
fn reconnect_request_ends_the_connection() {
    let mut m = manager("t");
    m.process_single_payload(ready_payload("abc", "wss://r/", 5), false, 0);
    let step = m.process_single_payload(payload(OpCode::Reconnect, None, None, None), false, 0);
    assert!(matches!(step.outcome, Ok(true)));
    assert!(step.commands.is_empty());
    assert_eq!(m.session_id().map(|s| s.as_str()), Some("abc"));
    assert_eq!(m.last_sequence(), Some(5));
}

#[test]
fn invalid_session_resumes_where_allowed() {
    let mut m = manager("t");
    m.process_single_payload(ready_payload("abc", "wss://r/", 5), false, 0);
    let invalid = payload(OpCode::InvalidSession, Some(PayloadData::Flag(true)), None, None);
    let step = m.process_single_payload(invalid, false, 0);
    assert!(matches!(step.outcome, Ok(false)));
    assert_eq!(step.commands.len(), 1);
    assert!(matches!(step.commands[0], Command::Send(Outbound::Resume(_))));
    assert_eq!(m.session_id().map(|s| s.as_str()), Some("abc"));
}

#[test]
fn invalid_session_forgets_the_session() {
    let mut m = manager("t");
    m.process_single_payload(ready_payload("abc", "wss://r/", 5), false, 0);
    let invalid = payload(OpCode::InvalidSession, Some(PayloadData::Flag(false)), None, None);
    let step = m.process_single_payload(invalid, false, 0);
    assert!(matches!(step.outcome, Ok(true)));
    assert_eq!(step.commands.len(), 1);
    match step.commands[0] {
        Command::Sleep(ms) => assert!((1500..6000).contains(&ms)),
        _ => panic!("no wait"),
    }
    assert!(m.session_id().is_none());
    assert!(m.resume_url().is_none());
    assert_eq!(m.last_sequence(), None);
    assert_eq!(m.target_url("wss://first/"), "wss://first/");
    assert!(!m.connected(0));
}

#[test]
fn invalid_session_without_session_cannot_resume() {
    let mut m = manager("t");
    let invalid = payload(OpCode::InvalidSession, Some(PayloadData::Flag(true)), Some(3), None);
    let step = m.apply_payload(invalid, false, 0, 2_000);
    assert!(matches!(step.outcome, Ok(true)));
    assert!(matches!(step.commands[0], Command::Sleep(2_000)));
    assert_eq!(m.last_sequence(), None);
}

#[test]
fn other_op_codes_only_count() {
    let mut m = manager("t");
    for op in [
        OpCode::Identify,
        OpCode::PresenceUpdate,
        OpCode::VoiceStateUpdate,
        OpCode::Resume,
        OpCode::RequestGuildMembers,
        OpCode::Unknown(42),
    ] {
        let step = m.process_single_payload(payload(op, None, Some(6), None), false, 0);
        assert!(matches!(step.outcome, Ok(false)));
        assert!(step.commands.is_empty());
    }
    assert_eq!(m.last_sequence(), Some(6));
}

#[test]
fn payloads_of_a_text_are_handled_in_order() {
    let mut m = manager("t");
    let items: Vec<Item> = vec![
        Ok(payload(OpCode::Dispatch, None, Some(1), Some("A"))),
        Ok(payload(OpCode::Heartbeat, None, Some(2), None)),
        Ok(payload(OpCode::Reconnect, None, Some(3), None)),
        Ok(payload(OpCode::Dispatch, None, Some(4), Some("B"))),
    ];
    let step = m.process_text_payloads(items, false, 0);
    assert!(matches!(step.outcome, Ok(true)));
    assert_eq!(step.commands.len(), 2);
    assert!(matches!(step.commands[0], Command::Emit(Event::Unknown)));
    assert!(matches!(step.commands[1], Command::Send(Outbound::Heartbeat(Some(2)))));
    assert_eq!(m.last_sequence(), Some(3));
}

#[test]
fn undecodable_item_ends_the_text() {
    let mut m = manager("t");
    let items: Vec<Item> = vec![
        Ok(payload(OpCode::Dispatch, None, Some(1), Some("A"))),
        Err("expected value".to_string()),
        Ok(payload(OpCode::Dispatch, None, Some(2), Some("B"))),
    ];
    let step = m.process_text_payloads(items, false, 0);
    assert!(matches!(step.outcome, Ok(false)));
    assert_eq!(step.commands.len(), 1);
    assert_eq!(m.last_sequence(), Some(1));
}

#[test]
fn payload_in_error_ends_the_text() {
    let mut m = manager("t");
    let items: Vec<Item> = vec![
        Ok(payload(OpCode::Hello, None, Some(1), None)),
        Ok(payload(OpCode::Dispatch, None, Some(2), Some("B"))),
    ];
    let step = m.apply_text_payloads(items, false, 0, 1_500);
    assert!(matches!(step.outcome, Err(DiscordError::Serialization(_))));
    assert!(step.commands.is_empty());
    assert_eq!(m.last_sequence(), Some(1));
    let none: Vec<Item> = Vec::new();
    let step = m.apply_text_payloads(none, false, 0, 1_500);
    assert!(matches!(step.outcome, Ok(false)));
    assert!(step.commands.is_empty());
}

#[test]
fn event_names_give_kinds() {
    assert_eq!(EventKind::from_name("READY"), EventKind::Ready);
    assert_eq!(EventKind::from_name("RESUMED"), EventKind::Resumed);
    assert_eq!(EventKind::from_name("MESSAGE_CREATE"), EventKind::MessageCreate);
    assert_eq!(EventKind::from_name("MESSAGE_UPDATE"), EventKind::MessageUpdate);
    assert_eq!(EventKind::from_name("MESSAGE_DELETE"), EventKind::MessageDelete);
    assert_eq!(EventKind::from_name("GUILD_CREATE"), EventKind::GuildCreate);
    assert_eq!(EventKind::from_name("GUILD_UPDATE"), EventKind::GuildUpdate);
    assert_eq!(EventKind::from_name("GUILD_DELETE"), EventKind::GuildDelete);
    assert_eq!(EventKind::from_name("INTERACTION_CREATE"), EventKind::InteractionCreate);
    assert_eq!(EventKind::from_name("ready"), EventKind::Unknown);
    assert_eq!(EventKind::from_name(""), EventKind::Unknown);
    assert_eq!(Event::Unknown.kind(), EventKind::Unknown);
    assert_eq!(Event::Ready(ready("a", "b")).kind(), EventKind::Ready);
}

#[test]
fn gateway_token_loses_the_scheme_word() {
    assert_eq!(gateway_token_of("Bot abc"), "abc");
    assert_eq!(gateway_token_of("  Bot   Bot xyz \n"), "xyz");
    assert_eq!(gateway_token_of("Botabc"), "Botabc");
    assert_eq!(gateway_token_of("abc"), "abc");
    assert_eq!(gateway_token_of("Bot "), "Bot");
    assert_eq!(gateway_token_of("Bot  "), "Bot");
    assert_eq!(gateway_token_of(""), "");
    assert_eq!(gateway_token_of("bot abc"), "bot abc");
    assert_eq!(gateway_token_of("Bot \u{3000}a b\u{a0}"), "a b");
    assert_eq!(manager(" Bot q ").gateway_token(), "q");
}

#[test]
fn backoff_doubles_up_to_the_sixth_attempt() {
    assert_eq!(backoff_delay(0, 0), 1_000);
    assert_eq!(backoff_delay(1, 0), 2_000);
    assert_eq!(backoff_delay(1, 999), 2_999);
    assert_eq!(backoff_delay(2, 500), 4_500);
    assert_eq!(backoff_delay(5, 1), 32_001);
    assert_eq!(backoff_delay(6, 999), 64_999);
    assert_eq!(backoff_delay(7, 999), 64_999);
    assert_eq!(backoff_delay(u32::MAX, 0), 64_000);
    assert_eq!(backoff_delay(6, 56_000), 120_000);
    assert_eq!(backoff_delay(6, 55_999), 119_999);
    assert_eq!(backoff_delay(3, u64::MAX), 120_000);
}

#[test]
fn backoff_counts_attempts_until_connected() {
    let mut m = manager("t");
    assert_eq!(m.backoff_with(5), 2_005);
    assert_eq!(m.backoff_with(5), 4_005);
    let third = m.next_backoff();
    assert!((8_000..9_000).contains(&third));
    m.connected(0);
    let again = m.next_backoff();
    assert!((2_000..3_000).contains(&again));
}

#[test]
fn outbound_payloads_name_their_failure() {
    let m = manager("t");
    assert_eq!(m.send_heartbeat().send_failure().to_text(), "Gateway error: Failed to send Heartbeat");
    assert_eq!(m.identify().send_failure().to_text(), "Gateway error: Failed to send Identify");
    let presence = PresenceUpdate {
        since: Some(1),
        activities: Vec::new(),
        status: PresenceStatus::Online,
        afk: false,
    };
    let update = m.update_presence(presence);
    assert_eq!(update.op(), OpCode::PresenceUpdate);
    assert_eq!(update.send_failure().to_text(), "Gateway error: Failed to send Presence Update");
    assert!(matches!(update, Outbound::PresenceUpdate(p) if p.since == Some(1)));
}

#[test]
fn suffix_is_found_where_the_message_ends() {
    assert_eq!(find_zlib_suffix(&vec![]), None);
    assert_eq!(find_zlib_suffix(&vec![0, 0, 0xff]), None);
    assert_eq!(find_zlib_suffix(&vec![0, 0, 0xff, 0xff]), Some(0));
    assert_eq!(find_zlib_suffix(&vec![1, 0, 0, 0xff, 0xff, 0, 0, 0xff, 0xff]), Some(1));
    assert_eq!(find_zlib_suffix(&vec![0, 0, 0xff, 0xfe, 0xff, 0xff]), None);
    assert_eq!(find_zlib_suffix(&vec![9, 9, 0, 0, 0, 0xff, 0xff]), Some(3));
}

fn deflate(stream: &mut Compress, text: &str) -> Vec<u8> {
    let mut out = Vec::with_capacity(text.len() + 128);
    stream.compress_vec(text.as_bytes(), &mut out, FlushCompress::Sync).unwrap();
    out
}

#[test]
fn framer_inflates_whole_messages() {
    let mut stream = Compress::new(Compression::default(), true);
    let first = deflate(&mut stream, "{\"op\":10}");
    let second = deflate(&mut stream, "{\"op\":11}");
    assert!(first.ends_with(&[0, 0, 0xff, 0xff]));

    let mut framer = ZlibFramer::new();
    let half = first.len() / 2;
    let framed = framer.push(&first[..half]);
    assert!(framed.texts.is_empty());
    assert!(framed.corrupt.is_none());
    let framed = framer.push(&first[half..]);
    assert_eq!(framed.texts, vec!["{\"op\":10}".to_string()]);
    assert!(framed.corrupt.is_none());
    let framed = framer.push(&second);
    assert_eq!(framed.texts, vec!["{\"op\":11}".to_string()]);
}

#[test]
fn framer_hands_out_several_messages_of_one_frame() {
    let mut stream = Compress::new(Compression::default(), true);
    let mut bytes = deflate(&mut stream, "one");
    bytes.extend(deflate(&mut stream, "   "));
    bytes.extend(deflate(&mut stream, "two"));
    let mut framer = ZlibFramer::new();
    let framed = framer.push(&bytes);
    assert_eq!(framed.texts, vec!["one".to_string(), "two".to_string()]);
    assert!(framed.corrupt.is_none());
}

#[test]
fn framer_gives_up_on_a_corrupt_stream() {
    let mut framer = ZlibFramer::new();
    let framed = framer.push(&[1, 2, 3, 4, 0, 0, 0xff, 0xff, 7]);
    assert!(framed.texts.is_empty());
    assert!(framed.corrupt.is_some());
    let framed = framer.push(&[]);
    assert!(framed.texts.is_empty());
}

#[test]
fn chunks_are_judged() {
    assert!(matches!(judge_chunk(Err("bad".to_string())), Chunk::Corrupt(why) if why == "bad"));
    assert!(matches!(judge_chunk(Ok(vec![0xff, 0xfe])), Chunk::NotText));
    assert!(matches!(judge_chunk(Ok(b" \n\t".to_vec())), Chunk::Blank));
    assert!(matches!(judge_chunk(Ok(Vec::new())), Chunk::Blank));
    assert!(matches!(judge_chunk(Ok("h\u{e9}".as_bytes().to_vec())), Chunk::Text(t) if t == "h\u{e9}"));
}

#[test]
fn frames_give_texts_or_end_the_connection() {
    let mut plain = Connection::new(false);
    assert!(matches!(
        plain.handle_frame(Frame::Text("{}".to_string())),
        FrameAction::Texts(texts) if texts == vec!["{}".to_string()]
    ));
    assert!(matches!(plain.handle_frame(Frame::Binary(vec![1, 2, 3])), FrameAction::Texts(t) if t.is_empty()));
    assert!(matches!(plain.handle_frame(Frame::Ping), FrameAction::Texts(t) if t.is_empty()));
    assert!(matches!(plain.handle_frame(Frame::Pong), FrameAction::Texts(t) if t.is_empty()));
    assert!(matches!(plain.handle_frame(Frame::Other), FrameAction::Texts(t) if t.is_empty()));
    assert!(matches!(plain.handle_frame(Frame::Close(None)), FrameAction::End(texts) if texts.is_empty()));
    assert!(matches!(plain.handle_frame(Frame::Failed("reset".to_string())), FrameAction::End(texts) if texts.is_empty()));

    let mut stream = Compress::new(Compression::default(), true);
    let bytes = deflate(&mut stream, "{\"op\":1}");
    let mut packed = Connection::new(true);
    assert!(matches!(
        packed.handle_frame(Frame::Binary(bytes)),
        FrameAction::Texts(texts) if texts == vec!["{\"op\":1}".to_string()]
    ));
    assert!(matches!(
        packed.handle_frame(Frame::Binary(vec![9, 9, 0, 0, 0xff, 0xff])),
        FrameAction::End(texts) if texts.is_empty()
    ));
}

#[test]
fn session_moves_through_its_phases() {
    let mut m = manager("t");
    assert_eq!(m.phase(), Phase::Connecting);
    m.connected(0);
    assert_eq!(m.phase(), Phase::AwaitHello);
    m.process_single_payload(payload(OpCode::Dispatch, None, Some(1), Some("X")), false, 0);
    assert_eq!(m.phase(), Phase::AwaitHello);
    m.process_single_payload(payload(OpCode::Hello, None, None, None), false, 0);
    assert_eq!(m.phase(), Phase::AwaitHello);
    m.process_single_payload(hello(1_000), false, 0);
    assert_eq!(m.phase(), Phase::Operating);
    m.process_single_payload(payload(OpCode::HeartbeatAck, None, None, None), false, 0);
    assert_eq!(m.phase(), Phase::Operating);
    m.process_single_payload(payload(OpCode::Reconnect, None, None, None), false, 0);
    assert_eq!(m.phase(), Phase::Reconnecting);
    assert!(m.start("nothing like a url").is_err());
    assert_eq!(m.phase(), Phase::Reconnecting);
    m.start("wss://gateway.example").unwrap();
    assert_eq!(m.phase(), Phase::Connecting);
    m.connected(5);
    m.process_single_payload(hello(1_000), false, 5);
    m.disconnected();
    assert_eq!(m.phase(), Phase::Reconnecting);
    m.connected(9);
    m.process_single_payload(hello(1_000), false, 9);
    let invalid = payload(OpCode::InvalidSession, None, None, None);
    m.process_single_payload(invalid, false, 9);
    assert_eq!(m.phase(), Phase::Reconnecting);
}

#[test]
fn refused_token_ends_the_session() {
    let mut connection = Connection::new(false);
    let refused = Frame::Close(Some(CloseFrame { code: 4004, reason: "Authentication failed.".to_string() }));
    match connection.handle_frame(refused) {
        FrameAction::Fatal(e) => {
            assert!(matches!(e, DiscordError::Gateway(_)));
            assert_eq!(e.to_text(), "Gateway error: Authentication failed");
        }
        _ => panic!("the session went on"),
    }
    let going_away = Frame::Close(Some(CloseFrame { code: 1001, reason: String::new() }));
    assert!(matches!(connection.handle_frame(going_away), FrameAction::End(texts) if texts.is_empty()));
    let unknown = Frame::Close(Some(CloseFrame { code: 4000, reason: String::new() }));
    assert!(matches!(connection.handle_frame(unknown), FrameAction::End(texts) if texts.is_empty()));
}

#[test]
fn framer_inflates_messages_larger_than_one_round() {
    let long: String = "abcdefghij".repeat(100_000);
    let mut stream = Compress::new(Compression::default(), true);
    let mut bytes = Vec::with_capacity(64 * 1024);
    stream.compress_vec(long.as_bytes(), &mut bytes, FlushCompress::Sync).unwrap();
    assert_eq!(stream.total_in(), 1_000_000);
    assert!(bytes.ends_with(&[0, 0, 0xff, 0xff]));
    let short = deflate(&mut stream, "after");

    let mut framer = ZlibFramer::new();
    let framed = framer.push(&bytes);
    assert!(framed.corrupt.is_none());
    assert_eq!(framed.texts.len(), 1);
    assert_eq!(framed.texts[0].len(), 1_000_000);
    assert_eq!(framed.texts[0], long);
    let framed = framer.push(&short);
    assert_eq!(framed.texts, vec!["after".to_string()]);
}

#[test]
fn rounds_of_inflating_are_judged() {
    assert_eq!(judge_round(10, 14, 4, 0, 9), Round::Taken(4));
    assert_eq!(judge_round(10, 12, 4, 5, 5), Round::Taken(2));
    assert_eq!(judge_round(10, 10, 4, 5, 6), Round::Taken(0));
    assert_eq!(judge_round(10, 10, 0, 5, 6), Round::Taken(0));
    assert_eq!(judge_round(10, 10, 0, 5, 5), Round::Finished);
    assert_eq!(judge_round(0, 0, 0, 0, 0), Round::Finished);
    assert_eq!(judge_round(10, 10, 4, 5, 5), Round::Stalled);
    assert_eq!(judge_round(10, 9, 4, 5, 6), Round::LostCount);
    assert_eq!(judge_round(10, 15, 4, 5, 6), Round::LostCount);
    assert_eq!(judge_round(0, u64::MAX, usize::MAX, 0, 0), if usize::BITS < 64 {
        Round::LostCount
    } else {
        Round::Taken(usize::MAX)
    });
}

#[test]
fn first_message_is_cut_off_the_buffer() {
    let mut buffer = vec![7, 8, 0, 0, 0xff, 0xff, 9, 0, 0, 0xff, 0xff, 1];
    assert_eq!(take_message(&mut buffer), Some(vec![7, 8, 0, 0, 0xff, 0xff]));
    assert_eq!(buffer, vec![9, 0, 0, 0xff, 0xff, 1]);
    assert_eq!(take_message(&mut buffer), Some(vec![9, 0, 0, 0xff, 0xff]));
    assert_eq!(buffer, vec![1]);
    assert_eq!(take_message(&mut buffer), None);
    assert_eq!(buffer, vec![1]);
    let mut empty: Vec<u8> = Vec::new();
    assert_eq!(take_message(&mut empty), None);
    let mut bare = vec![0, 0, 0xff, 0xff];
    assert_eq!(take_message(&mut bare), Some(vec![0, 0, 0xff, 0xff]));
    assert!(bare.is_empty());
}

#[test]
fn bytes_that_complete_no_message_give_nothing() {
    let mut framer = ZlibFramer::new();
    let framed = framer.push(&[1, 2, 3, 0, 0, 0xff]);
    assert!(framed.texts.is_empty());
    assert!(framed.corrupt.is_none());
    let framed = framer.push(&[]);
    assert!(framed.texts.is_empty());
    assert!(framed.corrupt.is_none());

    let mut packed = Connection::new(true);
    assert!(matches!(
        packed.handle_frame(Frame::Binary(vec![0x78, 0x9c, 1, 2, 3])),
        FrameAction::Texts(texts) if texts.is_empty()
    ));
    assert!(matches!(
        packed.handle_frame(Frame::Binary(Vec::new())),
        FrameAction::Texts(texts) if texts.is_empty()
    ));
}

#[test]
fn texts_before_a_corrupt_message_are_handed_on() {
    let mut stream = Compress::new(Compression::default(), true);
    let mut bytes = deflate(&mut stream, "{\"op\":11}");
    bytes.extend([0x06, 0x06, 0x06, 0, 0, 0xff, 0xff]);
    bytes.extend(deflate(&mut stream, "{\"op\":1}"));
    let mut packed = Connection::new(true);
    match packed.handle_frame(Frame::Binary(bytes)) {
        FrameAction::End(texts) => assert_eq!(texts, vec!["{\"op\":11}".to_string()]),
        _ => panic!("the connection went on"),
    }

    let mut framer = ZlibFramer::new();
    let mut stream = Compress::new(Compression::default(), true);
    let mut bytes = deflate(&mut stream, "one");
    bytes.extend([0x06, 0x06, 0x06, 0, 0, 0xff, 0xff, 5, 5]);
    let framed = framer.push(&bytes);
    assert_eq!(framed.texts, vec!["one".to_string()]);
    assert!(framed.corrupt.is_some());
    let framed = framer.push(&[6]);
    assert!(framed.texts.is_empty());
    assert!(framed.corrupt.is_none());
}

#[test]
fn inflate_errors_are_put_in_words() {
    assert_eq!(InflateError::Corrupt("bad data".to_string()).to_text(), "bad data");
    assert_eq!(InflateError::Stalled.to_text(), "the stream takes no more input");
    assert_eq!(InflateError::LostCount.to_text(), "the stream lost count of its input");
    assert_eq!(InflateError::TooLarge.to_text(), "the message is too large");
}
