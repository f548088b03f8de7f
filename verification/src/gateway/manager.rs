//! The gateway session, carried out. The transport hands it what came
//! in and the time; it answers with the commands that the transport
//! carries out. What it does is what `SessionState` says.

use crate::config::Config;
use crate::error::DiscordError;
use crate::error::ErrorView;
use crate::gateway::endpoint::gateway_url;
use crate::gateway::endpoint::gateway_url_spec;
use crate::gateway::endpoint::query_keys;
use crate::gateway::inbound::item_view;
use crate::gateway::inbound::items_view;
use crate::gateway::inbound::payload_view;
use crate::text::opt_text;
use crate::text::opt_text_ref;
use crate::gateway::inbound::Item;
use crate::gateway::inbound::PayloadData;
use crate::gateway::inbound::PayloadView;
use crate::gateway::outbound::commands_view;
use crate::gateway::outbound::Command;
use crate::gateway::outbound::CommandView;
use crate::gateway::outbound::HeartbeatAction;
use crate::gateway::outbound::Outbound;
use crate::gateway::outbound::OutboundView;
use crate::gateway::outbound::Resume;
use crate::gateway::session::backoff_ms;
use crate::gateway::session::lemma_doubled;
use crate::gateway::session::outcome_view;
use crate::gateway::session::Phase;
use crate::gateway::session::SessionState;
use crate::gateway::session::INVALID_SESSION_MAX_MS;
use crate::gateway::session::INVALID_SESSION_MIN_MS;
use crate::gateway::session::JITTER_BOUND_MS;
use crate::gateway::session::MAX_BACKOFF_MS;
use crate::gateway::token::gateway_token_of;
use crate::gateway::token::gateway_token_spec;
use crate::intents::Intents;
use crate::model::event::Event;
use crate::model::event::EventKind;
use crate::model::gateway::presence_view;
use crate::model::gateway::shard_view;
use crate::model::gateway::GatewayPayload;
use crate::model::gateway::Identify;
use crate::model::gateway::IdentifyProperties;
use crate::model::gateway::OpCode;
use crate::model::presence::PresenceUpdate;
use rand::Rng;
use vstd::prelude::*;
use vstd::string::StringExecFns;

verus! {

/// The wait before connection attempt number `attempt`: see `backoff_ms`.
pub fn backoff_delay(attempt: u32, jitter_ms: u64) -> (ms: u64)
    ensures
        ms == backoff_ms(attempt, jitter_ms),
{
    proof {
        lemma_doubled();
    }
    let base: u64 = if attempt == 0 {
        1
    } else if attempt == 1 {
        2
    } else if attempt == 2 {
        4
    } else if attempt == 3 {
        8
    } else if attempt == 4 {
        16
    } else if attempt == 5 {
        32
    } else {
        64
    };
    if jitter_ms >= MAX_BACKOFF_MS {
        MAX_BACKOFF_MS
    } else {
        let wait = base * 1000 + jitter_ms;
        if wait < MAX_BACKOFF_MS {
            wait
        } else {
            MAX_BACKOFF_MS
        }
    }
}

/// `rand::thread_rng` and `Rng::gen_range` of the crate `rand`: a number
/// drawn from the half-open range between `low` and `high`.
#[verifier::external_body]
fn random_in(low: u64, high: u64) -> (r: u64)
    requires
        low < high,
    ensures
        low <= r < high,
{
    rand::thread_rng().gen_range(low..high)
}

/// What READY tells of a session: its identifier, and where to resume
/// it.
#[derive(Debug)]
struct SessionInfo {
    id: String,
    resume_url: String,
}

/// One gateway session: what it knows of itself and of the connection.
#[derive(Debug)]
pub struct GatewayManager {
    phase: Phase,
    config: Config,
    intents: Intents,
    properties: IdentifyProperties,
    session: Option<SessionInfo>,
    last_sequence: Option<u64>,
    shard: Option<[u64; 2]>,
    last_ack: u64,
    presence: Option<PresenceUpdate>,
    heartbeat_interval: Option<u64>,
    attempt: u32,
    compress: bool,
}

impl View for GatewayManager {
    type V = SessionState;

    closed spec fn view(&self) -> SessionState {
        SessionState {
            phase: self.phase,
            token: self.config.token@,
            intents: self.intents@,
            properties: self.properties@,
            session_id: match self.session {
                Some(session) => Some(session.id@),
                None => None,
            },
            resume_url: match self.session {
                Some(session) => Some(session.resume_url@),
                None => None,
            },
            last_sequence: self.last_sequence,
            last_ack: self.last_ack,
            heartbeat_interval: self.heartbeat_interval,
            shard: shard_view(self.shard),
            presence: presence_view(self.presence),
            attempt: self.attempt,
            compress: self.compress,
        }
    }
}

impl GatewayManager {
    /// A session that has not connected yet. `now` is the time in
    /// milliseconds on the clock that all later calls use.
    pub fn new(config: Config, intents: Intents, properties: IdentifyProperties, now: u64) -> (m:
        Self)
        ensures
            m@ == (SessionState {
                phase: Phase::Connecting,
                token: config.token@,
                intents: intents@,
                properties: properties@,
                session_id: None,
                resume_url: None,
                last_sequence: None,
                last_ack: now,
                heartbeat_interval: None,
                shard: None,
                presence: None,
                attempt: 0,
                compress: false,
            }),
            m@.wf(),
    {
        Self {
            phase: Phase::Connecting,
            config,
            intents,
            properties,
            session: None,
            last_sequence: None,
            shard: None,
            last_ack: now,
            presence: None,
            heartbeat_interval: None,
            attempt: 0,
            compress: false,
        }
    }

    /// The same session, with or without compression of what comes in.
    pub fn compress(self, compress: bool) -> (m: Self)
        ensures
            m@ == (SessionState { compress, ..self@ }),
    {
        let mut m = self;
        m.compress = compress;
        m
    }

    /// The same session as shard `shard_id` of `shard_count`.
    pub fn shard(self, shard_id: u64, shard_count: u64) -> (m: Self)
        ensures
            m@ == (SessionState { shard: Some((shard_id, shard_count)), ..self@ }),
    {
        let mut m = self;
        m.shard = Some([shard_id, shard_count]);
        m
    }

    /// The same session with a presence to show when it identifies.
    pub fn presence(self, presence: PresenceUpdate) -> (m: Self)
        ensures
            m@ == (SessionState { presence: Some(presence@), ..self@ }),
    {
        let mut m = self;
        m.presence = Some(presence);
        m
    }

    /// Whether what comes in is compressed.
    pub fn compresses(&self) -> (r: bool)
        ensures
            r == self@.compress,
    {
        self.compress
    }

    /// The identifier of the session, once READY has come.
    pub fn session_id(&self) -> (r: Option<&String>)
        ensures
            opt_text_ref(r) == self@.session_id,
    {
        match &self.session {
            Some(session) => Some(&session.id),
            None => None,
        }
    }

    /// The URL to resume at, once READY has come.
    pub fn resume_url(&self) -> (r: Option<&String>)
        ensures
            opt_text_ref(r) == self@.resume_url,
    {
        match &self.session {
            Some(session) => Some(&session.resume_url),
            None => None,
        }
    }

    /// The last sequence number seen.
    pub fn last_sequence(&self) -> (r: Option<u64>)
        ensures
            r == self@.last_sequence,
    {
        self.last_sequence
    }

    /// When the last heartbeat acknowledgement came.
    pub fn last_ack(&self) -> (r: u64)
        ensures
            r == self@.last_ack,
    {
        self.last_ack
    }

    /// The heartbeat interval that HELLO gave, in milliseconds.
    pub fn heartbeat_interval(&self) -> (r: Option<u64>)
        ensures
            r == self@.heartbeat_interval,
    {
        self.heartbeat_interval
    }

    /// The token as the gateway wants it.
    pub fn gateway_token(&self) -> (t: String)
        ensures
            t@ == gateway_token_spec(self@.token),
    {
        gateway_token_of(self.config.token.as_str())
    }

    /// The heartbeat to send now: op 1 with the last sequence number.
    pub fn send_heartbeat(&self) -> (o: Outbound)
        ensures
            o@ == OutboundView::Heartbeat(self@.last_sequence),
    {
        Outbound::Heartbeat(self.last_sequence)
    }

    /// The IDENTIFY payload of this session.
    pub fn identify(&self) -> (o: Outbound)
        ensures
            o@ == OutboundView::Identify(self@.identify()),
    {
        let presence = match &self.presence {
            Some(p) => Some(p.clone()),
            None => None,
        };
        Outbound::Identify(
            Identify {
                token: self.gateway_token(),
                properties: self.properties.clone(),
                compress: None,
                large_threshold: None,
                shard: self.shard,
                presence,
                intents: self.intents.bits(),
            },
        )
    }

    /// The RESUME payload of this session, or an error where no session
    /// has been set up yet.
    pub fn resume(&self) -> (r: Result<Outbound, DiscordError>)
        ensures
            match self@.session_id {
                Some(id) => r is Ok && r->Ok_0@ == OutboundView::Resume(self@.resume(id)),
                None => r is Err && r->Err_0@ == ErrorView::Gateway(
                    "Cannot resume without session_id"@,
                ),
            },
    {
        match &self.session {
            Some(session) => Ok(
                Outbound::Resume(
                    Resume {
                        token: self.gateway_token(),
                        session_id: session.id.clone(),
                        seq: self.last_sequence,
                    },
                ),
            ),
            None => Err(
                DiscordError::Gateway(String::from_str("Cannot resume without session_id")),
            ),
        }
    }

    /// The payload that tells the gateway of a new presence.
    pub fn update_presence(&self, presence: PresenceUpdate) -> (o: Outbound)
        ensures
            o@ == OutboundView::PresenceUpdate(presence@),
    {
        Outbound::PresenceUpdate(presence)
    }

    /// The URL that the next connection attempt goes to: the one to resume
    /// at where a session is set up, else `initial_url`.
    pub fn target_url(&self, initial_url: &str) -> (url: String)
        ensures
            url@ == self@.target(initial_url@),
    {
        match &self.session {
            Some(session) => session.resume_url.clone(),
            None => String::from_str(initial_url),
        }
    }

    /// The first step of a connection attempt: the URL to connect to. It
    /// is the target of `target_url`, with the query parameters that the
    /// gateway needs. A target that is no URL is an error, and the
    /// session ends with it.
    pub fn start(&mut self, initial_url: &str) -> (r: Result<String, DiscordError>)
        ensures
            match gateway_url_spec(old(self)@.target(initial_url@), old(self)@.compress) {
                Ok(url) => r is Ok && r->Ok_0@ == url && query_keys(url).contains("v"@)
                    && query_keys(url).contains("encoding"@) && (old(self)@.compress
                    ==> query_keys(url).contains("compress"@)) && final(self)@ == (SessionState {
                    phase: Phase::Connecting,
                    ..old(self)@
                }),
                Err(e) => r is Err && r->Err_0@ == e && final(self)@ == old(self)@,
            },
    {
        let target = self.target_url(initial_url);
        let r = gateway_url(target.as_str(), self.compress);
        if r.is_ok() {
            self.phase = Phase::Connecting;
        }
        r
    }

    /// A connection has been made at time `now`: the count of failed
    /// attempts starts again, the acknowledgement clock too, and the
    /// heartbeat interval is unknown until HELLO. Returns whether the
    /// session resumes on this connection.
    pub fn connected(&mut self, now: u64) -> (resume: bool)
        ensures
            final(self)@ == (SessionState {
                phase: Phase::AwaitHello,
                attempt: 0,
                last_ack: now,
                heartbeat_interval: None,
                ..old(self)@
            }),
            resume == old(self)@.can_resume(),
    {
        self.phase = Phase::AwaitHello;
        self.attempt = 0;
        self.last_ack = now;
        self.heartbeat_interval = None;
        self.session.is_some() && self.last_sequence.is_some()
    }

    /// The connection is over, for whatever reason: another is due.
    pub fn disconnected(&mut self)
        ensures
            final(self)@ == (SessionState { phase: Phase::Reconnecting, ..old(self)@ }),
    {
        self.phase = Phase::Reconnecting;
    }

    /// Where the session stands with its connection.
    pub fn phase(&self) -> (p: Phase)
        ensures
            p == self@.phase,
    {
        self.phase
    }

    /// The wait before the next connection attempt, for the random part
    /// `jitter_ms`. Counts the attempt; the count saturates.
    pub fn backoff_with(&mut self, jitter_ms: u64) -> (ms: u64)
        ensures
            final(self)@ == (SessionState {
                attempt: if old(self)@.attempt == u32::MAX {
                    u32::MAX
                } else {
                    (old(self)@.attempt + 1) as u32
                },
                ..old(self)@
            }),
            ms == backoff_ms(final(self)@.attempt, jitter_ms),
    {
        self.attempt = self.attempt.saturating_add(1);
        backoff_delay(self.attempt, jitter_ms)
    }

    /// The wait before the next connection attempt, with a random part
    /// below a second. Counts the attempt.
    pub fn next_backoff(&mut self) -> (ms: u64)
        ensures
            exists|jitter: u64|
                jitter < JITTER_BOUND_MS && #[trigger] backoff_ms(final(self)@.attempt, jitter)
                    == ms,
            final(self)@ == (SessionState {
                attempt: if old(self)@.attempt == u32::MAX {
                    u32::MAX
                } else {
                    (old(self)@.attempt + 1) as u32
                },
                ..old(self)@
            }),
            backoff_ms(final(self)@.attempt, 0) <= ms <= backoff_ms(final(self)@.attempt, 999),
    {
        let jitter = random_in(0, JITTER_BOUND_MS);
        self.backoff_with(jitter)
    }

    /// What the heartbeat timer does at a tick at time `now`. It stops
    /// when `shutdown` is set or no interval is known; it declares the
    /// connection dead when the last acknowledgement is older than two
    /// intervals; else it sends a heartbeat.
    pub fn heartbeat_tick(&self, now: u64, shutdown: bool) -> (action: HeartbeatAction)
        ensures
            match action {
                HeartbeatAction::Stop => shutdown || self@.heartbeat_interval is None,
                HeartbeatAction::Zombie => !shutdown && self@.heartbeat_interval is Some && now
                    - self@.last_ack > 2 * self@.heartbeat_interval->0,
                HeartbeatAction::Send(o) => !shutdown && self@.heartbeat_interval is Some && now
                    - self@.last_ack <= 2 * self@.heartbeat_interval->0 && o@
                    == OutboundView::Heartbeat(self@.last_sequence),
            },
    {
        if shutdown {
            return HeartbeatAction::Stop;
        }
        match self.heartbeat_interval {
            None => HeartbeatAction::Stop,
            Some(interval) => {
                let elapsed: u128 = if now >= self.last_ack {
                    (now - self.last_ack) as u128
                } else {
                    0
                };
                if elapsed > 2 * (interval as u128) {
                    HeartbeatAction::Zombie
                } else {
                    HeartbeatAction::Send(self.send_heartbeat())
                }
            },
        }
    }
}

/// The outcome of handling a payload: the commands for the transport, and
/// whether the connection is to be closed and made anew (`Ok(true)`), goes
/// on (`Ok(false)`), or the payload was in error. The commands hold also
/// where the outcome is an error: they were due before it showed.
#[derive(Debug)]
pub struct Step {
    pub commands: Vec<Command>,
    pub outcome: Result<bool, DiscordError>,
}

/// The error to report for data that is not what the op-code calls for.
fn data_error(d: Option<PayloadData>, missing: &str) -> (e: DiscordError)
    ensures
        e@ == match d {
            Some(PayloadData::Malformed(m)) => ErrorView::Serialization(m@),
            _ => ErrorView::Serialization(missing@),
        },
{
    match d {
        Some(PayloadData::Malformed(m)) => DiscordError::Serialization(m),
        _ => DiscordError::Serialization(String::from_str(missing)),
    }
}

proof fn lemma_commands_view_push(commands: Seq<Command>, c: Command)
    ensures
        commands_view(commands.push(c)) == commands_view(commands).push(c@),
{
    assert(commands_view(commands.push(c)) =~= commands_view(commands).push(c@));
}

proof fn lemma_commands_view_empty()
    ensures
        commands_view(Seq::<Command>::empty()) == Seq::<CommandView>::empty(),
{
    assert(commands_view(Seq::<Command>::empty()) =~= Seq::<CommandView>::empty());
}

fn push_command(commands: &mut Vec<Command>, c: Command)
    ensures
        final(commands)@ == old(commands)@.push(c),
        commands_view(final(commands)@) == commands_view(old(commands)@).push(c@),
{
    proof {
        lemma_commands_view_push(commands@, c);
    }
    commands.push(c);
}

fn no_commands() -> (commands: Vec<Command>)
    ensures
        commands@ == Seq::<Command>::empty(),
        commands_view(commands@) == Seq::<CommandView>::empty(),
{
    proof {
        lemma_commands_view_empty();
    }
    Vec::new()
}

impl GatewayManager {
    /// Whether the state is well formed: see `SessionState::wf`.
    pub open spec fn wf(&self) -> bool {
        self@.wf()
    }

    /// Every session is well formed: it knows its identifier and the URL
    /// to resume at, or neither.
    pub proof fn law_every_session_is_well_formed(self)
        ensures
            self.wf(),
    {
    }

    fn see_sequence(&mut self, s: Option<u64>)
        ensures
            final(self)@ == old(self)@.with_sequence(s),
    {
        match s {
            Some(n) => {
                match self.last_sequence {
                    Some(last) => {
                        if n > last {
                            self.last_sequence = Some(n);
                        }
                    },
                    None => {
                        self.last_sequence = Some(n);
                    },
                }
            },
            None => {},
        }
    }

    fn on_hello(&mut self, d: Option<PayloadData>, resume: bool) -> (step: Step)
        ensures
            ({
                let p = PayloadView {
                    op: OpCode::Hello,
                    d: match d {
                        Some(d) => Some(d@),
                        None => None,
                    },
                    s: None,
                    t: None,
                };
                let expected = old(self)@.on_hello(p, resume);
                &&& final(self)@ == expected.state
                &&& commands_view(step.commands@) == expected.commands
                &&& outcome_view(step.outcome) == expected.outcome
            }),
    {
        match d {
            Some(PayloadData::Hello(hello)) => {
                let interval = hello.heartbeat_interval;
                self.phase = Phase::Operating;
                self.heartbeat_interval = Some(interval);
                let mut commands = no_commands();
                push_command(&mut commands, Command::Send(self.send_heartbeat()));
                push_command(&mut commands, Command::StartHeartbeat(interval));
                if resume {
                    match self.resume() {
                        Ok(o) => {
                            push_command(&mut commands, Command::Send(o));
                            Step { commands, outcome: Ok(false) }
                        },
                        Err(e) => Step { commands, outcome: Err(e) },
                    }
                } else {
                    push_command(&mut commands, Command::Send(self.identify()));
                    Step { commands, outcome: Ok(false) }
                }
            },
            other => {
                let e = data_error(other, "HELLO without a heartbeat interval");
                Step { commands: no_commands(), outcome: Err(e) }
            },
        }
    }

    fn on_dispatch(&mut self, d: Option<PayloadData>, t: &Option<String>) -> (step: Step)
        ensures
            ({
                let p = PayloadView {
                    op: OpCode::Dispatch,
                    d: match d {
                        Some(d) => Some(d@),
                        None => None,
                    },
                    s: None,
                    t: opt_text(*t),
                };
                let expected = old(self)@.on_dispatch(p);
                &&& final(self)@ == expected.state
                &&& commands_view(step.commands@) == expected.commands
                &&& outcome_view(step.outcome) == expected.outcome
            }),
    {
        let kind = match t {
            Some(name) => EventKind::from_name(name.as_str()),
            None => {
                assert(""@ =~= Seq::<char>::empty()) by {
                    reveal_strlit("");
                }
                EventKind::from_name("")
            },
        };
        let mut commands = no_commands();
        if kind == EventKind::Unknown {
            push_command(&mut commands, Command::Emit(Event::Unknown));
            return Step { commands, outcome: Ok(false) };
        }
        match d {
            Some(PayloadData::Dispatch(event)) => {
                if event.kind() == kind {
                    match &event {
                        Event::Ready(ready) => {
                            self.session = Some(
                                SessionInfo {
                                    id: ready.session_id.clone(),
                                    resume_url: ready.resume_gateway_url.clone(),
                                },
                            );
                        },
                        _ => {},
                    }
                    push_command(&mut commands, Command::Emit(event));
                    Step { commands, outcome: Ok(false) }
                } else {
                    let e = DiscordError::Serialization(
                        String::from_str("dispatch data does not match the event name"),
                    );
                    Step { commands, outcome: Err(e) }
                }
            },
            other => {
                let e = data_error(other, "dispatch data does not match the event name");
                Step { commands, outcome: Err(e) }
            },
        }
    }

    fn on_invalid_session(&mut self, d: Option<PayloadData>, delay_ms: u64) -> (step: Step)
        ensures
            ({
                let p = PayloadView {
                    op: OpCode::InvalidSession,
                    d: match d {
                        Some(d) => Some(d@),
                        None => None,
                    },
                    s: None,
                    t: None,
                };
                let expected = old(self)@.on_invalid_session(p, delay_ms);
                &&& final(self)@ == expected.state
                &&& commands_view(step.commands@) == expected.commands
                &&& outcome_view(step.outcome) == expected.outcome
            }),
    {
        let resumable = match d {
            Some(PayloadData::Flag(b)) => b,
            _ => false,
        };
        let mut commands = no_commands();
        if resumable && self.session.is_some() {
            match self.resume() {
                Ok(o) => {
                    push_command(&mut commands, Command::Send(o));
                    Step { commands, outcome: Ok(false) }
                },
                Err(e) => Step { commands, outcome: Err(e) },
            }
        } else {
            self.session = None;
            self.last_sequence = None;
            push_command(&mut commands, Command::Sleep(delay_ms));
            Step { commands, outcome: Ok(true) }
        }
    }

    /// Handles one inbound payload at time `now`, where the wait after an
    /// invalid session is `delay_ms`: the state and the step are those of
    /// `SessionState::step`.
    pub fn apply_payload(
        &mut self,
        payload: GatewayPayload<PayloadData>,
        resume: bool,
        now: u64,
        delay_ms: u64,
    ) -> (step: Step)
        ensures
            ({
                let expected = old(self)@.step(payload_view(payload), resume, now, delay_ms);
                &&& final(self)@ == expected.state
                &&& commands_view(step.commands@) == expected.commands
                &&& outcome_view(step.outcome) == expected.outcome
            }),
            final(self).wf(),
    {
        self.see_sequence(payload.s);
        let step = match payload.op {
            OpCode::Hello => self.on_hello(payload.d, resume),
            OpCode::Heartbeat => {
                let mut commands = no_commands();
                push_command(&mut commands, Command::Send(self.send_heartbeat()));
                Step { commands, outcome: Ok(false) }
            },
            OpCode::Dispatch => self.on_dispatch(payload.d, &payload.t),
            OpCode::HeartbeatAck => {
                self.last_ack = now;
                Step { commands: no_commands(), outcome: Ok(false) }
            },
            OpCode::Reconnect => Step { commands: no_commands(), outcome: Ok(true) },
            OpCode::InvalidSession => self.on_invalid_session(payload.d, delay_ms),
            _ => Step { commands: no_commands(), outcome: Ok(false) },
        };
        match step.outcome {
            Ok(true) => {
                self.phase = Phase::Reconnecting;
            },
            _ => {},
        }
        step
    }

    /// Handles one inbound payload at time `now`. Where the session is
    /// declared invalid and cannot resume, the wait before the new
    /// connection is drawn at random between a second and a half and six
    /// seconds.
    pub fn process_single_payload(
        &mut self,
        payload: GatewayPayload<PayloadData>,
        resume: bool,
        now: u64,
    ) -> (step: Step)
        ensures
            exists|delay_ms: u64|
                {
                    let expected = #[trigger] old(self)@.step(
                        payload_view(payload),
                        resume,
                        now,
                        delay_ms,
                    );
                    &&& INVALID_SESSION_MIN_MS <= delay_ms < INVALID_SESSION_MAX_MS
                    &&& final(self)@ == expected.state
                    &&& commands_view(step.commands@) == expected.commands
                    &&& outcome_view(step.outcome) == expected.outcome
                },
            final(self).wf(),
    {
        let delay_ms = random_in(INVALID_SESSION_MIN_MS, INVALID_SESSION_MAX_MS);
        self.apply_payload(payload, resume, now, delay_ms)
    }
}

proof fn lemma_commands_view_add(a: Seq<Command>, b: Seq<Command>)
    ensures
        commands_view(a + b) == commands_view(a) + commands_view(b),
{
    assert(commands_view(a + b) =~= commands_view(a) + commands_view(b));
}

impl GatewayManager {
    /// Handles the payloads of one text at time `now`, in order, where the
    /// wait after an invalid session is `delay_ms`: the state and the
    /// step are those of `SessionState::run`.
    pub fn apply_text_payloads(
        &mut self,
        items: Vec<Item>,
        resume: bool,
        now: u64,
        delay_ms: u64,
    ) -> (step: Step)
        ensures
            ({
                let expected = old(self)@.run(items_view(items@), resume, now, delay_ms);
                &&& final(self)@ == expected.state
                &&& commands_view(step.commands@) == expected.commands
                &&& outcome_view(step.outcome) == expected.outcome
            }),
            final(self).wf(),
    {
        let ghost expected = self@.run(items_view(items@), resume, now, delay_ms);
        let mut queue = items;
        let mut commands = no_commands();
        assert(expected.after(Seq::empty()) == expected) by {
            assert(Seq::<CommandView>::empty() + expected.commands =~= expected.commands);
        }
        while queue.len() > 0
            invariant
                expected == old(self)@.run(items_view(items@), resume, now, delay_ms),
                self@.run(items_view(queue@), resume, now, delay_ms).after(
                    commands_view(commands@),
                ) == expected,
            decreases queue.len(),
        {
            let ghost before = items_view(queue@);
            let ghost done = commands_view(commands@);
            let ghost pre = self@;
            let item = queue.remove(0);
            assert(items_view(queue@) =~= before.drop_first());
            assert(before[0] == item_view(item));
            match item {
                Err(_) => {
                    assert(done + Seq::<CommandView>::empty() =~= done);
                    return Step { commands, outcome: Ok(false) };
                },
                Ok(payload) => {
                    let mut step = self.apply_payload(payload, resume, now, delay_ms);
                    let ghost first = pre.step(payload_view(payload), resume, now, delay_ms);
                    proof {
                        lemma_commands_view_add(commands@, step.commands@);
                    }
                    commands.append(&mut step.commands);
                    match step.outcome {
                        Ok(false) => {
                            proof {
                                let rest = self@.run(items_view(queue@), resume, now, delay_ms);
                                assert((done + first.commands) + rest.commands =~= done + (
                                first.commands + rest.commands));
                            }
                        },
                        other => {
                            return Step { commands, outcome: other };
                        },
                    }
                },
            }
        }
        assert(commands_view(commands@) + Seq::<CommandView>::empty() =~= commands_view(
            commands@,
        ));
        Step { commands, outcome: Ok(false) }
    }

    /// Handles the payloads of one text at time `now`, in order. The wait
    /// after an invalid session is drawn at random between a second and
    /// a half and six seconds.
    pub fn process_text_payloads(&mut self, items: Vec<Item>, resume: bool, now: u64) -> (step:
        Step)
        ensures
            exists|delay_ms: u64|
                {
                    let expected = #[trigger] old(self)@.run(
                        items_view(items@),
                        resume,
                        now,
                        delay_ms,
                    );
                    &&& INVALID_SESSION_MIN_MS <= delay_ms < INVALID_SESSION_MAX_MS
                    &&& final(self)@ == expected.state
                    &&& commands_view(step.commands@) == expected.commands
                    &&& outcome_view(step.outcome) == expected.outcome
                },
            final(self).wf(),
    {
        let delay_ms = random_in(INVALID_SESSION_MIN_MS, INVALID_SESSION_MAX_MS);
        self.apply_text_payloads(items, resume, now, delay_ms)
    }
}

} // verus!
