//! The gateway session as a state machine: its state, and what each
//! payload does to it. All of it is mathematics; `GatewayManager` carries
//! it out.

use crate::error::DiscordError;
use crate::error::ErrorView;
use crate::gateway::inbound::DataView;
use crate::gateway::inbound::PayloadView;
use crate::gateway::outbound::CommandView;
use crate::gateway::outbound::OutboundView;
use crate::gateway::outbound::ResumeView;
use crate::gateway::token::gateway_token_spec;
use crate::model::event::Event;
use crate::model::event::EventKind;
use crate::model::gateway::IdentifyView;
use crate::model::gateway::OpCode;
use crate::model::gateway::PropertiesView;
use crate::model::presence::PresenceView;
use vstd::prelude::*;

verus! {

/// The longest wait before a new connection attempt, in milliseconds.
pub const MAX_BACKOFF_MS: u64 = 120_000;

/// The random part of that wait stays below this many milliseconds.
pub const JITTER_BOUND_MS: u64 = 1000;

/// After this many failures the wait stops doubling.
pub const BACKOFF_DOUBLINGS: u32 = 6;

/// The wait after a session was declared invalid is at least this long.
pub const INVALID_SESSION_MIN_MS: u64 = 1500;

/// And shorter than this.
pub const INVALID_SESSION_MAX_MS: u64 = 6000;

/// Where a session stands with its connection.
#[derive(Debug, Clone, Copy, PartialEq, Eq, Structural)]
pub enum Phase {
    /// No connection yet, or a new one is being made.
    Connecting,
    /// The transport is open, and HELLO has not come yet.
    AwaitHello,
    /// HELLO has come: the session identifies or resumes, and events
    /// flow.
    Operating,
    /// The connection is over, and another is due.
    Reconnecting,
}

/// The state of a gateway session, as contracts see it.
pub struct SessionState {
    pub phase: Phase,
    pub token: Seq<char>,
    pub intents: u64,
    pub properties: PropertiesView,
    pub session_id: Option<Seq<char>>,
    pub resume_url: Option<Seq<char>>,
    pub last_sequence: Option<u64>,
    pub last_ack: u64,
    pub heartbeat_interval: Option<u64>,
    pub shard: Option<(u64, u64)>,
    pub presence: Option<PresenceView>,
    pub attempt: u32,
    pub compress: bool,
}

impl SessionState {
    /// The session identifier and the URL to resume at come and go together.
    pub open spec fn wf(self) -> bool {
        self.session_id is Some <==> self.resume_url is Some
    }

    /// Whether the next connection can try to resume.
    pub open spec fn can_resume(self) -> bool {
        self.session_id is Some && self.last_sequence is Some
    }

    /// The URL that the next connection attempt goes to: the one to resume
    /// at where a session is set up, else `initial_url`.
    pub open spec fn target(self, initial_url: Seq<char>) -> Seq<char> {
        match (self.session_id, self.resume_url) {
            (Some(_), Some(resume)) => resume,
            _ => initial_url,
        }
    }

    /// The IDENTIFY data of this session.
    pub open spec fn identify(self) -> IdentifyView {
        IdentifyView {
            token: gateway_token_spec(self.token),
            properties: self.properties,
            compress: None,
            large_threshold: None,
            shard: self.shard,
            presence: self.presence,
            intents: self.intents,
        }
    }

    /// The RESUME data of this session, for the given session identifier.
    pub open spec fn resume(self, session_id: Seq<char>) -> ResumeView {
        ResumeView {
            token: gateway_token_spec(self.token),
            session_id,
            seq: self.last_sequence,
        }
    }
}

/// The sequence number to keep once a payload with number `s` has come in:
/// the larger one, so that the number never goes back.
pub open spec fn advance_sequence(last: Option<u64>, s: Option<u64>) -> Option<u64> {
    match (last, s) {
        (Some(a), Some(b)) => if b > a {
            Some(b)
        } else {
            Some(a)
        },
        (None, Some(b)) => Some(b),
        (_, None) => last,
    }
}

/// Whether one sequence number is at least the other, with none at all
/// below every number.
pub open spec fn sequence_le(a: Option<u64>, b: Option<u64>) -> bool {
    match (a, b) {
        (None, _) => true,
        (Some(_), None) => false,
        (Some(x), Some(y)) => x <= y,
    }
}

/// Two to the power `k`.
pub open spec fn doubled(k: nat) -> int
    decreases k,
{
    if k == 0 {
        1
    } else {
        2 * doubled((k - 1) as nat)
    }
}

/// The base of the wait before connection attempt number `attempt`, in
/// seconds: it doubles with each attempt, and stops doubling after a few.
pub open spec fn backoff_base_seconds(attempt: u32) -> int {
    if attempt < BACKOFF_DOUBLINGS {
        doubled(attempt as nat)
    } else {
        doubled(BACKOFF_DOUBLINGS as nat)
    }
}

/// The first powers of two.
pub proof fn lemma_doubled()
    ensures
        doubled(0) == 1,
        doubled(1) == 2,
        doubled(2) == 4,
        doubled(3) == 8,
        doubled(4) == 16,
        doubled(5) == 32,
        doubled(6) == 64,
{
    assert(doubled(1) == 2 * doubled(0));
    assert(doubled(2) == 2 * doubled(1));
    assert(doubled(3) == 2 * doubled(2));
    assert(doubled(4) == 2 * doubled(3));
    assert(doubled(5) == 2 * doubled(4));
    assert(doubled(6) == 2 * doubled(5));
}

/// The wait before connection attempt number `attempt`, with the random
/// part `jitter_ms`: the base doubles with each attempt up to the sixth, and
/// the whole is capped.
pub open spec fn backoff_ms(attempt: u32, jitter_ms: u64) -> int {
    let wait = backoff_base_seconds(attempt) * 1000 + jitter_ms;
    if wait < MAX_BACKOFF_MS {
        wait
    } else {
        MAX_BACKOFF_MS as int
    }
}

/// A `Step` as contracts see it, together with the state that it leaves.
pub struct StepView {
    pub state: SessionState,
    pub commands: Seq<CommandView>,
    pub outcome: Result<bool, ErrorView>,
}

/// The view of an outcome.
pub open spec fn outcome_view(outcome: Result<bool, DiscordError>) -> Result<bool, ErrorView> {
    match outcome {
        Ok(b) => Ok(b),
        Err(e) => Err(e@),
    }
}

/// What is said of a HELLO without its data.
pub open spec fn missing_hello() -> Seq<char> {
    "HELLO without a heartbeat interval"@
}

/// What is said of a dispatch whose data is not the event that its name
/// announces.
pub open spec fn missing_event() -> Seq<char> {
    "dispatch data does not match the event name"@
}

/// What is said of a resume without a session.
pub open spec fn missing_session() -> Seq<char> {
    "Cannot resume without session_id"@
}

impl SessionState {
    /// The state once the sequence number of a payload is taken in.
    pub open spec fn with_sequence(self, s: Option<u64>) -> SessionState {
        SessionState { last_sequence: advance_sequence(self.last_sequence, s), ..self }
    }

    /// HELLO: the interval is recorded, a heartbeat goes out at once, the
    /// timer starts, and the session resumes or identifies.
    pub open spec fn on_hello(self, p: PayloadView, resume: bool) -> StepView {
        match p.d {
            Some(DataView::Hello(interval)) => {
                let state = SessionState {
                    phase: Phase::Operating,
                    heartbeat_interval: Some(interval),
                    ..self
                };
                let first = seq![
                    CommandView::Send(OutboundView::Heartbeat(self.last_sequence)),
                    CommandView::StartHeartbeat(interval),
                ];
                if resume {
                    match self.session_id {
                        Some(id) => StepView {
                            state,
                            commands: first.push(
                                CommandView::Send(OutboundView::Resume(self.resume(id))),
                            ),
                            outcome: Ok(false),
                        },
                        None => StepView {
                            state,
                            commands: first,
                            outcome: Err(ErrorView::Gateway(missing_session())),
                        },
                    }
                } else {
                    StepView {
                        state,
                        commands: first.push(
                            CommandView::Send(OutboundView::Identify(self.identify())),
                        ),
                        outcome: Ok(false),
                    }
                }
            },
            _ => StepView {
                state: self,
                commands: Seq::empty(),
                outcome: Err(p.data_error(missing_hello())),
            },
        }
    }

    /// DISPATCH: the event goes to the host; READY first sets up the
    /// session. An event with a name that the library does not know goes
    /// out as `Unknown`.
    pub open spec fn on_dispatch(self, p: PayloadView) -> StepView {
        if p.event_kind() == EventKind::Unknown {
            StepView {
                state: self,
                commands: seq![CommandView::Emit(Event::Unknown)],
                outcome: Ok(false),
            }
        } else {
            match p.d {
                Some(DataView::Dispatch(event)) if event.kind_spec() == p.event_kind() => StepView {
                    state: match event {
                        Event::Ready(ready) => SessionState {
                            session_id: Some(ready.session_id@),
                            resume_url: Some(ready.resume_gateway_url@),
                            ..self
                        },
                        _ => self,
                    },
                    commands: seq![CommandView::Emit(event)],
                    outcome: Ok(false),
                },
                _ => StepView {
                    state: self,
                    commands: Seq::empty(),
                    outcome: Err(p.data_error(missing_event())),
                },
            }
        }
    }

    /// INVALID_SESSION: where the gateway allows it and a session is set
    /// up, the session resumes on this connection. Else the session is
    /// forgotten, and after a wait the connection is made anew.
    pub open spec fn on_invalid_session(self, p: PayloadView, delay_ms: u64) -> StepView {
        match self.session_id {
            Some(id) if p.d == Some(DataView::Flag(true)) => StepView {
                state: self,
                commands: seq![CommandView::Send(OutboundView::Resume(self.resume(id)))],
                outcome: Ok(false),
            },
            _ => StepView {
                state: SessionState {
                    session_id: None,
                    resume_url: None,
                    last_sequence: None,
                    ..self
                },
                commands: seq![CommandView::Sleep(delay_ms)],
                outcome: Ok(true),
            },
        }
    }

    /// What one inbound payload does to the session at time `now`, where
    /// the wait after an invalid session is `delay_ms`. A payload that
    /// asks for a new connection leaves the session waiting for one.
    pub open spec fn step(self, p: PayloadView, resume: bool, now: u64, delay_ms: u64) -> StepView {
        let reaction = self.react(p, resume, now, delay_ms);
        if reaction.outcome == Ok::<bool, ErrorView>(true) {
            StepView {
                state: SessionState { phase: Phase::Reconnecting, ..reaction.state },
                ..reaction
            }
        } else {
            reaction
        }
    }

    /// What one inbound payload does to the session, by its op-code.
    pub open spec fn react(self, p: PayloadView, resume: bool, now: u64, delay_ms: u64) -> StepView {
        let seen = self.with_sequence(p.s);
        match p.op {
            OpCode::Hello => seen.on_hello(p, resume),
            OpCode::Heartbeat => StepView {
                state: seen,
                commands: seq![CommandView::Send(OutboundView::Heartbeat(seen.last_sequence))],
                outcome: Ok(false),
            },
            OpCode::Dispatch => seen.on_dispatch(p),
            OpCode::HeartbeatAck => StepView {
                state: SessionState { last_ack: now, ..seen },
                commands: Seq::empty(),
                outcome: Ok(false),
            },
            OpCode::Reconnect => StepView {
                state: seen,
                commands: Seq::empty(),
                outcome: Ok(true),
            },
            OpCode::InvalidSession => seen.on_invalid_session(p, delay_ms),
            _ => StepView { state: seen, commands: Seq::empty(), outcome: Ok(false) },
        }
    }
}

impl StepView {
    /// This step, after the commands `before` were given.
    pub open spec fn after(self, before: Seq<CommandView>) -> StepView {
        StepView { commands: before + self.commands, ..self }
    }
}

impl SessionState {
    /// What the payloads of one text do to the session, in order. The run
    /// ends before an item that is no payload, and after a payload that
    /// is in error or asks for a new connection.
    pub open spec fn run(
        self,
        items: Seq<Result<PayloadView, Seq<char>>>,
        resume: bool,
        now: u64,
        delay_ms: u64,
    ) -> StepView
        decreases items.len(),
    {
        if items.len() == 0 {
            StepView { state: self, commands: Seq::empty(), outcome: Ok(false) }
        } else {
            match items[0] {
                Err(_) => StepView { state: self, commands: Seq::empty(), outcome: Ok(false) },
                Ok(p) => {
                    let first = self.step(p, resume, now, delay_ms);
                    if first.outcome == Ok::<bool, ErrorView>(false) {
                        first.state.run(items.drop_first(), resume, now, delay_ms).after(
                            first.commands,
                        )
                    } else {
                        first
                    }
                },
            }
        }
    }
}

// ---------------------------------------------------------------------------
// Laws of the session
// ---------------------------------------------------------------------------

/// The sequence number never goes back while a session lasts: a payload
/// leaves it at least as high as it was, unless the payload ends the
/// session, which forgets the number together with the session.
pub proof fn law_sequence_never_goes_back(
    pre: SessionState,
    p: PayloadView,
    resume: bool,
    now: u64,
    delay_ms: u64,
)
    ensures
        ({
            let post = pre.step(p, resume, now, delay_ms);
            ||| sequence_le(pre.last_sequence, post.state.last_sequence)
            ||| (p.op == OpCode::InvalidSession && post.outcome == Ok::<bool, ErrorView>(true)
                && post.state.session_id is None && post.state.last_sequence is None)
        }),
{
}

/// The same holds of the payloads of a whole text.
pub proof fn law_run_sequence_never_goes_back(
    pre: SessionState,
    items: Seq<Result<PayloadView, Seq<char>>>,
    resume: bool,
    now: u64,
    delay_ms: u64,
)
    ensures
        ({
            let post = pre.run(items, resume, now, delay_ms);
            ||| sequence_le(pre.last_sequence, post.state.last_sequence)
            ||| (post.outcome == Ok::<bool, ErrorView>(true) && post.state.session_id is None
                && post.state.last_sequence is None)
        }),
    decreases items.len(),
{
    if items.len() > 0 {
        match items[0] {
            Err(_) => {},
            Ok(p) => {
                let first = pre.step(p, resume, now, delay_ms);
                law_sequence_never_goes_back(pre, p, resume, now, delay_ms);
                if first.outcome == Ok::<bool, ErrorView>(false) {
                    law_run_sequence_never_goes_back(
                        first.state,
                        items.drop_first(),
                        resume,
                        now,
                        delay_ms,
                    );
                }
            },
        }
    }
}

/// The session identifier and the URL to resume at are both there or both
/// absent, whatever comes in; and after a READY both are there.
pub proof fn law_session_and_resume_url_together(
    pre: SessionState,
    p: PayloadView,
    resume: bool,
    now: u64,
    delay_ms: u64,
)
    requires
        pre.wf(),
    ensures
        ({
            let post = pre.step(p, resume, now, delay_ms);
            &&& post.state.wf()
            &&& (p.op == OpCode::Dispatch && p.event_kind() == EventKind::Ready && post.outcome
                is Ok) ==> (post.state.session_id is Some && post.state.resume_url is Some)
        }),
{
}

/// A heartbeat acknowledgement sets the acknowledgement clock to the time
/// at which it came, and nothing else does.
pub proof fn law_ack_clock(pre: SessionState, p: PayloadView, resume: bool, now: u64, delay_ms: u64)
    ensures
        pre.step(p, resume, now, delay_ms).state.last_ack == if p.op == OpCode::HeartbeatAck {
            now
        } else {
            pre.last_ack
        },
{
}

} // verus!
