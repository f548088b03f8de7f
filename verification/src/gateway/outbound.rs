//! What a session sends to the gateway, and what it asks of the
//! transport.

use crate::error::DiscordError;
use crate::error::ErrorView;
use crate::model::event::Event;
use crate::model::gateway::Identify;
use crate::model::gateway::IdentifyView;
use crate::model::gateway::OpCode;
use crate::model::presence::PresenceUpdate;
use crate::model::presence::PresenceView;
use vstd::prelude::*;
use vstd::string::StringExecFns;

verus! {

/// The data of a RESUME payload.
#[derive(Debug)]
pub struct Resume {
    pub token: String,
    pub session_id: String,
    pub seq: Option<u64>,
}

/// A `Resume` with its texts as sequences of characters.
pub struct ResumeView {
    pub token: Seq<char>,
    pub session_id: Seq<char>,
    pub seq: Option<u64>,
}

impl View for Resume {
    type V = ResumeView;

    open spec fn view(&self) -> ResumeView {
        ResumeView { token: self.token@, session_id: self.session_id@, seq: self.seq }
    }
}

/// A payload that the session sends to the gateway.
#[derive(Debug)]
pub enum Outbound {
    /// Op 1, with the last sequence number seen, if any.
    Heartbeat(Option<u64>),
    /// Op 2.
    Identify(Identify),
    /// Op 6.
    Resume(Resume),
    /// Op 3.
    PresenceUpdate(PresenceUpdate),
}

/// An `Outbound` with its texts as sequences of characters.
pub enum OutboundView {
    Heartbeat(Option<u64>),
    Identify(IdentifyView),
    Resume(ResumeView),
    PresenceUpdate(PresenceView),
}

impl View for Outbound {
    type V = OutboundView;

    open spec fn view(&self) -> OutboundView {
        match self {
            Outbound::Heartbeat(seq) => OutboundView::Heartbeat(*seq),
            Outbound::Identify(i) => OutboundView::Identify(i@),
            Outbound::Resume(r) => OutboundView::Resume(r@),
            Outbound::PresenceUpdate(p) => OutboundView::PresenceUpdate(p@),
        }
    }
}

impl OutboundView {
    /// The op-code under which the payload travels.
    pub open spec fn op(self) -> OpCode {
        match self {
            OutboundView::Heartbeat(_) => OpCode::Heartbeat,
            OutboundView::Identify(_) => OpCode::Identify,
            OutboundView::Resume(_) => OpCode::Resume,
            OutboundView::PresenceUpdate(_) => OpCode::PresenceUpdate,
        }
    }

    /// What is reported when the payload could not be sent.
    pub open spec fn send_failure(self) -> ErrorView {
        match self {
            OutboundView::Heartbeat(_) => ErrorView::Gateway("Failed to send Heartbeat"@),
            OutboundView::Identify(_) => ErrorView::Gateway("Failed to send Identify"@),
            OutboundView::Resume(_) => ErrorView::Gateway("Failed to send Resume"@),
            OutboundView::PresenceUpdate(_) => ErrorView::Gateway(
                "Failed to send Presence Update"@,
            ),
        }
    }
}

impl Outbound {
    /// The op-code under which the payload travels.
    pub fn op(&self) -> (op: OpCode)
        ensures
            op == self@.op(),
    {
        match self {
            Outbound::Heartbeat(_) => OpCode::Heartbeat,
            Outbound::Identify(_) => OpCode::Identify,
            Outbound::Resume(_) => OpCode::Resume,
            Outbound::PresenceUpdate(_) => OpCode::PresenceUpdate,
        }
    }

    /// The error to report when the payload could not be sent.
    pub fn send_failure(&self) -> (e: DiscordError)
        ensures
            e@ == self@.send_failure(),
    {
        match self {
            Outbound::Heartbeat(_) => DiscordError::Gateway(
                String::from_str("Failed to send Heartbeat"),
            ),
            Outbound::Identify(_) => DiscordError::Gateway(
                String::from_str("Failed to send Identify"),
            ),
            Outbound::Resume(_) => DiscordError::Gateway(String::from_str("Failed to send Resume")),
            Outbound::PresenceUpdate(_) => DiscordError::Gateway(
                String::from_str("Failed to send Presence Update"),
            ),
        }
    }
}

/// What the transport does for the session, in the order given.
#[derive(Debug)]
pub enum Command {
    /// Send the payload to the gateway.
    Send(Outbound),
    /// Start the timer that ticks every so many milliseconds.
    StartHeartbeat(u64),
    /// Hand the event to the host.
    Emit(Event),
    /// Wait so many milliseconds.
    Sleep(u64),
}

/// A `Command` with its texts as sequences of characters.
pub enum CommandView {
    Send(OutboundView),
    StartHeartbeat(u64),
    Emit(Event),
    Sleep(u64),
}

impl View for Command {
    type V = CommandView;

    open spec fn view(&self) -> CommandView {
        match self {
            Command::Send(o) => CommandView::Send(o@),
            Command::StartHeartbeat(ms) => CommandView::StartHeartbeat(*ms),
            Command::Emit(e) => CommandView::Emit(*e),
            Command::Sleep(ms) => CommandView::Sleep(*ms),
        }
    }
}

/// The views of a sequence of commands.
pub open spec fn commands_view(commands: Seq<Command>) -> Seq<CommandView> {
    commands.map_values(|c: Command| c@)
}

/// What the heartbeat timer does at a tick.
#[derive(Debug)]
pub enum HeartbeatAction {
    /// The timer ends: the connection is being shut down.
    Stop,
    /// No acknowledgement came for too long: the connection is dead, the
    /// timer ends and the session connects again.
    Zombie,
    /// Send this heartbeat.
    Send(Outbound),
}

} // verus!
