use crate::snowflake::Snowflake;
use crate::model::presence::PresenceUpdate;
use crate::model::presence::PresenceView;
use vstd::prelude::*;
use vstd::std_specs::convert::FromSpecImpl;
use vstd::string::StringExecFns;

verus! {

/// The op-code of a gateway payload. On the wire it is a number; a number that the library does
/// not know is kept as it came.
#[derive(Debug, Clone, Copy, PartialEq, Eq, Structural, Hash)]
pub enum OpCode {
    Dispatch,
    Heartbeat,
    Identify,
    PresenceUpdate,
    VoiceStateUpdate,
    Resume,
    Reconnect,
    RequestGuildMembers,
    InvalidSession,
    Hello,
    HeartbeatAck,
    Unknown(u8),
}

impl OpCode {
    /// Whether `code` is a gateway op-code that the library knows.
    pub open spec fn is_known(code: u8) -> bool {
        code == 0 || code == 1 || code == 2 || code == 3 || code == 4 || code == 6 || code == 7 || code == 8 || code == 9 || code == 10 || code == 11
    }

    /// The gateway op-code that `code` stands for.
    pub open spec fn of_code(code: u8) -> OpCode {
        if code == 0 {
            OpCode::Dispatch
        } else if code == 1 {
            OpCode::Heartbeat
        } else if code == 2 {
            OpCode::Identify
        } else if code == 3 {
            OpCode::PresenceUpdate
        } else if code == 4 {
            OpCode::VoiceStateUpdate
        } else if code == 6 {
            OpCode::Resume
        } else if code == 7 {
            OpCode::Reconnect
        } else if code == 8 {
            OpCode::RequestGuildMembers
        } else if code == 9 {
            OpCode::InvalidSession
        } else if code == 10 {
            OpCode::Hello
        } else if code == 11 {
            OpCode::HeartbeatAck
        } else {
            OpCode::Unknown(code)
        }
    }

    /// The number that stands for the gateway op-code.
    pub open spec fn code(self) -> u8 {
        match self {
            OpCode::Dispatch => 0,
            OpCode::Heartbeat => 1,
            OpCode::Identify => 2,
            OpCode::PresenceUpdate => 3,
            OpCode::VoiceStateUpdate => 4,
            OpCode::Resume => 6,
            OpCode::Reconnect => 7,
            OpCode::RequestGuildMembers => 8,
            OpCode::InvalidSession => 9,
            OpCode::Hello => 10,
            OpCode::HeartbeatAck => 11,
            OpCode::Unknown(code) => code,
        }
    }
}

impl From<u8> for OpCode {
    fn from(v: u8) -> (r: Self) {
        match v {
            0 => OpCode::Dispatch,
            1 => OpCode::Heartbeat,
            2 => OpCode::Identify,
            3 => OpCode::PresenceUpdate,
            4 => OpCode::VoiceStateUpdate,
            6 => OpCode::Resume,
            7 => OpCode::Reconnect,
            8 => OpCode::RequestGuildMembers,
            9 => OpCode::InvalidSession,
            10 => OpCode::Hello,
            11 => OpCode::HeartbeatAck,
            _ => OpCode::Unknown(v),
        }
    }
}

impl FromSpecImpl<u8> for OpCode {
    open spec fn obeys_from_spec() -> bool {
        true
    }

    open spec fn from_spec(v: u8) -> Self {
        OpCode::of_code(v)
    }
}

impl From<OpCode> for u8 {
    fn from(v: OpCode) -> (r: u8) {
        match v {
            OpCode::Dispatch => 0,
            OpCode::Heartbeat => 1,
            OpCode::Identify => 2,
            OpCode::PresenceUpdate => 3,
            OpCode::VoiceStateUpdate => 4,
            OpCode::Resume => 6,
            OpCode::Reconnect => 7,
            OpCode::RequestGuildMembers => 8,
            OpCode::InvalidSession => 9,
            OpCode::Hello => 10,
            OpCode::HeartbeatAck => 11,
            OpCode::Unknown(code) => code,
        }
    }
}

impl FromSpecImpl<OpCode> for u8 {
    open spec fn obeys_from_spec() -> bool {
        true
    }

    open spec fn from_spec(v: OpCode) -> u8 {
        v.code()
    }
}

/// A number turned into a gateway op-code and back is the same number, whether the
/// library knows it or not; one that it does not know is kept in `Unknown`.
pub proof fn law_op_code_round_trip(code: u8)
    ensures
        OpCode::of_code(code).code() == code,
        !OpCode::is_known(code) <==> OpCode::of_code(code) == OpCode::Unknown(code),
{
}

/// One frame of the gateway protocol: an op-code, its data, and for
/// dispatches a sequence number and an event name.
#[derive(Debug)]
pub struct GatewayPayload<T> {
    pub op: OpCode,
    pub d: Option<T>,
    pub s: Option<u64>,
    pub t: Option<String>,
}

/// What a session tells the gateway about itself when it identifies.
#[derive(Debug)]
pub struct Identify {
    pub token: String,
    pub properties: IdentifyProperties,
    pub compress: Option<bool>,
    pub large_threshold: Option<u8>,
    pub shard: Option<[u64; 2]>,
    pub presence: Option<PresenceUpdate>,
    pub intents: u64,
}

/// The connection properties of an `Identify`.
#[derive(Debug)]
pub struct IdentifyProperties {
    pub os: String,
    pub browser: String,
    pub device: String,
}

/// An `IdentifyProperties` with its texts as sequences of characters.
pub struct PropertiesView {
    pub os: Seq<char>,
    pub browser: Seq<char>,
    pub device: Seq<char>,
}

/// An `Identify` with its texts as sequences of characters.
pub struct IdentifyView {
    pub token: Seq<char>,
    pub properties: PropertiesView,
    pub compress: Option<bool>,
    pub large_threshold: Option<u8>,
    pub shard: Option<(u64, u64)>,
    pub presence: Option<PresenceView>,
    pub intents: u64,
}

/// The shard index and count of a pair, if there is one.
pub open spec fn shard_view(shard: Option<[u64; 2]>) -> Option<(u64, u64)> {
    match shard {
        Some(pair) => Some((pair[0], pair[1])),
        None => None,
    }
}

/// The view of a presence, if there is one.
pub open spec fn presence_view(presence: Option<PresenceUpdate>) -> Option<PresenceView> {
    match presence {
        Some(p) => Some(p@),
        None => None,
    }
}

impl View for IdentifyProperties {
    type V = PropertiesView;

    open spec fn view(&self) -> PropertiesView {
        PropertiesView { os: self.os@, browser: self.browser@, device: self.device@ }
    }
}

impl View for Identify {
    type V = IdentifyView;

    open spec fn view(&self) -> IdentifyView {
        IdentifyView {
            token: self.token@,
            properties: self.properties@,
            compress: self.compress,
            large_threshold: self.large_threshold,
            shard: shard_view(self.shard),
            presence: presence_view(self.presence),
            intents: self.intents,
        }
    }
}

impl IdentifyProperties {
    /// The properties of this library on the operating system `os`.
    pub fn for_os(os: &str) -> (p: Self)
        ensures
            p@ == (PropertiesView { os: os@, browser: "discord_rs"@, device: "discord_rs"@ }),
    {
        IdentifyProperties {
            os: String::from_str(os),
            browser: String::from_str("discord_rs"),
            device: String::from_str("discord_rs"),
        }
    }
}

impl Clone for IdentifyProperties {
    fn clone(&self) -> (p: Self)
        ensures
            p == *self,
    {
        IdentifyProperties {
            os: self.os.clone(),
            browser: self.browser.clone(),
            device: self.device.clone(),
        }
    }
}

/// The first payload of a connection: how often the gateway wants a
/// heartbeat, in milliseconds.
#[derive(Debug, Clone, Copy)]
pub struct Hello {
    pub heartbeat_interval: u64,
}

/// The data of the READY dispatch.
#[derive(Debug, Clone)]
pub struct Ready {
    pub v: u8,
    pub user: CurrentUser,
    pub guilds: Vec<UnavailableGuild>,
    pub session_id: String,
    pub resume_gateway_url: String,
}

/// The user that the session runs as.
#[derive(Debug, Clone)]
pub struct CurrentUser {
    pub id: Snowflake,
    pub username: String,
    pub discriminator: String,
    pub bot: bool,
}

/// A guild that READY announces before its data arrives.
#[derive(Debug, Clone)]
pub struct UnavailableGuild {
    pub id: Snowflake,
    pub unavailable: bool,
}

} // verus!
