use crate::model::channel::Channel;
use crate::model::embed::Embed;
use crate::model::member::Member;
use crate::model::message::AllowedMentions;
use crate::model::message::Message;
use crate::model::role::Role;
use crate::model::user::User;
use crate::snowflake::Snowflake;
use serde_json::Value;
use std::collections::HashMap;
use vstd::prelude::*;
use vstd::std_specs::convert::FromSpecImpl;

verus! {

#[derive(Debug)]
pub struct Interaction {
    pub id: Snowflake,
    pub application_id: Snowflake,
    pub kind: InteractionType,
    pub data: Option<InteractionData>,
    pub guild_id: Option<Snowflake>,
    pub channel_id: Option<Snowflake>,
    pub member: Option<Member>,
    pub user: Option<User>,
    pub token: String,
    pub version: u8,
    pub message: Option<Message>,
    pub app_permissions: Option<String>,
    pub locale: Option<String>,
    pub guild_locale: Option<String>,
}

/// The kind of an interaction. On the wire it is a number; a number that the library does
/// not know is kept as it came.
#[derive(Debug, Clone, Copy, PartialEq, Eq, Structural)]
pub enum InteractionType {
    Ping,
    ApplicationCommand,
    MessageComponent,
    ApplicationCommandAutocomplete,
    ModalSubmit,
    Unknown(u8),
}

impl InteractionType {
    /// Whether `code` is a interaction type that the library knows.
    pub open spec fn is_known(code: u8) -> bool {
        code == 1 || code == 2 || code == 3 || code == 4 || code == 5
    }

    /// The interaction type that `code` stands for.
    pub open spec fn of_code(code: u8) -> InteractionType {
        if code == 1 {
            InteractionType::Ping
        } else if code == 2 {
            InteractionType::ApplicationCommand
        } else if code == 3 {
            InteractionType::MessageComponent
        } else if code == 4 {
            InteractionType::ApplicationCommandAutocomplete
        } else if code == 5 {
            InteractionType::ModalSubmit
        } else {
            InteractionType::Unknown(code)
        }
    }

    /// The number that stands for the interaction type.
    pub open spec fn code(self) -> u8 {
        match self {
            InteractionType::Ping => 1,
            InteractionType::ApplicationCommand => 2,
            InteractionType::MessageComponent => 3,
            InteractionType::ApplicationCommandAutocomplete => 4,
            InteractionType::ModalSubmit => 5,
            InteractionType::Unknown(code) => code,
        }
    }
}

impl From<u8> for InteractionType {
    fn from(v: u8) -> (r: Self) {
        match v {
            1 => InteractionType::Ping,
            2 => InteractionType::ApplicationCommand,
            3 => InteractionType::MessageComponent,
            4 => InteractionType::ApplicationCommandAutocomplete,
            5 => InteractionType::ModalSubmit,
            _ => InteractionType::Unknown(v),
        }
    }
}

impl FromSpecImpl<u8> for InteractionType {
    open spec fn obeys_from_spec() -> bool {
        true
    }

    open spec fn from_spec(v: u8) -> Self {
        InteractionType::of_code(v)
    }
}

impl From<InteractionType> for u8 {
    fn from(v: InteractionType) -> (r: u8) {
        match v {
            InteractionType::Ping => 1,
            InteractionType::ApplicationCommand => 2,
            InteractionType::MessageComponent => 3,
            InteractionType::ApplicationCommandAutocomplete => 4,
            InteractionType::ModalSubmit => 5,
            InteractionType::Unknown(code) => code,
        }
    }
}

impl FromSpecImpl<InteractionType> for u8 {
    open spec fn obeys_from_spec() -> bool {
        true
    }

    open spec fn from_spec(v: InteractionType) -> u8 {
        v.code()
    }
}

/// A number turned into a interaction type and back is the same number, whether the
/// library knows it or not; one that it does not know is kept in `Unknown`.
pub proof fn law_interaction_type_round_trip(code: u8)
    ensures
        InteractionType::of_code(code).code() == code,
        !InteractionType::is_known(code) <==> InteractionType::of_code(code) == InteractionType::Unknown(code),
{
}

#[derive(Debug)]
pub enum InteractionData {
    ApplicationCommand(ApplicationCommandData),
    MessageComponent(MessageComponentData),
    ModalSubmit(ModalSubmitData),
}

#[derive(Debug)]
pub struct ApplicationCommandData {
    pub id: Snowflake,
    pub name: String,
    pub kind: ApplicationCommandType,
    pub resolved: Option<ResolvedData>,
    pub options: Option<Vec<ApplicationCommandInteractionDataOption>>,
    pub guild_id: Option<Snowflake>,
    pub target_id: Option<Snowflake>,
}

/// The kind of an application command. On the wire it is a number; a number that the library does
/// not know is kept as it came.
#[derive(Debug, Clone, Copy, PartialEq, Eq, Structural)]
pub enum ApplicationCommandType {
    ChatInput,
    User,
    Message,
    Unknown(u8),
}

impl ApplicationCommandType {
    /// Whether `code` is a command type that the library knows.
    pub open spec fn is_known(code: u8) -> bool {
        code == 1 || code == 2 || code == 3
    }

    /// The command type that `code` stands for.
    pub open spec fn of_code(code: u8) -> ApplicationCommandType {
        if code == 1 {
            ApplicationCommandType::ChatInput
        } else if code == 2 {
            ApplicationCommandType::User
        } else if code == 3 {
            ApplicationCommandType::Message
        } else {
            ApplicationCommandType::Unknown(code)
        }
    }

    /// The number that stands for the command type.
    pub open spec fn code(self) -> u8 {
        match self {
            ApplicationCommandType::ChatInput => 1,
            ApplicationCommandType::User => 2,
            ApplicationCommandType::Message => 3,
            ApplicationCommandType::Unknown(code) => code,
        }
    }
}

impl From<u8> for ApplicationCommandType {
    fn from(v: u8) -> (r: Self) {
        match v {
            1 => ApplicationCommandType::ChatInput,
            2 => ApplicationCommandType::User,
            3 => ApplicationCommandType::Message,
            _ => ApplicationCommandType::Unknown(v),
        }
    }
}

impl FromSpecImpl<u8> for ApplicationCommandType {
    open spec fn obeys_from_spec() -> bool {
        true
    }

    open spec fn from_spec(v: u8) -> Self {
        ApplicationCommandType::of_code(v)
    }
}

impl From<ApplicationCommandType> for u8 {
    fn from(v: ApplicationCommandType) -> (r: u8) {
        match v {
            ApplicationCommandType::ChatInput => 1,
            ApplicationCommandType::User => 2,
            ApplicationCommandType::Message => 3,
            ApplicationCommandType::Unknown(code) => code,
        }
    }
}

impl FromSpecImpl<ApplicationCommandType> for u8 {
    open spec fn obeys_from_spec() -> bool {
        true
    }

    open spec fn from_spec(v: ApplicationCommandType) -> u8 {
        v.code()
    }
}

/// A number turned into a command type and back is the same number, whether the
/// library knows it or not; one that it does not know is kept in `Unknown`.
pub proof fn law_application_command_type_round_trip(code: u8)
    ensures
        ApplicationCommandType::of_code(code).code() == code,
        !ApplicationCommandType::is_known(code) <==> ApplicationCommandType::of_code(code) == ApplicationCommandType::Unknown(code),
{
}

#[derive(Debug)]
pub struct ResolvedData {
    pub users: Option<HashMap<Snowflake, User>>,
    pub members: Option<HashMap<Snowflake, Member>>,
    pub roles: Option<HashMap<Snowflake, Role>>,
    pub channels: Option<HashMap<Snowflake, Channel>>,
    pub messages: Option<HashMap<Snowflake, Message>>,
}

#[derive(Debug)]
pub struct ApplicationCommandInteractionDataOption {
    pub name: String,
    pub kind: u8,
    pub value: Option<Value>,
    pub options: Option<Vec<ApplicationCommandInteractionDataOption>>,
    pub focused: Option<bool>,
}

#[derive(Debug, Clone)]
pub struct MessageComponentData {
    pub custom_id: String,
    pub component_type: u8,
    pub values: Option<Vec<String>>,
}

#[derive(Debug, Clone)]
pub struct ModalSubmitData {
    pub custom_id: String,
    pub components: Vec<Value>,
}

#[derive(Debug, Clone)]
pub struct InteractionResponse {
    pub kind: InteractionResponseType,
    pub data: Option<InteractionResponseData>,
}

/// The kind of a response to an interaction. On the wire it is a number; a number that the library does
/// not know is kept as it came.
#[derive(Debug, Clone, Copy, PartialEq, Eq, Structural)]
pub enum InteractionResponseType {
    Pong,
    ChannelMessageWithSource,
    DeferredChannelMessageWithSource,
    DeferredUpdateMessage,
    UpdateMessage,
    ApplicationCommandAutocompleteResult,
    Modal,
    Unknown(u8),
}

impl InteractionResponseType {
    /// Whether `code` is a response type that the library knows.
    pub open spec fn is_known(code: u8) -> bool {
        code == 1 || code == 4 || code == 5 || code == 6 || code == 7 || code == 8 || code == 9
    }

    /// The response type that `code` stands for.
    pub open spec fn of_code(code: u8) -> InteractionResponseType {
        if code == 1 {
            InteractionResponseType::Pong
        } else if code == 4 {
            InteractionResponseType::ChannelMessageWithSource
        } else if code == 5 {
            InteractionResponseType::DeferredChannelMessageWithSource
        } else if code == 6 {
            InteractionResponseType::DeferredUpdateMessage
        } else if code == 7 {
            InteractionResponseType::UpdateMessage
        } else if code == 8 {
            InteractionResponseType::ApplicationCommandAutocompleteResult
        } else if code == 9 {
            InteractionResponseType::Modal
        } else {
            InteractionResponseType::Unknown(code)
        }
    }

    /// The number that stands for the response type.
    pub open spec fn code(self) -> u8 {
        match self {
            InteractionResponseType::Pong => 1,
            InteractionResponseType::ChannelMessageWithSource => 4,
            InteractionResponseType::DeferredChannelMessageWithSource => 5,
            InteractionResponseType::DeferredUpdateMessage => 6,
            InteractionResponseType::UpdateMessage => 7,
            InteractionResponseType::ApplicationCommandAutocompleteResult => 8,
            InteractionResponseType::Modal => 9,
            InteractionResponseType::Unknown(code) => code,
        }
    }
}

impl From<u8> for InteractionResponseType {
    fn from(v: u8) -> (r: Self) {
        match v {
            1 => InteractionResponseType::Pong,
            4 => InteractionResponseType::ChannelMessageWithSource,
            5 => InteractionResponseType::DeferredChannelMessageWithSource,
            6 => InteractionResponseType::DeferredUpdateMessage,
            7 => InteractionResponseType::UpdateMessage,
            8 => InteractionResponseType::ApplicationCommandAutocompleteResult,
            9 => InteractionResponseType::Modal,
            _ => InteractionResponseType::Unknown(v),
        }
    }
}

impl FromSpecImpl<u8> for InteractionResponseType {
    open spec fn obeys_from_spec() -> bool {
        true
    }

    open spec fn from_spec(v: u8) -> Self {
        InteractionResponseType::of_code(v)
    }
}

impl From<InteractionResponseType> for u8 {
    fn from(v: InteractionResponseType) -> (r: u8) {
        match v {
            InteractionResponseType::Pong => 1,
            InteractionResponseType::ChannelMessageWithSource => 4,
            InteractionResponseType::DeferredChannelMessageWithSource => 5,
            InteractionResponseType::DeferredUpdateMessage => 6,
            InteractionResponseType::UpdateMessage => 7,
            InteractionResponseType::ApplicationCommandAutocompleteResult => 8,
            InteractionResponseType::Modal => 9,
            InteractionResponseType::Unknown(code) => code,
        }
    }
}

impl FromSpecImpl<InteractionResponseType> for u8 {
    open spec fn obeys_from_spec() -> bool {
        true
    }

    open spec fn from_spec(v: InteractionResponseType) -> u8 {
        v.code()
    }
}

/// A number turned into a response type and back is the same number, whether the
/// library knows it or not; one that it does not know is kept in `Unknown`.
pub proof fn law_interaction_response_type_round_trip(code: u8)
    ensures
        InteractionResponseType::of_code(code).code() == code,
        !InteractionResponseType::is_known(code) <==> InteractionResponseType::of_code(code) == InteractionResponseType::Unknown(code),
{
}

#[derive(Debug, Clone)]
pub struct InteractionResponseData {
    pub tts: Option<bool>,
    pub content: Option<String>,
    pub embeds: Option<Vec<Embed>>,
    pub allowed_mentions: Option<AllowedMentions>,
    pub flags: Option<u64>,
    pub components: Option<Vec<Value>>,
    pub choices: Option<Vec<Value>>,
    pub custom_id: Option<String>,
    pub title: Option<String>,
}

} // verus!
