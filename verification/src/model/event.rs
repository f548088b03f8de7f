//! The events that a session hands to the host.

use crate::model::gateway::Ready;
use crate::model::guild::Guild;
use crate::model::interaction::Interaction;
use crate::model::message::Message;
use crate::text::same_text;
use serde_json::Value;
use vstd::prelude::*;

verus! {

/// An event of the gateway, decoded by its name.
#[derive(Debug)]
pub enum Event {
    Ready(Ready),
    Resumed(Value),
    MessageCreate(Box<Message>),
    MessageUpdate(Box<Message>),
    MessageDelete(Value),
    GuildCreate(Guild),
    GuildUpdate(Guild),
    GuildDelete(Value),
    InteractionCreate(Interaction),
    /// An event whose name the library does not know.
    Unknown,
}

/// Which event a dispatch carries, as its name says.
#[derive(Debug, Clone, Copy, PartialEq, Eq, Structural)]
pub enum EventKind {
    Ready,
    Resumed,
    MessageCreate,
    MessageUpdate,
    MessageDelete,
    GuildCreate,
    GuildUpdate,
    GuildDelete,
    InteractionCreate,
    Unknown,
}

impl EventKind {
    /// The kind of event that the name `t` stands for; a name that the
    /// library does not know stands for `Unknown`.
    pub open spec fn of_name(t: Seq<char>) -> EventKind {
        if t == "READY"@ {
            EventKind::Ready
        } else if t == "RESUMED"@ {
            EventKind::Resumed
        } else if t == "MESSAGE_CREATE"@ {
            EventKind::MessageCreate
        } else if t == "MESSAGE_UPDATE"@ {
            EventKind::MessageUpdate
        } else if t == "MESSAGE_DELETE"@ {
            EventKind::MessageDelete
        } else if t == "GUILD_CREATE"@ {
            EventKind::GuildCreate
        } else if t == "GUILD_UPDATE"@ {
            EventKind::GuildUpdate
        } else if t == "GUILD_DELETE"@ {
            EventKind::GuildDelete
        } else if t == "INTERACTION_CREATE"@ {
            EventKind::InteractionCreate
        } else {
            EventKind::Unknown
        }
    }

    /// The kind of event that the name `t` stands for.
    pub fn from_name(t: &str) -> (k: EventKind)
        ensures
            k == EventKind::of_name(t@),
    {
        if same_text(t, "READY") {
            EventKind::Ready
        } else if same_text(t, "RESUMED") {
            EventKind::Resumed
        } else if same_text(t, "MESSAGE_CREATE") {
            EventKind::MessageCreate
        } else if same_text(t, "MESSAGE_UPDATE") {
            EventKind::MessageUpdate
        } else if same_text(t, "MESSAGE_DELETE") {
            EventKind::MessageDelete
        } else if same_text(t, "GUILD_CREATE") {
            EventKind::GuildCreate
        } else if same_text(t, "GUILD_UPDATE") {
            EventKind::GuildUpdate
        } else if same_text(t, "GUILD_DELETE") {
            EventKind::GuildDelete
        } else if same_text(t, "INTERACTION_CREATE") {
            EventKind::InteractionCreate
        } else {
            EventKind::Unknown
        }
    }
}

impl Event {
    /// Which event this is.
    pub open spec fn kind_spec(self) -> EventKind {
        match self {
            Event::Ready(_) => EventKind::Ready,
            Event::Resumed(_) => EventKind::Resumed,
            Event::MessageCreate(_) => EventKind::MessageCreate,
            Event::MessageUpdate(_) => EventKind::MessageUpdate,
            Event::MessageDelete(_) => EventKind::MessageDelete,
            Event::GuildCreate(_) => EventKind::GuildCreate,
            Event::GuildUpdate(_) => EventKind::GuildUpdate,
            Event::GuildDelete(_) => EventKind::GuildDelete,
            Event::InteractionCreate(_) => EventKind::InteractionCreate,
            Event::Unknown => EventKind::Unknown,
        }
    }

    /// Which event this is.
    pub fn kind(&self) -> (k: EventKind)
        ensures
            k == self.kind_spec(),
    {
        match self {
            Event::Ready(_) => EventKind::Ready,
            Event::Resumed(_) => EventKind::Resumed,
            Event::MessageCreate(_) => EventKind::MessageCreate,
            Event::MessageUpdate(_) => EventKind::MessageUpdate,
            Event::MessageDelete(_) => EventKind::MessageDelete,
            Event::GuildCreate(_) => EventKind::GuildCreate,
            Event::GuildUpdate(_) => EventKind::GuildUpdate,
            Event::GuildDelete(_) => EventKind::GuildDelete,
            Event::InteractionCreate(_) => EventKind::InteractionCreate,
            Event::Unknown => EventKind::Unknown,
        }
    }
}

} // verus!
