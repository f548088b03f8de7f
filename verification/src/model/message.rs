use crate::model::attachment::Attachment;
use crate::model::channel::Channel;
use crate::model::embed::Embed;
use crate::model::member::Member;
use crate::model::reaction::Reaction;
use crate::model::sticker::Sticker;
use crate::model::user::User;
use crate::snowflake::Snowflake;
use serde_json::Value;
use vstd::prelude::*;
use vstd::std_specs::convert::FromSpecImpl;

verus! {

#[derive(Debug)]
pub struct Message {
    pub id: Snowflake,
    pub channel_id: Snowflake,
    pub guild_id: Option<Snowflake>,
    pub author: User,
    pub member: Option<Member>,
    pub content: String,
    pub timestamp: String,
    pub edited_timestamp: Option<String>,
    pub tts: bool,
    pub mention_everyone: bool,
    pub mentions: Vec<User>,
    pub mention_roles: Vec<Snowflake>,
    pub mention_channels: Vec<ChannelMention>,
    pub attachments: Vec<Attachment>,
    pub embeds: Vec<Embed>,
    pub reactions: Vec<Reaction>,
    pub nonce: Option<Value>,
    pub pinned: bool,
    pub webhook_id: Option<Snowflake>,
    pub kind: MessageType,
    pub activity: Option<MessageActivity>,
    pub application: Option<MessageApplication>,
    pub application_id: Option<Snowflake>,
    pub message_reference: Option<MessageReference>,
    pub flags: i32,
    pub referenced_message: Option<Box<Message>>,
    pub interaction: Option<Value>,
    pub thread: Option<Channel>,
    pub components: Vec<Value>,
    pub sticker_items: Vec<StickerItem>,
    pub stickers: Vec<Sticker>,
    pub position: Option<i32>,
    pub role_subscription_data: Option<Value>,
}

/// The kind of a message. On the wire it is a number; a number that the library does
/// not know is kept as it came.
#[derive(Debug, Clone, Copy, PartialEq, Eq, Structural)]
pub enum MessageType {
    Default,
    RecipientAdd,
    RecipientRemove,
    Call,
    ChannelNameChange,
    ChannelIconChange,
    ChannelPinnedMessage,
    UserJoin,
    GuildBoost,
    GuildBoostTier1,
    GuildBoostTier2,
    GuildBoostTier3,
    ChannelFollowAdd,
    GuildDiscoveryDisqualified,
    GuildDiscoveryRequalified,
    GuildDiscoveryGracePeriodInitialWarning,
    GuildDiscoveryGracePeriodFinalWarning,
    ThreadCreated,
    Reply,
    ChatInputCommand,
    ThreadStarterMessage,
    GuildInviteReminder,
    ContextMenuCommand,
    AutoModerationAction,
    RoleSubscriptionPurchase,
    InteractionPremiumUpsell,
    StageStart,
    StageEnd,
    StageSpeaker,
    StageTopic,
    GuildApplicationPremiumSubscription,
    Unknown(u8),
}

impl MessageType {
    /// Whether `code` is a message type that the library knows.
    pub open spec fn is_known(code: u8) -> bool {
        code == 0 || code == 1 || code == 2 || code == 3 || code == 4 || code == 5 || code == 6 || code == 7 || code == 8 || code == 9 || code == 10 || code == 11 || code == 12 || code == 14 || code == 15 || code == 16 || code == 17 || code == 18 || code == 19 || code == 20 || code == 21 || code == 22 || code == 23 || code == 24 || code == 25 || code == 26 || code == 27 || code == 28 || code == 29 || code == 31 || code == 32
    }

    /// The message type that `code` stands for.
    pub open spec fn of_code(code: u8) -> MessageType {
        if code == 0 {
            MessageType::Default
        } else if code == 1 {
            MessageType::RecipientAdd
        } else if code == 2 {
            MessageType::RecipientRemove
        } else if code == 3 {
            MessageType::Call
        } else if code == 4 {
            MessageType::ChannelNameChange
        } else if code == 5 {
            MessageType::ChannelIconChange
        } else if code == 6 {
            MessageType::ChannelPinnedMessage
        } else if code == 7 {
            MessageType::UserJoin
        } else if code == 8 {
            MessageType::GuildBoost
        } else if code == 9 {
            MessageType::GuildBoostTier1
        } else if code == 10 {
            MessageType::GuildBoostTier2
        } else if code == 11 {
            MessageType::GuildBoostTier3
        } else if code == 12 {
            MessageType::ChannelFollowAdd
        } else if code == 14 {
            MessageType::GuildDiscoveryDisqualified
        } else if code == 15 {
            MessageType::GuildDiscoveryRequalified
        } else if code == 16 {
            MessageType::GuildDiscoveryGracePeriodInitialWarning
        } else if code == 17 {
            MessageType::GuildDiscoveryGracePeriodFinalWarning
        } else if code == 18 {
            MessageType::ThreadCreated
        } else if code == 19 {
            MessageType::Reply
        } else if code == 20 {
            MessageType::ChatInputCommand
        } else if code == 21 {
            MessageType::ThreadStarterMessage
        } else if code == 22 {
            MessageType::GuildInviteReminder
        } else if code == 23 {
            MessageType::ContextMenuCommand
        } else if code == 24 {
            MessageType::AutoModerationAction
        } else if code == 25 {
            MessageType::RoleSubscriptionPurchase
        } else if code == 26 {
            MessageType::InteractionPremiumUpsell
        } else if code == 27 {
            MessageType::StageStart
        } else if code == 28 {
            MessageType::StageEnd
        } else if code == 29 {
            MessageType::StageSpeaker
        } else if code == 31 {
            MessageType::StageTopic
        } else if code == 32 {
            MessageType::GuildApplicationPremiumSubscription
        } else {
            MessageType::Unknown(code)
        }
    }

    /// The number that stands for the message type.
    pub open spec fn code(self) -> u8 {
        match self {
            MessageType::Default => 0,
            MessageType::RecipientAdd => 1,
            MessageType::RecipientRemove => 2,
            MessageType::Call => 3,
            MessageType::ChannelNameChange => 4,
            MessageType::ChannelIconChange => 5,
            MessageType::ChannelPinnedMessage => 6,
            MessageType::UserJoin => 7,
            MessageType::GuildBoost => 8,
            MessageType::GuildBoostTier1 => 9,
            MessageType::GuildBoostTier2 => 10,
            MessageType::GuildBoostTier3 => 11,
            MessageType::ChannelFollowAdd => 12,
            MessageType::GuildDiscoveryDisqualified => 14,
            MessageType::GuildDiscoveryRequalified => 15,
            MessageType::GuildDiscoveryGracePeriodInitialWarning => 16,
            MessageType::GuildDiscoveryGracePeriodFinalWarning => 17,
            MessageType::ThreadCreated => 18,
            MessageType::Reply => 19,
            MessageType::ChatInputCommand => 20,
            MessageType::ThreadStarterMessage => 21,
            MessageType::GuildInviteReminder => 22,
            MessageType::ContextMenuCommand => 23,
            MessageType::AutoModerationAction => 24,
            MessageType::RoleSubscriptionPurchase => 25,
            MessageType::InteractionPremiumUpsell => 26,
            MessageType::StageStart => 27,
            MessageType::StageEnd => 28,
            MessageType::StageSpeaker => 29,
            MessageType::StageTopic => 31,
            MessageType::GuildApplicationPremiumSubscription => 32,
            MessageType::Unknown(code) => code,
        }
    }
}

impl From<u8> for MessageType {
    fn from(v: u8) -> (r: Self) {
        match v {
            0 => MessageType::Default,
            1 => MessageType::RecipientAdd,
            2 => MessageType::RecipientRemove,
            3 => MessageType::Call,
            4 => MessageType::ChannelNameChange,
            5 => MessageType::ChannelIconChange,
            6 => MessageType::ChannelPinnedMessage,
            7 => MessageType::UserJoin,
            8 => MessageType::GuildBoost,
            9 => MessageType::GuildBoostTier1,
            10 => MessageType::GuildBoostTier2,
            11 => MessageType::GuildBoostTier3,
            12 => MessageType::ChannelFollowAdd,
            14 => MessageType::GuildDiscoveryDisqualified,
            15 => MessageType::GuildDiscoveryRequalified,
            16 => MessageType::GuildDiscoveryGracePeriodInitialWarning,
            17 => MessageType::GuildDiscoveryGracePeriodFinalWarning,
            18 => MessageType::ThreadCreated,
            19 => MessageType::Reply,
            20 => MessageType::ChatInputCommand,
            21 => MessageType::ThreadStarterMessage,
            22 => MessageType::GuildInviteReminder,
            23 => MessageType::ContextMenuCommand,
            24 => MessageType::AutoModerationAction,
            25 => MessageType::RoleSubscriptionPurchase,
            26 => MessageType::InteractionPremiumUpsell,
            27 => MessageType::StageStart,
            28 => MessageType::StageEnd,
            29 => MessageType::StageSpeaker,
            31 => MessageType::StageTopic,
            32 => MessageType::GuildApplicationPremiumSubscription,
            _ => MessageType::Unknown(v),
        }
    }
}

impl FromSpecImpl<u8> for MessageType {
    open spec fn obeys_from_spec() -> bool {
        true
    }

    open spec fn from_spec(v: u8) -> Self {
        MessageType::of_code(v)
    }
}

impl From<MessageType> for u8 {
    fn from(v: MessageType) -> (r: u8) {
        match v {
            MessageType::Default => 0,
            MessageType::RecipientAdd => 1,
            MessageType::RecipientRemove => 2,
            MessageType::Call => 3,
            MessageType::ChannelNameChange => 4,
            MessageType::ChannelIconChange => 5,
            MessageType::ChannelPinnedMessage => 6,
            MessageType::UserJoin => 7,
            MessageType::GuildBoost => 8,
            MessageType::GuildBoostTier1 => 9,
            MessageType::GuildBoostTier2 => 10,
            MessageType::GuildBoostTier3 => 11,
            MessageType::ChannelFollowAdd => 12,
            MessageType::GuildDiscoveryDisqualified => 14,
            MessageType::GuildDiscoveryRequalified => 15,
            MessageType::GuildDiscoveryGracePeriodInitialWarning => 16,
            MessageType::GuildDiscoveryGracePeriodFinalWarning => 17,
            MessageType::ThreadCreated => 18,
            MessageType::Reply => 19,
            MessageType::ChatInputCommand => 20,
            MessageType::ThreadStarterMessage => 21,
            MessageType::GuildInviteReminder => 22,
            MessageType::ContextMenuCommand => 23,
            MessageType::AutoModerationAction => 24,
            MessageType::RoleSubscriptionPurchase => 25,
            MessageType::InteractionPremiumUpsell => 26,
            MessageType::StageStart => 27,
            MessageType::StageEnd => 28,
            MessageType::StageSpeaker => 29,
            MessageType::StageTopic => 31,
            MessageType::GuildApplicationPremiumSubscription => 32,
            MessageType::Unknown(code) => code,
        }
    }
}

impl FromSpecImpl<MessageType> for u8 {
    open spec fn obeys_from_spec() -> bool {
        true
    }

    open spec fn from_spec(v: MessageType) -> u8 {
        v.code()
    }
}

/// A number turned into a message type and back is the same number, whether the
/// library knows it or not; one that it does not know is kept in `Unknown`.
pub proof fn law_message_type_round_trip(code: u8)
    ensures
        MessageType::of_code(code).code() == code,
        !MessageType::is_known(code) <==> MessageType::of_code(code) == MessageType::Unknown(code),
{
}

#[derive(Debug, Clone)]
pub struct ChannelMention {
    pub id: Snowflake,
    pub guild_id: Snowflake,
    pub kind: i32,
    pub name: String,
}

#[derive(Debug, Clone)]
pub struct MessageActivity {
    pub kind: i32,
    pub party_id: Option<String>,
}

#[derive(Debug, Clone)]
pub struct MessageApplication {
    pub id: Snowflake,
    pub description: String,
}

#[derive(Debug, Clone)]
pub struct MessageReference {
    pub message_id: Option<Snowflake>,
    pub channel_id: Option<Snowflake>,
    pub guild_id: Option<Snowflake>,
    pub fail_if_not_exists: Option<bool>,
}

#[derive(Debug, Clone)]
pub struct AllowedMentions {
    pub parse: Vec<AllowedMentionType>,
    pub roles: Vec<Snowflake>,
    pub users: Vec<Snowflake>,
    pub replied_user: bool,
}

#[derive(Debug, Clone, PartialEq, Eq, Structural)]
pub enum AllowedMentionType {
    Roles,
    Users,
    Everyone,
}

#[derive(Debug, Clone)]
pub struct StickerItem {
    pub id: Snowflake,
    pub name: String,
    pub format_type: i32,
}

} // verus!
