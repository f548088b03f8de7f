use crate::model::member::Member;
use crate::model::user::User;
use crate::snowflake::Snowflake;
use vstd::prelude::*;
use vstd::std_specs::convert::FromSpecImpl;

verus! {

#[derive(Debug, Clone)]
pub struct Channel {
    pub id: Snowflake,
    pub kind: ChannelType,
    pub guild_id: Option<Snowflake>,
    pub position: Option<i32>,
    pub permission_overwrites: Vec<PermissionOverwrite>,
    pub name: Option<String>,
    pub topic: Option<String>,
    pub nsfw: bool,
    pub last_message_id: Option<Snowflake>,
    pub bitrate: Option<i32>,
    pub user_limit: Option<i32>,
    pub rate_limit_per_user: Option<i32>,
    pub recipients: Vec<User>,
    pub icon: Option<String>,
    pub owner_id: Option<Snowflake>,
    pub application_id: Option<Snowflake>,
    pub parent_id: Option<Snowflake>,
    pub last_pin_timestamp: Option<String>,
    pub rtc_region: Option<String>,
    pub video_quality_mode: Option<i32>,
    pub message_count: Option<i32>,
    pub member_count: Option<i32>,
    pub thread_metadata: Option<ThreadMetadata>,
    pub member: Option<Member>,
    pub default_auto_archive_duration: Option<i32>,
    pub permissions: Option<String>,
    pub flags: i32,
    pub total_message_sent: Option<i32>,
}

/// The kind of a channel. On the wire it is a number; a number that the library does
/// not know is kept as it came.
#[derive(Debug, Clone, Copy, PartialEq, Eq, Structural)]
pub enum ChannelType {
    GuildText,
    DM,
    GuildVoice,
    GroupDM,
    GuildCategory,
    GuildAnnouncement,
    AnnouncementThread,
    PublicThread,
    PrivateThread,
    GuildStageVoice,
    GuildDirectory,
    GuildForum,
    Unknown(u8),
}

impl ChannelType {
    /// Whether `code` is a channel type that the library knows.
    pub open spec fn is_known(code: u8) -> bool {
        code == 0 || code == 1 || code == 2 || code == 3 || code == 4 || code == 5 || code == 10 || code == 11 || code == 12 || code == 13 || code == 14 || code == 15
    }

    /// The channel type that `code` stands for.
    pub open spec fn of_code(code: u8) -> ChannelType {
        if code == 0 {
            ChannelType::GuildText
        } else if code == 1 {
            ChannelType::DM
        } else if code == 2 {
            ChannelType::GuildVoice
        } else if code == 3 {
            ChannelType::GroupDM
        } else if code == 4 {
            ChannelType::GuildCategory
        } else if code == 5 {
            ChannelType::GuildAnnouncement
        } else if code == 10 {
            ChannelType::AnnouncementThread
        } else if code == 11 {
            ChannelType::PublicThread
        } else if code == 12 {
            ChannelType::PrivateThread
        } else if code == 13 {
            ChannelType::GuildStageVoice
        } else if code == 14 {
            ChannelType::GuildDirectory
        } else if code == 15 {
            ChannelType::GuildForum
        } else {
            ChannelType::Unknown(code)
        }
    }

    /// The number that stands for the channel type.
    pub open spec fn code(self) -> u8 {
        match self {
            ChannelType::GuildText => 0,
            ChannelType::DM => 1,
            ChannelType::GuildVoice => 2,
            ChannelType::GroupDM => 3,
            ChannelType::GuildCategory => 4,
            ChannelType::GuildAnnouncement => 5,
            ChannelType::AnnouncementThread => 10,
            ChannelType::PublicThread => 11,
            ChannelType::PrivateThread => 12,
            ChannelType::GuildStageVoice => 13,
            ChannelType::GuildDirectory => 14,
            ChannelType::GuildForum => 15,
            ChannelType::Unknown(code) => code,
        }
    }
}

impl From<u8> for ChannelType {
    fn from(v: u8) -> (r: Self) {
        match v {
            0 => ChannelType::GuildText,
            1 => ChannelType::DM,
            2 => ChannelType::GuildVoice,
            3 => ChannelType::GroupDM,
            4 => ChannelType::GuildCategory,
            5 => ChannelType::GuildAnnouncement,
            10 => ChannelType::AnnouncementThread,
            11 => ChannelType::PublicThread,
            12 => ChannelType::PrivateThread,
            13 => ChannelType::GuildStageVoice,
            14 => ChannelType::GuildDirectory,
            15 => ChannelType::GuildForum,
            _ => ChannelType::Unknown(v),
        }
    }
}

impl FromSpecImpl<u8> for ChannelType {
    open spec fn obeys_from_spec() -> bool {
        true
    }

    open spec fn from_spec(v: u8) -> Self {
        ChannelType::of_code(v)
    }
}

impl From<ChannelType> for u8 {
    fn from(v: ChannelType) -> (r: u8) {
        match v {
            ChannelType::GuildText => 0,
            ChannelType::DM => 1,
            ChannelType::GuildVoice => 2,
            ChannelType::GroupDM => 3,
            ChannelType::GuildCategory => 4,
            ChannelType::GuildAnnouncement => 5,
            ChannelType::AnnouncementThread => 10,
            ChannelType::PublicThread => 11,
            ChannelType::PrivateThread => 12,
            ChannelType::GuildStageVoice => 13,
            ChannelType::GuildDirectory => 14,
            ChannelType::GuildForum => 15,
            ChannelType::Unknown(code) => code,
        }
    }
}

impl FromSpecImpl<ChannelType> for u8 {
    open spec fn obeys_from_spec() -> bool {
        true
    }

    open spec fn from_spec(v: ChannelType) -> u8 {
        v.code()
    }
}

/// A number turned into a channel type and back is the same number, whether the
/// library knows it or not; one that it does not know is kept in `Unknown`.
pub proof fn law_channel_type_round_trip(code: u8)
    ensures
        ChannelType::of_code(code).code() == code,
        !ChannelType::is_known(code) <==> ChannelType::of_code(code) == ChannelType::Unknown(code),
{
}

#[derive(Debug, Clone)]
pub struct PermissionOverwrite {
    pub id: Snowflake,
    pub kind: i32,
    pub allow: String,
    pub deny: String,
}

#[derive(Debug, Clone)]
pub struct ThreadMetadata {
    pub archived: bool,
    pub auto_archive_duration: i32,
    pub archive_timestamp: String,
    pub locked: bool,
    pub invitable: bool,
    pub create_timestamp: Option<String>,
}

} // verus!
