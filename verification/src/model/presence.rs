use vstd::prelude::*;
use vstd::std_specs::convert::FromSpecImpl;

verus! {

/// The presence that a session shows: its status and activities.
#[derive(Debug)]
pub struct PresenceUpdate {
    pub since: Option<u64>,
    pub activities: Vec<Activity>,
    pub status: PresenceStatus,
    pub afk: bool,
}

/// One activity of a presence.
#[derive(Debug)]
pub struct Activity {
    pub name: String,
    pub kind: ActivityType,
    pub url: Option<String>,
}

/// A `PresenceUpdate` with its activities as a sequence.
pub struct PresenceView {
    pub since: Option<u64>,
    pub activities: Seq<Activity>,
    pub status: PresenceStatus,
    pub afk: bool,
}

impl View for PresenceUpdate {
    type V = PresenceView;

    open spec fn view(&self) -> PresenceView {
        PresenceView {
            since: self.since,
            activities: self.activities@,
            status: self.status,
            afk: self.afk,
        }
    }
}

impl Clone for Activity {
    fn clone(&self) -> (a: Self)
        ensures
            a == *self,
    {
        Activity { name: self.name.clone(), kind: self.kind, url: self.url.clone() }
    }
}

impl Clone for PresenceUpdate {
    fn clone(&self) -> (p: Self)
        ensures
            p@ == self@,
    {
        let activities = self.activities.clone();
        assert(activities@ =~= self.activities@);
        PresenceUpdate { since: self.since, activities, status: self.status, afk: self.afk }
    }
}

/// The status of a presence.
#[derive(Debug, Clone, Copy, PartialEq, Eq, Structural)]
pub enum PresenceStatus {
    Online,
    Dnd,
    Idle,
    Invisible,
    Offline,
}

/// The kind of an activity. On the wire it is a number; a number that the library does
/// not know is kept as it came.
#[derive(Debug, Clone, Copy, PartialEq, Eq, Structural)]
pub enum ActivityType {
    Game,
    Streaming,
    Listening,
    Watching,
    Custom,
    Competing,
    Unknown(u8),
}

impl ActivityType {
    /// Whether `code` is a activity type that the library knows.
    pub open spec fn is_known(code: u8) -> bool {
        code == 0 || code == 1 || code == 2 || code == 3 || code == 4 || code == 5
    }

    /// The activity type that `code` stands for.
    pub open spec fn of_code(code: u8) -> ActivityType {
        if code == 0 {
            ActivityType::Game
        } else if code == 1 {
            ActivityType::Streaming
        } else if code == 2 {
            ActivityType::Listening
        } else if code == 3 {
            ActivityType::Watching
        } else if code == 4 {
            ActivityType::Custom
        } else if code == 5 {
            ActivityType::Competing
        } else {
            ActivityType::Unknown(code)
        }
    }

    /// The number that stands for the activity type.
    pub open spec fn code(self) -> u8 {
        match self {
            ActivityType::Game => 0,
            ActivityType::Streaming => 1,
            ActivityType::Listening => 2,
            ActivityType::Watching => 3,
            ActivityType::Custom => 4,
            ActivityType::Competing => 5,
            ActivityType::Unknown(code) => code,
        }
    }
}

impl From<u8> for ActivityType {
    fn from(v: u8) -> (r: Self) {
        match v {
            0 => ActivityType::Game,
            1 => ActivityType::Streaming,
            2 => ActivityType::Listening,
            3 => ActivityType::Watching,
            4 => ActivityType::Custom,
            5 => ActivityType::Competing,
            _ => ActivityType::Unknown(v),
        }
    }
}

impl FromSpecImpl<u8> for ActivityType {
    open spec fn obeys_from_spec() -> bool {
        true
    }

    open spec fn from_spec(v: u8) -> Self {
        ActivityType::of_code(v)
    }
}

impl From<ActivityType> for u8 {
    fn from(v: ActivityType) -> (r: u8) {
        match v {
            ActivityType::Game => 0,
            ActivityType::Streaming => 1,
            ActivityType::Listening => 2,
            ActivityType::Watching => 3,
            ActivityType::Custom => 4,
            ActivityType::Competing => 5,
            ActivityType::Unknown(code) => code,
        }
    }
}

impl FromSpecImpl<ActivityType> for u8 {
    open spec fn obeys_from_spec() -> bool {
        true
    }

    open spec fn from_spec(v: ActivityType) -> u8 {
        v.code()
    }
}

/// A number turned into a activity type and back is the same number, whether the
/// library knows it or not; one that it does not know is kept in `Unknown`.
pub proof fn law_activity_type_round_trip(code: u8)
    ensures
        ActivityType::of_code(code).code() == code,
        !ActivityType::is_known(code) <==> ActivityType::of_code(code) == ActivityType::Unknown(code),
{
}

} // verus!
