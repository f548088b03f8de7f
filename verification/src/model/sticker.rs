use crate::model::user::User;
use crate::snowflake::Snowflake;
use vstd::prelude::*;
use vstd::std_specs::convert::FromSpecImpl;

verus! {

#[derive(Debug, Clone)]
pub struct Sticker {
    pub id: Snowflake,
    pub pack_id: Option<Snowflake>,
    pub name: String,
    pub description: Option<String>,
    pub tags: String,
    pub asset: Option<String>,
    pub type_id: StickerType,
    pub format_type: StickerFormatType,
    pub available: bool,
    pub guild_id: Option<Snowflake>,
    pub user: Option<User>,
    pub sort_value: Option<i32>,
}

/// The kind of a sticker. On the wire it is a number; a number that the library does
/// not know is kept as it came.
#[derive(Debug, Clone, Copy, PartialEq, Eq, Structural)]
pub enum StickerType {
    Standard,
    Guild,
    Unknown(u8),
}

impl StickerType {
    /// Whether `code` is a sticker type that the library knows.
    pub open spec fn is_known(code: u8) -> bool {
        code == 1 || code == 2
    }

    /// The sticker type that `code` stands for.
    pub open spec fn of_code(code: u8) -> StickerType {
        if code == 1 {
            StickerType::Standard
        } else if code == 2 {
            StickerType::Guild
        } else {
            StickerType::Unknown(code)
        }
    }

    /// The number that stands for the sticker type.
    pub open spec fn code(self) -> u8 {
        match self {
            StickerType::Standard => 1,
            StickerType::Guild => 2,
            StickerType::Unknown(code) => code,
        }
    }
}

impl From<u8> for StickerType {
    fn from(v: u8) -> (r: Self) {
        match v {
            1 => StickerType::Standard,
            2 => StickerType::Guild,
            _ => StickerType::Unknown(v),
        }
    }
}

impl FromSpecImpl<u8> for StickerType {
    open spec fn obeys_from_spec() -> bool {
        true
    }

    open spec fn from_spec(v: u8) -> Self {
        StickerType::of_code(v)
    }
}

impl From<StickerType> for u8 {
    fn from(v: StickerType) -> (r: u8) {
        match v {
            StickerType::Standard => 1,
            StickerType::Guild => 2,
            StickerType::Unknown(code) => code,
        }
    }
}

impl FromSpecImpl<StickerType> for u8 {
    open spec fn obeys_from_spec() -> bool {
        true
    }

    open spec fn from_spec(v: StickerType) -> u8 {
        v.code()
    }
}

/// A number turned into a sticker type and back is the same number, whether the
/// library knows it or not; one that it does not know is kept in `Unknown`.
pub proof fn law_sticker_type_round_trip(code: u8)
    ensures
        StickerType::of_code(code).code() == code,
        !StickerType::is_known(code) <==> StickerType::of_code(code) == StickerType::Unknown(code),
{
}

/// The format of a sticker. On the wire it is a number; a number that the library does
/// not know is kept as it came.
#[derive(Debug, Clone, Copy, PartialEq, Eq, Structural)]
pub enum StickerFormatType {
    Png,
    Apng,
    Lottie,
    Gif,
    Unknown(u8),
}

impl StickerFormatType {
    /// Whether `code` is a sticker format that the library knows.
    pub open spec fn is_known(code: u8) -> bool {
        code == 1 || code == 2 || code == 3 || code == 4
    }

    /// The sticker format that `code` stands for.
    pub open spec fn of_code(code: u8) -> StickerFormatType {
        if code == 1 {
            StickerFormatType::Png
        } else if code == 2 {
            StickerFormatType::Apng
        } else if code == 3 {
            StickerFormatType::Lottie
        } else if code == 4 {
            StickerFormatType::Gif
        } else {
            StickerFormatType::Unknown(code)
        }
    }

    /// The number that stands for the sticker format.
    pub open spec fn code(self) -> u8 {
        match self {
            StickerFormatType::Png => 1,
            StickerFormatType::Apng => 2,
            StickerFormatType::Lottie => 3,
            StickerFormatType::Gif => 4,
            StickerFormatType::Unknown(code) => code,
        }
    }
}

impl From<u8> for StickerFormatType {
    fn from(v: u8) -> (r: Self) {
        match v {
            1 => StickerFormatType::Png,
            2 => StickerFormatType::Apng,
            3 => StickerFormatType::Lottie,
            4 => StickerFormatType::Gif,
            _ => StickerFormatType::Unknown(v),
        }
    }
}

impl FromSpecImpl<u8> for StickerFormatType {
    open spec fn obeys_from_spec() -> bool {
        true
    }

    open spec fn from_spec(v: u8) -> Self {
        StickerFormatType::of_code(v)
    }
}

impl From<StickerFormatType> for u8 {
    fn from(v: StickerFormatType) -> (r: u8) {
        match v {
            StickerFormatType::Png => 1,
            StickerFormatType::Apng => 2,
            StickerFormatType::Lottie => 3,
            StickerFormatType::Gif => 4,
            StickerFormatType::Unknown(code) => code,
        }
    }
}

impl FromSpecImpl<StickerFormatType> for u8 {
    open spec fn obeys_from_spec() -> bool {
        true
    }

    open spec fn from_spec(v: StickerFormatType) -> u8 {
        v.code()
    }
}

/// A number turned into a sticker format and back is the same number, whether the
/// library knows it or not; one that it does not know is kept in `Unknown`.
pub proof fn law_sticker_format_type_round_trip(code: u8)
    ensures
        StickerFormatType::of_code(code).code() == code,
        !StickerFormatType::is_known(code) <==> StickerFormatType::of_code(code) == StickerFormatType::Unknown(code),
{
}

} // verus!
