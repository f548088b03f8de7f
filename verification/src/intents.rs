//! The set of event groups that a session subscribes to.

use vstd::prelude::*;

verus! {

/// Events about guilds.
pub const GUILDS: u64 = 0x1;

/// Events about messages in guilds.
pub const GUILD_MESSAGES: u64 = 0x200;

/// The content of messages.
pub const MESSAGE_CONTENT: u64 = 0x8000;

/// A bitmask of subscription flags.
#[derive(Clone, Copy, Debug, PartialEq, Eq, Structural)]
pub struct Intents {
    bits: u64,
}

impl View for Intents {
    type V = u64;

    closed spec fn view(&self) -> u64 {
        self.bits
    }
}

impl Intents {
    /// No flag at all.
    pub fn empty() -> (i: Self)
        ensures
            i@ == 0,
    {
        Intents { bits: 0 }
    }

    /// The flags of the given bitmask.
    pub fn from_bits(bits: u64) -> (i: Self)
        ensures
            i@ == bits,
    {
        Intents { bits }
    }

    /// The bitmask, as the gateway wants it.
    pub fn bits(&self) -> (b: u64)
        ensures
            b == self@,
    {
        self.bits
    }

    /// The flags of either set.
    pub fn union(self, other: Intents) -> (i: Self)
        ensures
            i@ == self@ | other@,
    {
        Intents { bits: self.bits | other.bits }
    }

    /// Whether every flag of `other` is set here.
    pub fn contains(&self, other: Intents) -> (r: bool)
        ensures
            r == (self@ & other@ == other@),
    {
        self.bits & other.bits == other.bits
    }
}

} // verus!
