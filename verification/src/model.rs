//! Identifiers and numbers as the node's interface carries them.

use vstd::prelude::*;
use vstd::std_specs::convert::FromSpecImpl;

verus! {

/// Identifier of a user. Zero stands for "no user".
#[derive(Clone, Copy, Debug, PartialEq, Eq, Structural, Hash)]
pub struct UserId(pub u64);

/// Identifier of a guild. Zero stands for "no guild".
#[derive(Clone, Copy, Debug, PartialEq, Eq, Structural, Hash)]
pub struct GuildId(pub u64);

impl UserId {
    /// Whether this is the zero identifier, which names nobody.
    pub fn is_unset(&self) -> (unset: bool)
        ensures
            unset == (self.0 == 0),
    {
        self.0 == 0
    }
}

impl GuildId {
    /// Whether this is the zero identifier, which names no guild.
    pub fn is_unset(&self) -> (unset: bool)
        ensures
            unset == (self.0 == 0),
    {
        self.0 == 0
    }
}

impl From<u64> for UserId {
    fn from(id: u64) -> (user_id: UserId) {
        UserId(id)
    }
}

impl FromSpecImpl<u64> for UserId {
    open spec fn obeys_from_spec() -> bool {
        true
    }

    open spec fn from_spec(id: u64) -> UserId {
        UserId(id)
    }
}

impl From<u64> for GuildId {
    fn from(id: u64) -> (guild_id: GuildId) {
        GuildId(id)
    }
}

impl FromSpecImpl<u64> for GuildId {
    open spec fn obeys_from_spec() -> bool {
        true
    }

    open spec fn from_spec(id: u64) -> GuildId {
        GuildId(id)
    }
}

impl Default for UserId {
    fn default() -> (user_id: UserId)
        ensures
            user_id == UserId(0),
    {
        UserId(0)
    }
}

impl Default for GuildId {
    fn default() -> (guild_id: GuildId)
        ensures
            guild_id == GuildId(0),
    {
        GuildId(0)
    }
}

/// A single-precision number, held by its IEEE 754 bit pattern so that it
/// passes through the client unchanged.
#[derive(Clone, Copy, Debug, PartialEq, Eq, Structural, Hash)]
pub struct Binary32 {
    pub bits: u32,
}

/// A double-precision number, held by its IEEE 754 bit pattern so that it
/// passes through the client unchanged.
#[derive(Clone, Copy, Debug, PartialEq, Eq, Structural, Hash)]
pub struct Binary64 {
    pub bits: u64,
}

} // verus!
