use vstd::prelude::*;

verus! {

/// Stable identifier of a chat user.
#[derive(Clone, Copy, Debug, PartialEq, Eq, Hash, Structural)]
pub struct UserId(pub u64);

/// Stable identifier of a guild (a server or community).
#[derive(Clone, Copy, Debug, PartialEq, Eq, Hash, Structural)]
pub struct GuildId(pub u64);

/// Stable identifier of a text or voice channel.
#[derive(Clone, Copy, Debug, PartialEq, Eq, Hash, Structural)]
pub struct ChannelId(pub u64);

/// Identifier of a synthesis voice, as the backend numbers them.
#[derive(Clone, Copy, Debug, PartialEq, Eq, Hash, Structural)]
pub struct SpeakerId(pub u32);

} // verus!
