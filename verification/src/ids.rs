//! Identifiers that the platform hands out, and the handle of a playable track.
use vstd::prelude::*;

verus! {

/// A guild: the tenant that a voice session belongs to.
#[derive(Clone, Copy, Debug, PartialEq, Eq, Hash, Structural)]
pub struct TenantId(pub u64);

/// A voice channel of some guild.
#[derive(Clone, Copy, Debug, PartialEq, Eq, Hash, Structural)]
pub struct ChannelId(pub u64);

/// A participant of a guild.
#[derive(Clone, Copy, Debug, PartialEq, Eq, Hash, Structural)]
pub struct MemberId(pub u64);

/// A reference to one decoded audio stream and its playback controls.
///
/// The stream itself lives with the audio pipeline; the number identifies it.
/// A handle sits in exactly one slot at a time: a queue entry or the
/// "currently playing" slot of a session.
#[derive(Clone, Copy, Debug, PartialEq, Eq, Hash, Structural)]
pub struct TrackHandle(pub u64);

/// The name under which a caller keeps a reaction: what it wants done once
/// a track has ended.
#[derive(Clone, Copy, Debug, PartialEq, Eq, Hash, Structural)]
pub struct ReactionId(pub u64);

} // verus!
