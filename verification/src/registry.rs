use crate::ids::{ChannelId, GuildId};
use crate::session::{GuildVoiceSession, Playback, SessionModel, SessionStateError};
use crate::track::{AudioTrack, AudioTrackView};
use std::collections::HashMap;
use vstd::prelude::*;

verus! {

broadcast use vstd::std_specs::hash::group_hash_axioms;

/// Where a guild stands.
#[derive(Clone, Copy, Debug, PartialEq, Eq, Structural)]
pub enum SessionState {
    /// The guild has no session.
    Absent,
    /// A join was requested and the handshake is in flight.
    Connecting,
    /// Connected: the queue accepts tracks.
    Active,
}

/// What became of a request to join.
#[derive(Clone, Copy, Debug, PartialEq, Eq, Structural)]
pub enum JoinDecision {
    /// A session was created and is connecting; the handshake is to be
    /// started for the session of this identity.
    Connect(u64),
    /// The guild has a session already, which stays as it is.
    AlreadyJoined,
    /// No session identity is left to give out; nothing was changed.
    OutOfIdentities,
}

/// What became of the end of a handshake.
#[derive(Clone, Copy, Debug, PartialEq, Eq, Structural)]
pub enum ConnectOutcome {
    /// The session is active.
    Activated,
    /// The transport failed and the session is gone.
    Abandoned,
    /// The handshake was not that of the guild's session, which stays as it
    /// is.
    Ignored(SessionStateError),
}

/// The sessions of all guilds as a mathematical value: at most one session
/// for each guild, keyed by the guild's number, and the identity that the
/// next session gets.
pub struct RegistryModel {
    pub sessions: Map<u64, SessionModel>,
    pub next_id: u64,
}

impl RegistryModel {
    /// No guild has a session, and no identity was given out yet.
    pub open spec fn empty() -> RegistryModel {
        RegistryModel { sessions: Map::empty(), next_id: 0 }
    }

    /// Every session was given its identity before the one that comes next,
    /// so that no later session bears the identity of an earlier one.
    pub open spec fn wf(self) -> bool {
        forall|g: u64| #[trigger]
            self.sessions.contains_key(g) ==> self.sessions[g].id < self.next_id
    }

    /// Where `guild` stands.
    pub open spec fn state_of(self, guild: GuildId) -> SessionState {
        if !self.sessions.contains_key(guild.0) {
            SessionState::Absent
        } else if self.sessions[guild.0].is_active() {
            SessionState::Active
        } else {
            SessionState::Connecting
        }
    }

    /// The tracks of `guild`'s session, the playing one first; none where the
    /// guild has no session.
    pub open spec fn queue_of(self, guild: GuildId) -> Seq<AudioTrackView> {
        if self.sessions.contains_key(guild.0) {
            self.sessions[guild.0].queue
        } else {
            Seq::empty()
        }
    }

    /// Whether `guild` has a session that bears the identity `session`.
    pub open spec fn has_session(self, guild: GuildId, session: u64) -> bool {
        self.sessions.contains_key(guild.0) && self.sessions[guild.0].id == session
    }

    /// What becomes of a request to join in `guild`.
    pub open spec fn decide_join(self, guild: GuildId) -> JoinDecision {
        if self.sessions.contains_key(guild.0) {
            JoinDecision::AlreadyJoined
        } else if self.next_id == u64::MAX {
            JoinDecision::OutOfIdentities
        } else {
            JoinDecision::Connect(self.next_id)
        }
    }

    /// The registry after a request to join `channel` in `guild`.
    pub open spec fn join(self, guild: GuildId, channel: ChannelId) -> RegistryModel {
        match self.decide_join(guild) {
            JoinDecision::Connect(id) => RegistryModel {
                sessions: self.sessions.insert(guild.0, SessionModel::connecting(id, channel)),
                next_id: (id + 1) as u64,
            },
            _ => self,
        }
    }

    /// What becomes of the end of the handshake for the session `session` of
    /// `guild`.
    pub open spec fn connect_outcome(self, guild: GuildId, session: u64, transport_ok: bool)
        -> ConnectOutcome {
        match self.check(guild, session) {
            Some(e) => ConnectOutcome::Ignored(e),
            None => if transport_ok {
                ConnectOutcome::Activated
            } else {
                ConnectOutcome::Abandoned
            },
        }
    }

    /// The registry after the handshake for the session `session` of `guild`
    /// has ended.
    pub open spec fn connected(self, guild: GuildId, session: u64, transport_ok: bool)
        -> RegistryModel {
        if !self.has_session(guild, session) {
            self
        } else if transport_ok {
            RegistryModel {
                sessions: self.sessions.insert(guild.0, self.sessions[guild.0].activate()),
                ..self
            }
        } else {
            self.leave(guild)
        }
    }

    /// The registry after `guild`'s session, if any, was ended: its queue is
    /// gone with it.
    pub open spec fn leave(self, guild: GuildId) -> RegistryModel {
        RegistryModel { sessions: self.sessions.remove(guild.0), ..self }
    }

    /// Why the session `session` of `guild` cannot be found, if it cannot.
    pub open spec fn check(self, guild: GuildId, session: u64) -> Option<SessionStateError> {
        if !self.sessions.contains_key(guild.0) {
            Some(SessionStateError::Absent)
        } else if self.sessions[guild.0].id != session {
            Some(SessionStateError::Replaced)
        } else {
            None
        }
    }

    /// Why the session `session` of `guild` takes no track, if it takes
    /// none.
    pub open spec fn check_active(self, guild: GuildId, session: u64) -> Option<
        SessionStateError,
    > {
        match self.check(guild, session) {
            Some(e) => Some(e),
            None => if self.sessions[guild.0].is_active() {
                None
            } else {
                Some(SessionStateError::Connecting)
            },
        }
    }

    /// The registry after `track` was offered to the session `session` of
    /// `guild`: appended to that session's queue where it is the guild's
    /// live and active session, dropped otherwise.
    pub open spec fn enqueue(self, guild: GuildId, session: u64, track: AudioTrackView)
        -> RegistryModel {
        if self.check_active(guild, session).is_none() {
            RegistryModel {
                sessions: self.sessions.insert(guild.0, self.sessions[guild.0].enqueue(track)),
                ..self
            }
        } else {
            self
        }
    }

    /// Why nothing can be skipped in `guild`, if nothing can.
    pub open spec fn check_skip(self, guild: GuildId) -> Option<SessionStateError> {
        if !self.sessions.contains_key(guild.0) {
            Some(SessionStateError::Absent)
        } else {
            self.check_active(guild, self.sessions[guild.0].id)
        }
    }

    /// The registry after a skip in `guild`: its session, whichever it is,
    /// drops the playing track.
    pub open spec fn skip(self, guild: GuildId) -> RegistryModel {
        if self.sessions.contains_key(guild.0) {
            self.advance(guild, self.sessions[guild.0].id)
        } else {
            self
        }
    }

    /// The registry after the playing track of the session `session` of
    /// `guild` has ended or was skipped.
    pub open spec fn advance(self, guild: GuildId, session: u64) -> RegistryModel {
        if self.check_active(guild, session).is_none() {
            RegistryModel {
                sessions: self.sessions.insert(guild.0, self.sessions[guild.0].advance()),
                ..self
            }
        } else {
            self
        }
    }
}

/// One track on its way to a queue: the guild and the session that it was
/// synthesized for.
pub struct Offer {
    pub guild: GuildId,
    pub session: u64,
    pub track: AudioTrackView,
}

impl RegistryModel {
    /// The registry after each of `offers` was made in turn.
    pub open spec fn enqueue_all(self, offers: Seq<Offer>) -> RegistryModel
        decreases offers.len(),
    {
        if offers.len() == 0 {
            self
        } else {
            let o = offers.last();
            self.enqueue_all(offers.drop_last()).enqueue(o.guild, o.session, o.track)
        }
    }

    /// The tracks among `offers` that were made to the live and active
    /// session of `guild`, in the order of the offers.
    pub open spec fn taken_by(self, offers: Seq<Offer>, guild: GuildId) -> Seq<AudioTrackView>
        decreases offers.len(),
    {
        if offers.len() == 0 {
            Seq::empty()
        } else {
            let o = offers.last();
            let before = self.taken_by(offers.drop_last(), guild);
            if o.guild == guild && self.check_active(o.guild, o.session).is_none() {
                before.push(o.track)
            } else {
                before
            }
        }
    }
}

/// The live voice sessions, at most one for each guild.
pub struct SessionRegistry {
    sessions: HashMap<u64, GuildVoiceSession>,
    next_id: u64,
}

impl View for SessionRegistry {
    type V = RegistryModel;

    closed spec fn view(&self) -> RegistryModel {
        RegistryModel {
            sessions: self.sessions@.map_values(|s: GuildVoiceSession| s@),
            next_id: self.next_id,
        }
    }
}

impl SessionRegistry {
    /// A registry without sessions.
    pub fn new() -> (registry: SessionRegistry)
        ensures
            registry@ == RegistryModel::empty(),
            registry@.wf(),
    {
        let registry = SessionRegistry { sessions: HashMap::new(), next_id: 0 };
        assert(registry@.sessions =~= Map::empty());
        registry
    }

    /// The session of `guild`, if it has one.
    pub fn session(&self, guild: GuildId) -> (session: Option<&GuildVoiceSession>)
        ensures
            match session {
                Some(s) => self@.sessions.contains_key(guild.0) && self@.sessions[guild.0] == s@,
                None => !self@.sessions.contains_key(guild.0),
            },
    {
        self.sessions.get(&guild.0)
    }

    /// The identity of the session of `guild`, if it has one.
    pub fn current_session(&self, guild: GuildId) -> (session: Option<u64>)
        ensures
            match session {
                Some(id) => self@.has_session(guild, id),
                None => !self@.sessions.contains_key(guild.0),
            },
    {
        match self.sessions.get(&guild.0) {
            None => None,
            Some(found) => Some(found.id()),
        }
    }

    /// Where `guild` stands.
    pub fn state_of(&self, guild: GuildId) -> (state: SessionState)
        ensures
            state == self@.state_of(guild),
    {
        match self.sessions.get(&guild.0) {
            None => SessionState::Absent,
            Some(session) => if session.is_active() {
                SessionState::Active
            } else {
                SessionState::Connecting
            },
        }
    }

    /// Why the session `session` of `guild` takes no track, if it takes
    /// none.
    pub fn check_active(&self, guild: GuildId, session: u64) -> (refusal: Option<SessionStateError>)
        ensures
            refusal == self@.check_active(guild, session),
    {
        match self.sessions.get(&guild.0) {
            None => Some(SessionStateError::Absent),
            Some(found) => if found.id() != session {
                Some(SessionStateError::Replaced)
            } else if !found.is_active() {
                Some(SessionStateError::Connecting)
            } else {
                None
            },
        }
    }

    /// Requests a session for `guild`, bound to the voice channel `channel`.
    /// A guild that has a session keeps it: joining again changes nothing.
    pub fn join(&mut self, guild: GuildId, channel: ChannelId) -> (decision: JoinDecision)
        ensures
            decision == old(self)@.decide_join(guild),
            final(self)@ == old(self)@.join(guild, channel),
    {
        if self.sessions.contains_key(&guild.0) {
            return JoinDecision::AlreadyJoined;
        }
        if self.next_id == u64::MAX {
            return JoinDecision::OutOfIdentities;
        }
        let id = self.next_id;
        let session = GuildVoiceSession::new(id, channel);
        self.sessions.insert(guild.0, session);
        self.next_id = id + 1;
        assert(self@.sessions =~= old(self)@.sessions.insert(
            guild.0,
            SessionModel::connecting(id, channel),
        ));
        JoinDecision::Connect(id)
    }

    /// Takes note of how the handshake for the session `session` of `guild`
    /// ended: the session becomes active where the transport connected, and
    /// is removed where it failed.
    pub fn connected(&mut self, guild: GuildId, session: u64, transport_ok: bool) -> (outcome:
        ConnectOutcome)
        ensures
            outcome == old(self)@.connect_outcome(guild, session, transport_ok),
            final(self)@ == old(self)@.connected(guild, session, transport_ok),
    {
        match self.sessions.get(&guild.0) {
            None => {
                return ConnectOutcome::Ignored(SessionStateError::Absent);
            },
            Some(found) => {
                if found.id() != session {
                    return ConnectOutcome::Ignored(SessionStateError::Replaced);
                }
            },
        }
        match self.sessions.remove(&guild.0) {
            None => ConnectOutcome::Ignored(SessionStateError::Absent),
            Some(mut found) => {
                if transport_ok {
                    found.activate();
                    self.sessions.insert(guild.0, found);
                    assert(self@.sessions =~= old(self)@.sessions.insert(
                        guild.0,
                        old(self)@.sessions[guild.0].activate(),
                    ));
                    ConnectOutcome::Activated
                } else {
                    assert(self@.sessions =~= old(self)@.sessions.remove(guild.0));
                    ConnectOutcome::Abandoned
                }
            },
        }
    }

    /// Ends the session of `guild`: its queue is discarded with it. The
    /// result is the number of tracks that were discarded, the playing one
    /// included.
    pub fn leave(&mut self, guild: GuildId) -> (result: Result<usize, SessionStateError>)
        ensures
            final(self)@ == old(self)@.leave(guild),
            match result {
                Ok(discarded) => old(self)@.sessions.contains_key(guild.0) && discarded == old(
                    self,
                )@.sessions[guild.0].queue.len(),
                Err(e) => !old(self)@.sessions.contains_key(guild.0) && e
                    == SessionStateError::Absent,
            },
    {
        let removed = self.sessions.remove(&guild.0);
        assert(self@.sessions =~= old(self)@.sessions.remove(guild.0));
        match removed {
            None => Err(SessionStateError::Absent),
            Some(session) => Ok(session.queue_len()),
        }
    }

    /// Appends `track` to the queue of the session `session` of `guild`.
    /// The track is taken only where that session is still the guild's
    /// session and is active; otherwise it is dropped, nothing changes, and
    /// the error says why.
    pub fn enqueue(&mut self, guild: GuildId, session: u64, track: AudioTrack) -> (result: Result<
        Playback,
        SessionStateError,
    >)
        ensures
            final(self)@ == old(self)@.enqueue(guild, session, track@),
            match result {
                Ok(playback) => old(self)@.check_active(guild, session).is_none() && playback == (
                if old(self)@.queue_of(guild).len() == 0 {
                    Playback::StartHead
                } else {
                    Playback::Unchanged
                }),
                Err(e) => old(self)@.check_active(guild, session) == Some(e),
            },
    {
        match self.check_active(guild, session) {
            Some(e) => {
                return Err(e);
            },
            None => {},
        }
        match self.sessions.remove(&guild.0) {
            None => Err(SessionStateError::Absent),
            Some(mut found) => {
                let result = found.enqueue(track);
                self.sessions.insert(guild.0, found);
                assert(self@.sessions =~= old(self)@.sessions.insert(
                    guild.0,
                    old(self)@.sessions[guild.0].enqueue(track@),
                ));
                result
            },
        }
    }

    /// Drops the playing track of the session `session` of `guild`, if there
    /// is one, so that the next in the queue takes its place.
    pub fn advance(&mut self, guild: GuildId, session: u64) -> (result: Result<
        Playback,
        SessionStateError,
    >)
        ensures
            final(self)@ == old(self)@.advance(guild, session),
            match result {
                Ok(playback) => old(self)@.check_active(guild, session).is_none() && playback == (
                if old(self)@.queue_of(guild).len() == 0 {
                    Playback::Unchanged
                } else if old(self)@.queue_of(guild).len() == 1 {
                    Playback::Idle
                } else {
                    Playback::StartHead
                }),
                Err(e) => old(self)@.check_active(guild, session) == Some(e),
            },
    {
        match self.check_active(guild, session) {
            Some(e) => {
                return Err(e);
            },
            None => {},
        }
        match self.sessions.remove(&guild.0) {
            None => Err(SessionStateError::Absent),
            Some(mut found) => {
                let result = found.advance();
                self.sessions.insert(guild.0, found);
                assert(self@.sessions =~= old(self)@.sessions.insert(
                    guild.0,
                    old(self)@.sessions[guild.0].advance(),
                ));
                result
            },
        }
    }
    /// Stops what is playing in `guild` and lets the next track of the queue
    /// take its place. Only a guild with an active session accepts this;
    /// where that session plays nothing, nothing changes.
    pub fn skip(&mut self, guild: GuildId) -> (result: Result<Playback, SessionStateError>)
        ensures
            final(self)@ == old(self)@.skip(guild),
            match result {
                Ok(playback) => old(self)@.check_skip(guild).is_none() && playback == (if old(
                    self,
                )@.queue_of(guild).len() == 0 {
                    Playback::Unchanged
                } else if old(self)@.queue_of(guild).len() == 1 {
                    Playback::Idle
                } else {
                    Playback::StartHead
                }),
                Err(e) => old(self)@.check_skip(guild) == Some(e),
            },
    {
        match self.current_session(guild) {
            None => Err(SessionStateError::Absent),
            Some(id) => self.advance(guild, id),
        }
    }
}

/// Every step keeps the identities fresh: what holds of a registry without
/// sessions holds after any joins, handshakes, leaves and queue changes.
pub proof fn law_identities_stay_fresh(
    r: RegistryModel,
    guild: GuildId,
    channel: ChannelId,
    session: u64,
    transport_ok: bool,
    track: AudioTrackView,
)
    requires
        r.wf(),
    ensures
        RegistryModel::empty().wf(),
        r.join(guild, channel).wf(),
        r.connected(guild, session, transport_ok).wf(),
        r.leave(guild).wf(),
        r.enqueue(guild, session, track).wf(),
        r.advance(guild, session).wf(),
{
}

/// Leaving ends the session for good: a track that is offered next for the
/// same guild is refused because the guild has no session, and the guild
/// still has none afterwards.
pub proof fn law_enqueue_after_leave_is_refused(
    r: RegistryModel,
    guild: GuildId,
    session: u64,
    track: AudioTrackView,
)
    ensures
        r.leave(guild).check_active(guild, session) == Some(SessionStateError::Absent),
        r.leave(guild).enqueue(guild, session, track) == r.leave(guild),
        r.leave(guild).enqueue(guild, session, track).state_of(guild) == SessionState::Absent,
{
}

/// A track that was synthesized for a session never lands in a session that
/// the guild got later: after a leave and a new join, the old identity is
/// refused and the new session's queue is left alone.
pub proof fn law_stale_track_misses_later_session(
    r: RegistryModel,
    guild: GuildId,
    session: u64,
    channel: ChannelId,
    track: AudioTrackView,
)
    requires
        r.wf(),
        r.has_session(guild, session),
    ensures
        ({
            let later = r.leave(guild).join(guild, channel);
            &&& later.check_active(guild, session) is Some
            &&& later.enqueue(guild, session, track) == later
        }),
{
}

/// Guilds do not share queues: a track offered to one guild's session
/// leaves every other guild's session, state and queue as they were.
pub proof fn law_enqueue_touches_one_guild(
    r: RegistryModel,
    guild: GuildId,
    session: u64,
    track: AudioTrackView,
    other: GuildId,
)
    requires
        other != guild,
    ensures
        r.enqueue(guild, session, track).state_of(other) == r.state_of(other),
        r.enqueue(guild, session, track).queue_of(other) == r.queue_of(other),
        r.enqueue(guild, session, track).sessions.contains_key(other.0)
            == r.sessions.contains_key(other.0),
        r.sessions.contains_key(other.0) ==> r.enqueue(guild, session, track).sessions[other.0]
            == r.sessions[other.0],
{
}

/// Skipping in a guild whose active session plays nothing and holds nothing
/// changes nothing: the session stays active with an empty queue.
pub proof fn law_skip_on_idle_guild_is_noop(r: RegistryModel, guild: GuildId)
    requires
        r.state_of(guild) == SessionState::Active,
        r.queue_of(guild).len() == 0,
    ensures
        r.check_skip(guild).is_none(),
        r.skip(guild) == r,
        r.skip(guild).state_of(guild) == SessionState::Active,
        r.skip(guild).queue_of(guild).len() == 0,
{
    assert(r.sessions.insert(guild.0, r.sessions[guild.0].advance()) =~= r.sessions);
}

/// Offers, however the guilds' offers are interleaved, change no session's
/// identity or phase, and leave in each guild's queue what it held before,
/// followed by exactly the tracks offered to that guild's session, in the
/// order in which they were offered. So within a guild playback order is
/// enqueue order, and no track plays in a guild that it was not made for.
pub proof fn law_interleaved_offers_stay_apart(
    r: RegistryModel,
    offers: Seq<Offer>,
    guild: GuildId,
)
    ensures
        r.enqueue_all(offers).queue_of(guild) == r.queue_of(guild) + r.taken_by(offers, guild),
        r.enqueue_all(offers).state_of(guild) == r.state_of(guild),
        forall|session: u64|
            r.enqueue_all(offers).check_active(guild, session) == r.check_active(guild, session),
    decreases offers.len(),
{
    if offers.len() == 0 {
        assert(r.queue_of(guild) + r.taken_by(offers, guild) =~= r.queue_of(guild));
    } else {
        let o = offers.last();
        let before = r.enqueue_all(offers.drop_last());
        law_interleaved_offers_stay_apart(r, offers.drop_last(), guild);
        law_interleaved_offers_stay_apart(r, offers.drop_last(), o.guild);
        if o.guild == guild && r.check_active(o.guild, o.session).is_none() {
            assert(before.queue_of(guild).push(o.track) =~= r.queue_of(guild) + r.taken_by(
                offers,
                guild,
            ));
        }
    }
}

} // verus!
