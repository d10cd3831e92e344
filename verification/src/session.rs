use crate::ids::ChannelId;
use crate::track::{
    lemma_track_views_drop_first, lemma_track_views_push, track_views, AudioTrack, AudioTrackView,
};
use std::collections::VecDeque;
use vstd::prelude::*;

verus! {

/// Where a live session stands. A guild without a session is absent: it has
/// no session value at all.
#[derive(Clone, Copy, Debug, PartialEq, Eq, Structural)]
pub enum SessionPhase {
    /// A join was requested and the voice transport handshake is in flight.
    Connecting,
    /// Connected: the queue accepts tracks.
    Active,
}

/// Why an operation on a session was refused.
#[derive(Clone, Copy, Debug, PartialEq, Eq, Structural)]
pub enum SessionStateError {
    /// The guild has no session.
    Absent,
    /// The guild's session is still connecting.
    Connecting,
    /// The session that the operation was meant for is gone; the guild may
    /// have a newer one.
    Replaced,
}

/// What a change of the queue asks of the audio output.
#[derive(Clone, Copy, Debug, PartialEq, Eq, Structural)]
pub enum Playback {
    /// Nothing changes for the output.
    Unchanged,
    /// The head of the queue starts playing now.
    StartHead,
    /// The output stops: nothing is left to play.
    Idle,
}

/// A session as a mathematical value. The head of `queue` is the track that
/// is playing; the rest wait in order.
pub struct SessionModel {
    pub id: u64,
    pub channel: ChannelId,
    pub phase: SessionPhase,
    pub queue: Seq<AudioTrackView>,
}

impl SessionModel {
    /// A session that has just been asked to join `channel`.
    pub open spec fn connecting(id: u64, channel: ChannelId) -> SessionModel {
        SessionModel { id, channel, phase: SessionPhase::Connecting, queue: Seq::empty() }
    }

    /// Whether the session is connected and takes tracks.
    pub open spec fn is_active(self) -> bool {
        self.phase == SessionPhase::Active
    }

    /// The session after its transport has connected.
    pub open spec fn activate(self) -> SessionModel {
        SessionModel { phase: SessionPhase::Active, ..self }
    }

    /// The session after `track` was offered: appended when active, refused
    /// otherwise.
    pub open spec fn enqueue(self, track: AudioTrackView) -> SessionModel {
        if self.is_active() {
            SessionModel { queue: self.queue.push(track), ..self }
        } else {
            self
        }
    }

    /// The session after all of `tracks` were offered, first to last.
    pub open spec fn enqueue_all(self, tracks: Seq<AudioTrackView>) -> SessionModel
        decreases tracks.len(),
    {
        if tracks.len() == 0 {
            self
        } else {
            self.enqueue_all(tracks.drop_last()).enqueue(tracks.last())
        }
    }

    /// The track that is playing, if any.
    pub open spec fn playing(self) -> Option<AudioTrackView> {
        if self.is_active() && self.queue.len() > 0 {
            Some(self.queue[0])
        } else {
            None
        }
    }

    /// The session after the playing track has ended or was skipped.
    pub open spec fn advance(self) -> SessionModel {
        if self.is_active() && self.queue.len() > 0 {
            SessionModel { queue: self.queue.drop_first(), ..self }
        } else {
            self
        }
    }

    /// The session after `n` tracks in a row have ended or were skipped.
    pub open spec fn advance_by(self, n: nat) -> SessionModel
        decreases n,
    {
        if n == 0 {
            self
        } else {
            self.advance().advance_by((n - 1) as nat)
        }
    }

    /// The tracks that play while `n` tracks in a row end or are skipped, in
    /// the order in which they play.
    pub open spec fn played(self, n: nat) -> Seq<AudioTrackView>
        decreases n,
    {
        if n == 0 {
            Seq::empty()
        } else {
            match self.playing() {
                Some(t) => seq![t] + self.advance().played((n - 1) as nat),
                None => Seq::empty(),
            }
        }
    }
}

/// The voice session of one guild: the handle on its voice connection, as
/// far as the pipeline decides on it, and the queue of tracks to play.
pub struct GuildVoiceSession {
    id: u64,
    channel: ChannelId,
    phase: SessionPhase,
    queue: VecDeque<AudioTrack>,
}

impl View for GuildVoiceSession {
    type V = SessionModel;

    closed spec fn view(&self) -> SessionModel {
        SessionModel {
            id: self.id,
            channel: self.channel,
            phase: self.phase,
            queue: track_views(self.queue@),
        }
    }
}

impl GuildVoiceSession {
    /// A session that is connecting to `channel`, with nothing queued.
    pub fn new(id: u64, channel: ChannelId) -> (session: GuildVoiceSession)
        ensures
            session@ == SessionModel::connecting(id, channel),
    {
        let session = GuildVoiceSession {
            id,
            channel,
            phase: SessionPhase::Connecting,
            queue: VecDeque::new(),
        };
        assert(track_views(session.queue@) =~= Seq::empty());
        session
    }

    /// The identity that tells this session from an earlier or later one of
    /// the same guild.
    pub fn id(&self) -> (id: u64)
        ensures
            id == self@.id,
    {
        self.id
    }

    /// The voice channel that the session is bound to.
    pub fn channel(&self) -> (channel: ChannelId)
        ensures
            channel == self@.channel,
    {
        self.channel
    }

    /// Where the session stands.
    pub fn phase(&self) -> (phase: SessionPhase)
        ensures
            phase == self@.phase,
    {
        self.phase
    }

    /// Whether the session is connected and takes tracks.
    pub fn is_active(&self) -> (active: bool)
        ensures
            active == self@.is_active(),
    {
        self.phase == SessionPhase::Active
    }

    /// The number of tracks in the queue, the playing one included.
    pub fn queue_len(&self) -> (len: usize)
        ensures
            len == self@.queue.len(),
    {
        self.queue.len()
    }

    /// The track that is playing, if any.
    pub fn now_playing(&self) -> (track: Option<&AudioTrack>)
        ensures
            match track {
                Some(t) => self@.playing() == Some(t@),
                None => self@.playing().is_none(),
            },
    {
        if self.phase == SessionPhase::Active && self.queue.len() > 0 {
            Some(&self.queue[0])
        } else {
            None
        }
    }

    /// The track at position `index` of the queue, counted from the playing
    /// one.
    pub fn queued(&self, index: usize) -> (track: Option<&AudioTrack>)
        ensures
            match track {
                Some(t) => index < self@.queue.len() && self@.queue[index as int] == t@,
                None => index >= self@.queue.len(),
            },
    {
        if index < self.queue.len() {
            Some(&self.queue[index])
        } else {
            None
        }
    }

    /// Marks the transport as connected. A session that is active already
    /// stays as it is.
    pub fn activate(&mut self)
        ensures
            final(self)@ == old(self)@.activate(),
    {
        self.phase = SessionPhase::Active;
    }

    /// Appends `track` to the tail of the queue. Only an active session
    /// accepts it; a connecting one refuses and stays unchanged. The result
    /// says whether the track starts playing at once, which it does exactly
    /// when nothing was playing.
    pub fn enqueue(&mut self, track: AudioTrack) -> (result: Result<Playback, SessionStateError>)
        ensures
            final(self)@ == old(self)@.enqueue(track@),
            match result {
                Ok(playback) => old(self)@.is_active() && playback == (if old(self)@.queue.len()
                    == 0 {
                    Playback::StartHead
                } else {
                    Playback::Unchanged
                }),
                Err(e) => !old(self)@.is_active() && e == SessionStateError::Connecting,
            },
    {
        if self.phase != SessionPhase::Active {
            return Err(SessionStateError::Connecting);
        }
        let was_idle = self.queue.len() == 0;
        proof {
            lemma_track_views_push(self.queue@, track);
        }
        self.queue.push_back(track);
        if was_idle {
            Ok(Playback::StartHead)
        } else {
            Ok(Playback::Unchanged)
        }
    }

    /// Drops the playing track, if there is one, so that the next in the
    /// queue takes its place. This is what both a skip and the end of a track
    /// do to the queue. Only an active session accepts it.
    pub fn advance(&mut self) -> (result: Result<Playback, SessionStateError>)
        ensures
            final(self)@ == old(self)@.advance(),
            match result {
                Ok(playback) => old(self)@.is_active() && playback == (if old(self)@.queue.len()
                    == 0 {
                    Playback::Unchanged
                } else if old(self)@.queue.len() == 1 {
                    Playback::Idle
                } else {
                    Playback::StartHead
                }),
                Err(e) => !old(self)@.is_active() && e == SessionStateError::Connecting,
            },
    {
        if self.phase != SessionPhase::Active {
            return Err(SessionStateError::Connecting);
        }
        proof {
            if self.queue@.len() > 0 {
                lemma_track_views_drop_first(self.queue@);
            }
        }
        match self.queue.pop_front() {
            None => Ok(Playback::Unchanged),
            Some(_) => {
                if self.queue.len() == 0 {
                    Ok(Playback::Idle)
                } else {
                    Ok(Playback::StartHead)
                }
            },
        }
    }
}

/// Offering tracks to an active session appends them in the order offered.
pub proof fn lemma_enqueue_all_appends(s: SessionModel, tracks: Seq<AudioTrackView>)
    requires
        s.is_active(),
    ensures
        s.enqueue_all(tracks) == (SessionModel { queue: s.queue + tracks, ..s }),
    decreases tracks.len(),
{
    if tracks.len() == 0 {
        assert(s.queue + tracks =~= s.queue);
    } else {
        lemma_enqueue_all_appends(s, tracks.drop_last());
        assert((s.queue + tracks.drop_last()).push(tracks.last()) =~= s.queue + tracks);
    }
}

/// While tracks end one after another, an active session plays its queue
/// from the head on.
pub proof fn lemma_played_is_queue_prefix(s: SessionModel, n: nat)
    requires
        s.is_active(),
        n <= s.queue.len(),
    ensures
        s.played(n) == s.queue.take(n as int),
        s.advance_by(n) == (SessionModel { queue: s.queue.skip(n as int), ..s }),
    decreases n,
{
    if n == 0 {
        assert(s.queue.take(0) =~= Seq::empty());
        assert(s.queue.skip(0) =~= s.queue);
    } else {
        let rest = s.advance();
        lemma_played_is_queue_prefix(rest, (n - 1) as nat);
        assert(seq![s.queue[0]] + rest.queue.take(n - 1) =~= s.queue.take(n as int));
        assert(rest.queue.skip(n - 1) =~= s.queue.skip(n as int));
    }
}

/// First in, first out: after any tracks were enqueued on an active session,
/// the session plays what it held before, then those tracks in the order of
/// the enqueue calls, and is then left with an empty queue.
pub proof fn law_playback_order_is_enqueue_order(s: SessionModel, tracks: Seq<AudioTrackView>)
    requires
        s.is_active(),
    ensures
        s.enqueue_all(tracks).queue == s.queue + tracks,
        s.enqueue_all(tracks).played(s.queue.len() + tracks.len()) == s.queue + tracks,
        s.enqueue_all(tracks).advance_by(s.queue.len() + tracks.len()).queue
            == Seq::<AudioTrackView>::empty(),
{
    lemma_enqueue_all_appends(s, tracks);
    let filled = s.enqueue_all(tracks);
    let n = s.queue.len() + tracks.len();
    lemma_played_is_queue_prefix(filled, n);
    assert(filled.queue.take(n as int) =~= filled.queue);
    assert(filled.queue.skip(n as int) =~= Seq::<AudioTrackView>::empty());
}

/// Skipping on an active session that plays nothing and holds nothing
/// changes nothing: the session stays active with an empty queue.
pub proof fn law_skip_on_idle_session_is_noop(s: SessionModel)
    requires
        s.is_active(),
        s.queue.len() == 0,
    ensures
        s.advance() == s,
        s.advance().is_active(),
        s.advance().queue.len() == 0,
{
}

/// A session that is not active takes no track: offering one leaves it as it
/// was.
pub proof fn law_inactive_session_takes_no_track(s: SessionModel, track: AudioTrackView)
    requires
        !s.is_active(),
    ensures
        s.enqueue(track) == s,
{
}

} // verus!
