use crate::filter::{ContentFilter, FilterModel, MessageEvent, MessageModel};
use crate::ids::{ChannelId, GuildId, SpeakerId, UserId};
use crate::prefs::{PersistenceError, PreferenceModel, SpeakerPreferenceStore};
use crate::registry::{ConnectOutcome, JoinDecision, RegistryModel, SessionRegistry, SessionState};
use crate::session::{Playback, SessionStateError};
use crate::track::AudioTrackView;
use crate::tts::{
    into_waveform, waveform_of, BackendReply, ReplyModel, RequestModel, SynthesisError,
    SynthesisRequest,
};
use crate::wave::{decode, parse_wave, DecodeError};
use vstd::prelude::*;

verus! {

/// Why a message brought no track. None of these stops the pipeline: the
/// message is dropped and the next event is handled as if nothing had
/// happened.
#[derive(Clone, Copy, Debug, PartialEq, Eq, Structural)]
pub enum DropReason {
    /// The message is not eligible for synthesis.
    FilteredOut,
    /// The author is in no voice channel.
    NoVoiceTarget,
    /// The guild's session is not there, or not in the state to take a
    /// track.
    Session(SessionStateError),
    /// The backend brought no waveform.
    Synthesis(SynthesisError),
    /// The backend brought bytes that are no waveform.
    Decode(DecodeError),
}

/// A synthesis under way: the request to send to the backend, and the
/// session that the result is for.
#[derive(Clone, Debug, PartialEq, Eq)]
pub struct SynthesisTicket {
    pub guild: GuildId,
    pub session: u64,
    pub request: SynthesisRequest,
}

/// A [`SynthesisTicket`] as a mathematical value.
pub struct TicketModel {
    pub guild: GuildId,
    pub session: u64,
    pub request: RequestModel,
}

impl View for SynthesisTicket {
    type V = TicketModel;

    open spec fn view(&self) -> TicketModel {
        TicketModel { guild: self.guild, session: self.session, request: self.request@ }
    }
}

/// The pipeline as a mathematical value.
pub struct PipelineModel {
    pub filter: FilterModel,
    pub prefs: PreferenceModel,
    pub sessions: RegistryModel,
}

impl PipelineModel {
    /// What is done about `message`, whose author is in the voice channel
    /// `voice` or in none: the ticket of the synthesis to start, or why the
    /// message is dropped. The checks are made in this order: eligibility,
    /// the author's voice channel, the guild's session.
    pub open spec fn decide_message(self, message: MessageModel, voice: Option<ChannelId>)
        -> Result<TicketModel, DropReason> {
        match self.filter.eligible(message) {
            None => Err(DropReason::FilteredOut),
            Some(text) => {
                let guild = message.guild->0;
                if voice.is_none() {
                    Err(DropReason::NoVoiceTarget)
                } else if self.sessions.check_skip(guild) is Some {
                    Err(DropReason::Session(self.sessions.check_skip(guild)->0))
                } else {
                    Ok(
                        TicketModel {
                            guild,
                            session: self.sessions.sessions[guild.0].id,
                            request: RequestModel {
                                text,
                                speaker: self.prefs.speaker_of(message.author),
                            },
                        },
                    )
                }
            },
        }
    }

    /// The track that `reply` brings to the session `session` of `guild`, or
    /// why it brings none. The checks are made in this order: the reply, the
    /// waveform, the session.
    pub open spec fn delivery(self, guild: GuildId, session: u64, reply: ReplyModel) -> Result<
        AudioTrackView,
        DropReason,
    > {
        match waveform_of(reply) {
            Err(e) => Err(DropReason::Synthesis(e)),
            Ok(bytes) => match parse_wave(bytes) {
                Err(e) => Err(DropReason::Decode(e)),
                Ok(track) => match self.sessions.check_active(guild, session) {
                    Some(e) => Err(DropReason::Session(e)),
                    None => Ok(track),
                },
            },
        }
    }

    /// The pipeline after `reply` came in for the session `session` of
    /// `guild`: the track is appended to that session's queue where there
    /// is one to deliver, and nothing changes otherwise.
    pub open spec fn complete(self, guild: GuildId, session: u64, reply: ReplyModel)
        -> PipelineModel {
        match self.delivery(guild, session, reply) {
            Ok(track) => PipelineModel {
                sessions: self.sessions.enqueue(guild, session, track),
                ..self
            },
            Err(_) => self,
        }
    }

    /// The pipeline after `user` chose `speaker` and the durable copy
    /// answered with `written`.
    pub open spec fn select_speaker(
        self,
        user: UserId,
        speaker: SpeakerId,
        written: Result<(), PersistenceError>,
    ) -> PipelineModel {
        if written is Ok {
            PipelineModel { prefs: self.prefs.with(user, speaker), ..self }
        } else {
            self
        }
    }
}

/// Handles the events of all guilds: messages become tracks on the queue of
/// their guild's session, commands change sessions and preferences. It
/// holds the state and makes the decisions; the caller calls the backend,
/// moves the audio and writes the durable copy, and hands back what
/// happened.
pub struct PipelineOrchestrator {
    filter: ContentFilter,
    prefs: SpeakerPreferenceStore,
    sessions: SessionRegistry,
}

impl View for PipelineOrchestrator {
    type V = PipelineModel;

    closed spec fn view(&self) -> PipelineModel {
        PipelineModel { filter: self.filter@, prefs: self.prefs@, sessions: self.sessions@ }
    }
}

impl PipelineOrchestrator {
    /// A pipeline without sessions.
    pub fn new(filter: ContentFilter, prefs: SpeakerPreferenceStore) -> (pipeline:
        PipelineOrchestrator)
        ensures
            pipeline@ == (PipelineModel {
                filter: filter@,
                prefs: prefs@,
                sessions: RegistryModel::empty(),
            }),
    {
        PipelineOrchestrator { filter, prefs, sessions: SessionRegistry::new() }
    }

    /// The filter that decides which messages are spoken.
    pub fn filter(&self) -> (filter: &ContentFilter)
        ensures
            filter@ == self@.filter,
    {
        &self.filter
    }

    /// The speakers that the users chose.
    pub fn prefs(&self) -> (prefs: &SpeakerPreferenceStore)
        ensures
            prefs@ == self@.prefs,
    {
        &self.prefs
    }

    /// The live sessions.
    pub fn sessions(&self) -> (sessions: &SessionRegistry)
        ensures
            sessions@ == self@.sessions,
    {
        &self.sessions
    }

    /// Has the messages of `guild` relayed from `channel` from now on, in
    /// place of the channel that was relayed before, if any.
    pub fn designate(&mut self, guild: GuildId, channel: ChannelId)
        ensures
            final(self)@ == (PipelineModel {
                filter: old(self)@.filter.designate(guild, channel),
                ..old(self)@
            }),
    {
        self.filter.designate(guild, channel);
    }

    /// Has no messages of `guild` relayed any more.
    pub fn undesignate(&mut self, guild: GuildId)
        ensures
            final(self)@ == (PipelineModel {
                filter: old(self)@.filter.undesignate(guild),
                ..old(self)@
            }),
    {
        self.filter.undesignate(guild);
    }

    /// Decides what is done about a message. `voice` is the voice channel
    /// that the author is in, if any. Nothing is changed: the result is
    /// either the ticket of a synthesis that the caller is to run, or the
    /// reason why the message is dropped.
    pub fn on_message(&self, event: &MessageEvent, voice: Option<ChannelId>) -> (decision: Result<
        SynthesisTicket,
        DropReason,
    >)
        ensures
            match decision {
                Ok(ticket) => self@.decide_message(event@, voice) == Ok::<TicketModel, DropReason>(
                    ticket@,
                ),
                Err(reason) => self@.decide_message(event@, voice) == Err::<
                    TicketModel,
                    DropReason,
                >(reason),
            },
    {
        let text = match self.filter.filter(event) {
            None => {
                return Err(DropReason::FilteredOut);
            },
            Some(text) => text,
        };
        let guild = match event.guild {
            None => {
                return Err(DropReason::FilteredOut);
            },
            Some(guild) => guild,
        };
        if voice.is_none() {
            return Err(DropReason::NoVoiceTarget);
        }
        let session = match self.sessions.current_session(guild) {
            None => {
                return Err(DropReason::Session(SessionStateError::Absent));
            },
            Some(session) => session,
        };
        match self.sessions.check_active(guild, session) {
            Some(e) => {
                return Err(DropReason::Session(e));
            },
            None => {},
        }
        let speaker = self.prefs.get_speaker(event.author);
        Ok(SynthesisTicket { guild, session, request: SynthesisRequest { text, speaker } })
    }

    /// Takes the backend's reply for the synthesis that was started for the
    /// session `session` of `guild`: the waveform is decoded and the track
    /// appended to that session's queue. Where the reply brought no
    /// waveform, the bytes are no waveform, or the session is gone, replaced
    /// or not active, the message is dropped and nothing changes. The result
    /// says what the audio output is to do, or why the message was dropped.
    pub fn complete_synthesis(
        &mut self,
        guild: GuildId,
        session: u64,
        reply: BackendReply,
    ) -> (result: Result<Playback, DropReason>)
        ensures
            final(self)@ == old(self)@.complete(guild, session, reply@),
            match result {
                Ok(playback) => old(self)@.delivery(guild, session, reply@) is Ok && playback == (
                if old(self)@.sessions.queue_of(guild).len() == 0 {
                    Playback::StartHead
                } else {
                    Playback::Unchanged
                }),
                Err(reason) => old(self)@.delivery(guild, session, reply@) == Err::<
                    AudioTrackView,
                    DropReason,
                >(reason),
            },
    {
        let bytes = match into_waveform(reply) {
            Err(e) => {
                return Err(DropReason::Synthesis(e));
            },
            Ok(bytes) => bytes,
        };
        let track = match decode(bytes.as_slice()) {
            Err(e) => {
                return Err(DropReason::Decode(e));
            },
            Ok(track) => track,
        };
        match self.sessions.enqueue(guild, session, track) {
            Ok(playback) => Ok(playback),
            Err(e) => Err(DropReason::Session(e)),
        }
    }

    /// Requests a session for `guild` in the voice channel `channel`. A
    /// guild that has a session keeps it: joining again changes nothing.
    pub fn join(&mut self, guild: GuildId, channel: ChannelId) -> (decision: JoinDecision)
        ensures
            decision == old(self)@.sessions.decide_join(guild),
            final(self)@ == (PipelineModel {
                sessions: old(self)@.sessions.join(guild, channel),
                ..old(self)@
            }),
    {
        self.sessions.join(guild, channel)
    }

    /// Takes note of how the handshake for the session `session` of `guild`
    /// ended.
    pub fn connected(&mut self, guild: GuildId, session: u64, transport_ok: bool) -> (outcome:
        ConnectOutcome)
        ensures
            outcome == old(self)@.sessions.connect_outcome(guild, session, transport_ok),
            final(self)@ == (PipelineModel {
                sessions: old(self)@.sessions.connected(guild, session, transport_ok),
                ..old(self)@
            }),
    {
        self.sessions.connected(guild, session, transport_ok)
    }

    /// Ends the session of `guild`, on a leave command or because the
    /// transport was disconnected. The queue is discarded; the result is the
    /// number of tracks that went with it.
    pub fn leave(&mut self, guild: GuildId) -> (result: Result<usize, SessionStateError>)
        ensures
            final(self)@ == (PipelineModel {
                sessions: old(self)@.sessions.leave(guild),
                ..old(self)@
            }),
            match result {
                Ok(discarded) => old(self)@.sessions.sessions.contains_key(guild.0) && discarded
                    == old(self)@.sessions.queue_of(guild).len(),
                Err(e) => !old(self)@.sessions.sessions.contains_key(guild.0) && e
                    == SessionStateError::Absent,
            },
    {
        self.sessions.leave(guild)
    }

    /// Stops what is playing in `guild` and lets the next track take its
    /// place.
    pub fn skip(&mut self, guild: GuildId) -> (result: Result<Playback, SessionStateError>)
        ensures
            final(self)@ == (PipelineModel {
                sessions: old(self)@.sessions.skip(guild),
                ..old(self)@
            }),
            match result {
                Ok(playback) => old(self)@.sessions.check_skip(guild).is_none() && playback == (
                if old(self)@.sessions.queue_of(guild).len() == 0 {
                    Playback::Unchanged
                } else if old(self)@.sessions.queue_of(guild).len() == 1 {
                    Playback::Idle
                } else {
                    Playback::StartHead
                }),
                Err(e) => old(self)@.sessions.check_skip(guild) == Some(e),
            },
    {
        self.sessions.skip(guild)
    }

    /// Takes note that the playing track of the session `session` of `guild`
    /// has ended: the next track of the queue takes its place.
    pub fn track_finished(&mut self, guild: GuildId, session: u64) -> (result: Result<
        Playback,
        SessionStateError,
    >)
        ensures
            final(self)@ == (PipelineModel {
                sessions: old(self)@.sessions.advance(guild, session),
                ..old(self)@
            }),
            match result {
                Ok(playback) => old(self)@.sessions.check_active(guild, session).is_none()
                    && playback == (if old(self)@.sessions.queue_of(guild).len() == 0 {
                    Playback::Unchanged
                } else if old(self)@.sessions.queue_of(guild).len() == 1 {
                    Playback::Idle
                } else {
                    Playback::StartHead
                }),
                Err(e) => old(self)@.sessions.check_active(guild, session) == Some(e),
            },
    {
        self.sessions.advance(guild, session)
    }

    /// Takes over `user`'s choice of `speaker` once the durable copy has
    /// answered with `written`: the choice holds from now on where the write
    /// succeeded; where it failed nothing changes and the error is handed
    /// on.
    pub fn select_speaker(
        &mut self,
        user: UserId,
        speaker: SpeakerId,
        written: Result<(), PersistenceError>,
    ) -> (result: Result<(), PersistenceError>)
        ensures
            result == written,
            final(self)@ == old(self)@.select_speaker(user, speaker, written),
    {
        self.prefs.commit_speaker(user, speaker, written)
    }

    /// Where `guild` stands.
    pub fn state_of(&self, guild: GuildId) -> (state: SessionState)
        ensures
            state == self@.sessions.state_of(guild),
    {
        self.sessions.state_of(guild)
    }
}

/// A message that brings no track changes nothing: whatever the reason,
/// every session and every queue of every guild is as it was before.
pub proof fn law_dropped_message_changes_nothing(
    p: PipelineModel,
    guild: GuildId,
    session: u64,
    reply: ReplyModel,
)
    requires
        p.delivery(guild, session, reply) is Err,
    ensures
        p.complete(guild, session, reply) == p,
{
}

/// A backend call that times out, or that fails in another way, brings no
/// track: the pipeline is unchanged and the reason is the backend's.
pub proof fn law_failed_synthesis_enqueues_nothing(
    p: PipelineModel,
    guild: GuildId,
    session: u64,
    reply: ReplyModel,
)
    requires
        waveform_of(reply) is Err,
    ensures
        p.delivery(guild, session, reply) == Err::<AudioTrackView, DropReason>(
            DropReason::Synthesis(waveform_of(reply)->Err_0),
        ),
        p.complete(guild, session, reply) == p,
        waveform_of(ReplyModel::TimedOut) == Err::<Seq<u8>, SynthesisError>(
            SynthesisError::Timeout,
        ),
{
}

/// Bytes that are no waveform bring no track: the message is dropped with
/// the decoder's error, and the pipeline, the queues of all other guilds
/// included, is unchanged.
pub proof fn law_undecodable_waveform_is_dropped(
    p: PipelineModel,
    guild: GuildId,
    session: u64,
    reply: ReplyModel,
)
    requires
        waveform_of(reply) is Ok,
        parse_wave(waveform_of(reply)->Ok_0) is Err,
    ensures
        p.delivery(guild, session, reply) == Err::<AudioTrackView, DropReason>(
            DropReason::Decode(parse_wave(waveform_of(reply)->Ok_0)->Err_0),
        ),
        p.complete(guild, session, reply) == p,
{
}

/// A reply changes at most the queue of the guild that it is for: every
/// other guild's session is as it was, and so are filter and preferences.
pub proof fn law_delivery_touches_one_guild(
    p: PipelineModel,
    guild: GuildId,
    session: u64,
    reply: ReplyModel,
    other: GuildId,
)
    requires
        other != guild,
    ensures
        p.complete(guild, session, reply).sessions.state_of(other) == p.sessions.state_of(other),
        p.complete(guild, session, reply).sessions.queue_of(other) == p.sessions.queue_of(other),
        p.complete(guild, session, reply).filter == p.filter,
        p.complete(guild, session, reply).prefs == p.prefs,
{
}

/// A message that is spoken adds exactly one track, at the tail of its own
/// guild's queue, and that track starts playing at once exactly when the
/// queue was empty.
pub proof fn law_spoken_message_appends_one_track(
    p: PipelineModel,
    message: MessageModel,
    voice: Option<ChannelId>,
    reply: ReplyModel,
)
    requires
        p.decide_message(message, voice) is Ok,
        waveform_of(reply) is Ok,
        parse_wave(waveform_of(reply)->Ok_0) is Ok,
    ensures
        ({
            let ticket = p.decide_message(message, voice)->Ok_0;
            let track = parse_wave(waveform_of(reply)->Ok_0)->Ok_0;
            let after = p.complete(ticket.guild, ticket.session, reply);
            &&& message.guild == Some(ticket.guild)
            &&& after.sessions.queue_of(ticket.guild) == p.sessions.queue_of(ticket.guild).push(
                track,
            )
            &&& p.sessions.queue_of(ticket.guild).len() == 0 ==> after.sessions.sessions[ticket
                .guild.0].playing() == Some(track)
        }),
{
}

/// The speaker of a synthesis is the author's choice where one was
/// committed, and the default otherwise; a choice that could not be written
/// does not count.
pub proof fn law_message_is_spoken_by_authors_choice(
    p: PipelineModel,
    user: UserId,
    speaker: SpeakerId,
    written: Result<(), PersistenceError>,
    message: MessageModel,
    voice: Option<ChannelId>,
)
    requires
        message.author == user,
    ensures
        p.decide_message(message, voice) matches Ok(ticket) ==> ticket.request.speaker
            == p.prefs.speaker_of(user),
        !p.prefs.records.contains_key(user.0) ==> p.prefs.speaker_of(user)
            == p.prefs.default_speaker,
        p.select_speaker(user, speaker, written).decide_message(message, voice) matches Ok(
            ticket,
        ) ==> ticket.request.speaker == (if written is Ok {
            speaker
        } else {
            p.prefs.speaker_of(user)
        }),
{
}

/// After a leave, a reply that was on its way for the guild is dropped for
/// want of a session, and the guild still has none.
pub proof fn law_reply_after_leave_is_dropped(
    p: PipelineModel,
    guild: GuildId,
    session: u64,
    reply: ReplyModel,
)
    ensures
        ({
            let left = PipelineModel { sessions: p.sessions.leave(guild), ..p };
            &&& left.complete(guild, session, reply) == left
            &&& left.complete(guild, session, reply).sessions.state_of(guild)
                == SessionState::Absent
            &&& left.delivery(guild, session, reply) is Err
        }),
{
}

/// No synthesis is asked for an empty text, nor for a message outside a
/// guild: every ticket is for the guild of its message and carries the
/// normalized content, which is not empty.
pub proof fn law_tickets_carry_spoken_text(
    p: PipelineModel,
    message: MessageModel,
    voice: Option<ChannelId>,
)
    requires
        p.decide_message(message, voice) is Ok,
    ensures
        ({
            let ticket = p.decide_message(message, voice)->Ok_0;
            &&& ticket.request.text.len() > 0
            &&& ticket.request.text == crate::filter::normalize(message.content)
            &&& message.guild == Some(ticket.guild)
            &&& voice is Some
            &&& p.sessions.state_of(ticket.guild) == SessionState::Active
            &&& p.sessions.has_session(ticket.guild, ticket.session)
        }),
{
}

} // verus!
