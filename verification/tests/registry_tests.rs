use speech_relay::ids::{ChannelId, GuildId};
use speech_relay::registry::{ConnectOutcome, JoinDecision, SessionRegistry, SessionState};
use speech_relay::session::{Playback, SessionStateError};
use speech_relay::track::AudioTrack;

const G1: GuildId = GuildId(1);
const G2: GuildId = GuildId(2);

fn track(tag: i16) -> AudioTrack {
    AudioTrack { sample_rate: 24000, channels: 1, samples: vec![tag] }
}

fn tags(registry: &SessionRegistry, guild: GuildId) -> Vec<i16> {
    let mut out = Vec::new();
    if let Some(session) = registry.session(guild) {
        let mut i = 0;
        while let Some(t) = session.queued(i) {
            out.push(t.samples[0]);
            i += 1;
        }
    }
    out
}

fn active(registry: &mut SessionRegistry, guild: GuildId) -> u64 {
    match registry.join(guild, ChannelId(guild.0 + 1000)) {
        JoinDecision::Connect(id) => {
            assert_eq!(registry.connected(guild, id, true), ConnectOutcome::Activated);
            id
        }
        other => panic!("{:?}", other),
    }
}

#[test]
fn new_registry_has_no_sessions() {
    let r = SessionRegistry::new();
    assert_eq!(r.state_of(G1), SessionState::Absent);
    assert!(r.session(G1).is_none());
    assert_eq!(r.current_session(G1), None);
    assert_eq!(r.check_active(G1, 0), Some(SessionStateError::Absent));
}

#[test]
fn join_connects_then_activates() {
    let mut r = SessionRegistry::new();
    assert_eq!(r.join(G1, ChannelId(9)), JoinDecision::Connect(0));
    assert_eq!(r.state_of(G1), SessionState::Connecting);
    assert_eq!(r.current_session(G1), Some(0));
    assert_eq!(r.session(G1).unwrap().channel(), ChannelId(9));
    assert_eq!(r.check_active(G1, 0), Some(SessionStateError::Connecting));
    assert_eq!(r.connected(G1, 0, true), ConnectOutcome::Activated);
    assert_eq!(r.state_of(G1), SessionState::Active);
    assert_eq!(r.check_active(G1, 0), None);
}

#[test]
fn join_again_is_a_noop() {
    let mut r = SessionRegistry::new();
    assert_eq!(r.join(G1, ChannelId(9)), JoinDecision::Connect(0));
    assert_eq!(r.join(G1, ChannelId(10)), JoinDecision::AlreadyJoined);
    assert_eq!(r.state_of(G1), SessionState::Connecting);
    assert_eq!(r.session(G1).unwrap().channel(), ChannelId(9));
    r.connected(G1, 0, true);
    r.enqueue(G1, 0, track(1)).unwrap();
    assert_eq!(r.join(G1, ChannelId(10)), JoinDecision::AlreadyJoined);
    assert_eq!(r.state_of(G1), SessionState::Active);
    assert_eq!(r.current_session(G1), Some(0));
    assert_eq!(tags(&r, G1), vec![1]);
}

#[test]
fn failed_handshake_returns_to_absent() {
    let mut r = SessionRegistry::new();
    assert_eq!(r.join(G1, ChannelId(9)), JoinDecision::Connect(0));
    assert_eq!(r.connected(G1, 0, false), ConnectOutcome::Abandoned);
    assert_eq!(r.state_of(G1), SessionState::Absent);
    assert_eq!(r.join(G1, ChannelId(9)), JoinDecision::Connect(1));
}

#[test]
fn handshake_of_another_session_is_ignored() {
    let mut r = SessionRegistry::new();
    assert_eq!(
        r.connected(G1, 0, true),
        ConnectOutcome::Ignored(SessionStateError::Absent)
    );
    assert_eq!(r.join(G1, ChannelId(9)), JoinDecision::Connect(0));
    r.leave(G1).unwrap();
    assert_eq!(r.join(G1, ChannelId(9)), JoinDecision::Connect(1));
    assert_eq!(
        r.connected(G1, 0, true),
        ConnectOutcome::Ignored(SessionStateError::Replaced)
    );
    assert_eq!(r.state_of(G1), SessionState::Connecting);
    assert_eq!(
        r.connected(G1, 0, false),
        ConnectOutcome::Ignored(SessionStateError::Replaced)
    );
    assert_eq!(r.state_of(G1), SessionState::Connecting);
}

#[test]
fn identities_are_never_reused() {
    let mut r = SessionRegistry::new();
    let a = active(&mut r, G1);
    let b = active(&mut r, G2);
    r.leave(G1).unwrap();
    let c = active(&mut r, G1);
    assert_eq!((a, b, c), (0, 1, 2));
}

#[test]
fn enqueue_needs_the_live_active_session() {
    let mut r = SessionRegistry::new();
    assert_eq!(r.enqueue(G1, 0, track(1)), Err(SessionStateError::Absent));
    assert_eq!(r.join(G1, ChannelId(9)), JoinDecision::Connect(0));
    assert_eq!(r.enqueue(G1, 0, track(1)), Err(SessionStateError::Connecting));
    assert_eq!(r.enqueue(G1, 5, track(1)), Err(SessionStateError::Replaced));
    r.connected(G1, 0, true);
    assert_eq!(r.enqueue(G1, 5, track(1)), Err(SessionStateError::Replaced));
    assert_eq!(tags(&r, G1), Vec::<i16>::new());
    assert_eq!(r.enqueue(G1, 0, track(1)), Ok(Playback::StartHead));
    assert_eq!(r.enqueue(G1, 0, track(2)), Ok(Playback::Unchanged));
    assert_eq!(tags(&r, G1), vec![1, 2]);
}

#[test]
fn interleaved_guilds_keep_their_own_order() {
    let mut r = SessionRegistry::new();
    let s1 = active(&mut r, G1);
    let s2 = active(&mut r, G2);
    r.enqueue(G1, s1, track(11)).unwrap();
    r.enqueue(G2, s2, track(21)).unwrap();
    r.enqueue(G2, s2, track(22)).unwrap();
    r.enqueue(G1, s1, track(12)).unwrap();
    r.enqueue(G2, s2, track(23)).unwrap();
    r.enqueue(G1, s1, track(13)).unwrap();
    assert_eq!(tags(&r, G1), vec![11, 12, 13]);
    assert_eq!(tags(&r, G2), vec![21, 22, 23]);
}

#[test]
fn track_for_one_guild_is_refused_by_the_other() {
    let mut r = SessionRegistry::new();
    let s1 = active(&mut r, G1);
    let s2 = active(&mut r, G2);
    assert_eq!(r.enqueue(G2, s1, track(11)), Err(SessionStateError::Replaced));
    assert_eq!(tags(&r, G2), Vec::<i16>::new());
    assert_eq!(r.enqueue(G2, s2, track(21)), Ok(Playback::StartHead));
    assert_eq!(tags(&r, G1), Vec::<i16>::new());
}

#[test]
fn leave_discards_the_queue() {
    let mut r = SessionRegistry::new();
    let s1 = active(&mut r, G1);
    let s2 = active(&mut r, G2);
    r.enqueue(G1, s1, track(1)).unwrap();
    r.enqueue(G1, s1, track(2)).unwrap();
    r.enqueue(G2, s2, track(3)).unwrap();
    assert_eq!(r.leave(G1), Ok(2));
    assert_eq!(r.state_of(G1), SessionState::Absent);
    assert_eq!(tags(&r, G2), vec![3]);
    assert_eq!(r.leave(G1), Err(SessionStateError::Absent));
}

#[test]
fn leave_while_connecting_returns_to_absent() {
    let mut r = SessionRegistry::new();
    assert_eq!(r.join(G1, ChannelId(9)), JoinDecision::Connect(0));
    assert_eq!(r.leave(G1), Ok(0));
    assert_eq!(r.state_of(G1), SessionState::Absent);
    assert_eq!(
        r.connected(G1, 0, true),
        ConnectOutcome::Ignored(SessionStateError::Absent)
    );
    assert_eq!(r.state_of(G1), SessionState::Absent);
}

#[test]
fn enqueue_after_leave_fails_and_does_not_resurrect() {
    let mut r = SessionRegistry::new();
    let s1 = active(&mut r, G1);
    r.leave(G1).unwrap();
    assert_eq!(r.enqueue(G1, s1, track(1)), Err(SessionStateError::Absent));
    assert_eq!(r.state_of(G1), SessionState::Absent);
    assert!(r.session(G1).is_none());
}

#[test]
fn stale_track_misses_the_later_session() {
    let mut r = SessionRegistry::new();
    let old = active(&mut r, G1);
    r.leave(G1).unwrap();
    let new = active(&mut r, G1);
    assert_ne!(old, new);
    assert_eq!(r.enqueue(G1, old, track(1)), Err(SessionStateError::Replaced));
    assert_eq!(tags(&r, G1), Vec::<i16>::new());
}

#[test]
fn skip_advances_the_queue() {
    let mut r = SessionRegistry::new();
    let s1 = active(&mut r, G1);
    for tag in [1, 2, 3] {
        r.enqueue(G1, s1, track(tag)).unwrap();
    }
    assert_eq!(r.skip(G1), Ok(Playback::StartHead));
    assert_eq!(tags(&r, G1), vec![2, 3]);
    assert_eq!(r.skip(G1), Ok(Playback::StartHead));
    assert_eq!(r.skip(G1), Ok(Playback::Idle));
    assert_eq!(tags(&r, G1), Vec::<i16>::new());
    assert_eq!(r.state_of(G1), SessionState::Active);
}

#[test]
fn skip_on_idle_guild_is_a_noop() {
    let mut r = SessionRegistry::new();
    active(&mut r, G1);
    assert_eq!(r.skip(G1), Ok(Playback::Unchanged));
    assert_eq!(r.state_of(G1), SessionState::Active);
    assert_eq!(tags(&r, G1), Vec::<i16>::new());
}

#[test]
fn skip_needs_an_active_session() {
    let mut r = SessionRegistry::new();
    assert_eq!(r.skip(G1), Err(SessionStateError::Absent));
    r.join(G1, ChannelId(9));
    assert_eq!(r.skip(G1), Err(SessionStateError::Connecting));
}

#[test]
fn end_of_track_of_an_earlier_session_is_ignored() {
    let mut r = SessionRegistry::new();
    let old = active(&mut r, G1);
    r.leave(G1).unwrap();
    let new = active(&mut r, G1);
    r.enqueue(G1, new, track(1)).unwrap();
    assert_eq!(r.advance(G1, old), Err(SessionStateError::Replaced));
    assert_eq!(tags(&r, G1), vec![1]);
    assert_eq!(r.advance(G1, new), Ok(Playback::Idle));
    assert_eq!(r.advance(G2, 0), Err(SessionStateError::Absent));
}
