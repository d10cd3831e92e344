use speech_relay::ids::{SpeakerId, UserId};
use speech_relay::prefs::{PersistenceError, PreferenceRecord, SpeakerPreferenceStore};

#[test]
fn unset_user_gets_the_default() {
    let store = SpeakerPreferenceStore::new(SpeakerId(1));
    assert_eq!(store.default_speaker(), SpeakerId(1));
    assert_eq!(store.get_speaker(UserId(10)), SpeakerId(1));
    assert_eq!(store.get_speaker(UserId(0)), SpeakerId(1));
    assert_eq!(store.get_speaker(UserId(u64::MAX)), SpeakerId(1));
}

#[test]
fn a_choice_is_read_back() {
    let mut store = SpeakerPreferenceStore::new(SpeakerId(1));
    store.set_speaker(UserId(10), SpeakerId(3));
    assert_eq!(store.get_speaker(UserId(10)), SpeakerId(3));
    assert_eq!(store.get_speaker(UserId(11)), SpeakerId(1));
}

#[test]
fn a_later_choice_replaces_the_earlier() {
    let mut store = SpeakerPreferenceStore::new(SpeakerId(0));
    store.set_speaker(UserId(10), SpeakerId(3));
    store.set_speaker(UserId(10), SpeakerId(8));
    store.set_speaker(UserId(11), SpeakerId(2));
    assert_eq!(store.get_speaker(UserId(10)), SpeakerId(8));
    assert_eq!(store.get_speaker(UserId(11)), SpeakerId(2));
}

#[test]
fn choosing_the_default_is_a_choice() {
    let mut store = SpeakerPreferenceStore::new(SpeakerId(5));
    store.set_speaker(UserId(1), SpeakerId(9));
    store.set_speaker(UserId(1), SpeakerId(5));
    assert_eq!(store.get_speaker(UserId(1)), SpeakerId(5));
}

#[test]
fn committed_write_takes_effect() {
    let mut store = SpeakerPreferenceStore::new(SpeakerId(1));
    assert_eq!(store.commit_speaker(UserId(4), SpeakerId(7), Ok(())), Ok(()));
    assert_eq!(store.get_speaker(UserId(4)), SpeakerId(7));
}

#[test]
fn failed_write_is_reported_and_changes_nothing() {
    let mut store = SpeakerPreferenceStore::new(SpeakerId(1));
    store.set_speaker(UserId(4), SpeakerId(2));
    assert_eq!(
        store.commit_speaker(UserId(4), SpeakerId(7), Err(PersistenceError::WriteFailed)),
        Err(PersistenceError::WriteFailed)
    );
    assert_eq!(store.get_speaker(UserId(4)), SpeakerId(2));
    assert_eq!(
        store.commit_speaker(UserId(5), SpeakerId(7), Err(PersistenceError::WriteFailed)),
        Err(PersistenceError::WriteFailed)
    );
    assert_eq!(store.get_speaker(UserId(5)), SpeakerId(1));
}

#[test]
fn restore_applies_records_in_order() {
    let records = vec![
        PreferenceRecord { user: UserId(1), speaker: SpeakerId(3) },
        PreferenceRecord { user: UserId(2), speaker: SpeakerId(4) },
        PreferenceRecord { user: UserId(1), speaker: SpeakerId(5) },
    ];
    let store = SpeakerPreferenceStore::restore(SpeakerId(0), Ok(records));
    assert_eq!(store.get_speaker(UserId(1)), SpeakerId(5));
    assert_eq!(store.get_speaker(UserId(2)), SpeakerId(4));
    assert_eq!(store.get_speaker(UserId(3)), SpeakerId(0));
}

#[test]
fn restore_degrades_to_the_default_on_read_failure() {
    let store = SpeakerPreferenceStore::restore(SpeakerId(6), Err(PersistenceError::ReadFailed));
    assert_eq!(store.get_speaker(UserId(1)), SpeakerId(6));
    assert_eq!(store.default_speaker(), SpeakerId(6));
}

#[test]
fn restore_of_no_records_is_empty() {
    let store = SpeakerPreferenceStore::restore(SpeakerId(6), Ok(vec![]));
    assert_eq!(store.get_speaker(UserId(1)), SpeakerId(6));
}
