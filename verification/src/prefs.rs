use crate::ids::{SpeakerId, UserId};
use std::collections::HashMap;
use vstd::prelude::*;

verus! {

broadcast use vstd::std_specs::hash::group_hash_axioms;

/// Why the durable copy of the preferences could not be used.
#[derive(Clone, Copy, Debug, PartialEq, Eq, Structural)]
pub enum PersistenceError {
    /// The stored records could not be read.
    ReadFailed,
    /// A record could not be written.
    WriteFailed,
}

/// One stored choice: the speaker that a user picked.
#[derive(Clone, Copy, Debug, PartialEq, Eq, Structural)]
pub struct PreferenceRecord {
    pub user: UserId,
    pub speaker: SpeakerId,
}

/// The preferences as a mathematical value: the speaker for users without a
/// record, and the records, keyed by the user's number.
pub struct PreferenceModel {
    pub default_speaker: SpeakerId,
    pub records: Map<u64, SpeakerId>,
}

impl PreferenceModel {
    /// No user has chosen yet.
    pub open spec fn empty(default_speaker: SpeakerId) -> PreferenceModel {
        PreferenceModel { default_speaker, records: Map::empty() }
    }

    /// The speaker that reads `user`'s messages.
    pub open spec fn speaker_of(self, user: UserId) -> SpeakerId {
        if self.records.contains_key(user.0) {
            self.records[user.0]
        } else {
            self.default_speaker
        }
    }

    /// The preferences after `user` chose `speaker`.
    pub open spec fn with(self, user: UserId, speaker: SpeakerId) -> PreferenceModel {
        PreferenceModel { records: self.records.insert(user.0, speaker), ..self }
    }

    /// The preferences after each of `records` was applied in turn, so that of
    /// two records for one user the later one holds.
    pub open spec fn with_all(self, records: Seq<PreferenceRecord>) -> PreferenceModel
        decreases records.len(),
    {
        if records.len() == 0 {
            self
        } else {
            self.with_all(records.drop_last()).with(records.last().user, records.last().speaker)
        }
    }
}

/// The speaker that each user chose for their own messages, with a default
/// for those who never chose.
pub struct SpeakerPreferenceStore {
    default_speaker: SpeakerId,
    records: HashMap<u64, SpeakerId>,
}

impl View for SpeakerPreferenceStore {
    type V = PreferenceModel;

    closed spec fn view(&self) -> PreferenceModel {
        PreferenceModel { default_speaker: self.default_speaker, records: self.records@ }
    }
}

impl SpeakerPreferenceStore {
    /// A store without records.
    pub fn new(default_speaker: SpeakerId) -> (store: SpeakerPreferenceStore)
        ensures
            store@ == PreferenceModel::empty(default_speaker),
    {
        SpeakerPreferenceStore { default_speaker, records: HashMap::new() }
    }

    /// A store filled from what the durable copy gave. Where reading failed
    /// the store starts without records, so that every user gets the default.
    pub fn restore(
        default_speaker: SpeakerId,
        loaded: Result<Vec<PreferenceRecord>, PersistenceError>,
    ) -> (store: SpeakerPreferenceStore)
        ensures
            store@ == match loaded {
                Ok(records) => PreferenceModel::empty(default_speaker).with_all(records@),
                Err(_) => PreferenceModel::empty(default_speaker),
            },
    {
        let mut store = SpeakerPreferenceStore::new(default_speaker);
        match loaded {
            Err(_) => {},
            Ok(records) => {
                let mut i: usize = 0;
                while i < records.len()
                    invariant
                        i <= records.len(),
                        store@ == PreferenceModel::empty(default_speaker).with_all(
                            records@.take(i as int),
                        ),
                    decreases records.len() - i,
                {
                    let record = records[i];
                    store.set_speaker(record.user, record.speaker);
                    i = i + 1;
                    assert(records@.take(i as int).drop_last() =~= records@.take(i - 1));
                }
                assert(records@.take(i as int) =~= records@);
            },
        }
        store
    }

    /// The speaker for users who never chose.
    pub fn default_speaker(&self) -> (speaker: SpeakerId)
        ensures
            speaker == self@.default_speaker,
    {
        self.default_speaker
    }

    /// The speaker that `user` chose, or the default where there is no
    /// record.
    pub fn get_speaker(&self, user: UserId) -> (speaker: SpeakerId)
        ensures
            speaker == self@.speaker_of(user),
    {
        match self.records.get(&user.0) {
            Some(speaker) => *speaker,
            None => self.default_speaker,
        }
    }

    /// Records that `user` chose `speaker`, in place of any earlier choice.
    pub fn set_speaker(&mut self, user: UserId, speaker: SpeakerId)
        ensures
            final(self)@ == old(self)@.with(user, speaker),
    {
        self.records.insert(user.0, speaker);
    }

    /// Takes over a choice once the durable copy has answered: the record is
    /// set where the write succeeded, and the store stays as it was, with the
    /// error handed on, where it failed.
    pub fn commit_speaker(
        &mut self,
        user: UserId,
        speaker: SpeakerId,
        written: Result<(), PersistenceError>,
    ) -> (result: Result<(), PersistenceError>)
        ensures
            result == written,
            final(self)@ == (if written is Ok {
                old(self)@.with(user, speaker)
            } else {
                old(self)@
            }),
    {
        if written.is_ok() {
            self.set_speaker(user, speaker);
        }
        written
    }
}

/// A user without a record is read by the default speaker.
pub proof fn law_unset_user_gets_default(prefs: PreferenceModel, user: UserId)
    requires
        !prefs.records.contains_key(user.0),
    ensures
        prefs.speaker_of(user) == prefs.default_speaker,
        PreferenceModel::empty(prefs.default_speaker).speaker_of(user) == prefs.default_speaker,
{
}

/// A choice is seen by the next read for the same user, and by no read for
/// another user.
pub proof fn law_read_your_writes(
    prefs: PreferenceModel,
    user: UserId,
    speaker: SpeakerId,
    other: UserId,
)
    ensures
        prefs.with(user, speaker).speaker_of(user) == speaker,
        other != user ==> prefs.with(user, speaker).speaker_of(other) == prefs.speaker_of(other),
{
}

} // verus!
