use vstd::prelude::*;

verus! {

/// What an [`AudioTrack`] holds, as mathematical values.
pub struct AudioTrackView {
    pub sample_rate: u32,
    pub channels: u16,
    pub samples: Seq<i16>,
}

/// One decoded unit of synthesized audio: signed 16-bit samples, interleaved
/// by channel, at a fixed sample rate.
#[derive(Clone, Debug, PartialEq, Eq)]
pub struct AudioTrack {
    pub sample_rate: u32,
    pub channels: u16,
    pub samples: Vec<i16>,
}

impl View for AudioTrack {
    type V = AudioTrackView;

    open spec fn view(&self) -> AudioTrackView {
        AudioTrackView {
            sample_rate: self.sample_rate,
            channels: self.channels,
            samples: self.samples@,
        }
    }
}

/// The views of a queue of tracks, in the queue's order.
pub open spec fn track_views(tracks: Seq<AudioTrack>) -> Seq<AudioTrackView> {
    tracks.map_values(|t: AudioTrack| t@)
}

/// Appending a track appends its view.
pub proof fn lemma_track_views_push(tracks: Seq<AudioTrack>, t: AudioTrack)
    ensures
        track_views(tracks.push(t)) == track_views(tracks).push(t@),
{
    assert(track_views(tracks.push(t)) =~= track_views(tracks).push(t@));
}

/// Removing the first track removes the first view.
pub proof fn lemma_track_views_drop_first(tracks: Seq<AudioTrack>)
    requires
        tracks.len() > 0,
    ensures
        track_views(tracks.subrange(1, tracks.len() as int)) == track_views(tracks).drop_first(),
        track_views(tracks)[0] == tracks[0]@,
{
    assert(track_views(tracks.subrange(1, tracks.len() as int)) =~= track_views(
        tracks,
    ).drop_first());
}

} // verus!
