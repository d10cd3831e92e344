use crate::track::{AudioTrack, AudioTrackView};
use vstd::prelude::*;

verus! {

/// Why a byte buffer is not a waveform that the playback queue can take.
#[derive(Clone, Copy, Debug, PartialEq, Eq, Structural)]
pub enum DecodeError {
    /// Fewer than the twelve bytes of the container header.
    TooShort,
    /// The buffer does not start with the tag `RIFF`.
    NotRiff,
    /// The container's form type is not `WAVE`.
    NotWave,
    /// The container declares more bytes than the buffer holds.
    Truncated,
    /// No `fmt ` chunk inside the container.
    MissingFormat,
    /// The `fmt ` chunk is shorter than sixteen bytes or runs past the
    /// container's end.
    MalformedFormat,
    /// The samples are not plain integer PCM.
    UnsupportedEncoding,
    /// Neither one nor two channels.
    UnsupportedChannels,
    /// A sample rate of zero.
    InvalidSampleRate,
    /// Samples are not sixteen bits wide.
    UnsupportedSampleWidth,
    /// The declared frame size is not two bytes for each channel.
    InconsistentLayout,
    /// No `data` chunk inside the container.
    MissingData,
    /// The `data` chunk runs past the container's end.
    TruncatedData,
    /// The `data` chunk does not hold a whole number of frames.
    PartialFrame,
}

/// The bytes of the tag `RIFF`, which opens the container.
pub open spec fn riff_tag() -> Seq<u8> {
    seq![0x52u8, 0x49u8, 0x46u8, 0x46u8]
}

/// The bytes of the form type `WAVE`.
pub open spec fn wave_tag() -> Seq<u8> {
    seq![0x57u8, 0x41u8, 0x56u8, 0x45u8]
}

/// The bytes of the tag `fmt `, with its trailing space.
pub open spec fn format_tag() -> Seq<u8> {
    seq![0x66u8, 0x6du8, 0x74u8, 0x20u8]
}

/// The bytes of the tag `data`.
pub open spec fn data_tag() -> Seq<u8> {
    seq![0x64u8, 0x61u8, 0x74u8, 0x61u8]
}

/// The four tag bytes at `at`.
pub open spec fn tag_at(bytes: Seq<u8>, at: int) -> Seq<u8> {
    seq![bytes[at], bytes[at + 1], bytes[at + 2], bytes[at + 3]]
}

/// The unsigned 16-bit number stored at `at`, low byte first.
pub open spec fn le_u16(bytes: Seq<u8>, at: int) -> int {
    bytes[at] as int + 256 * (bytes[at + 1] as int)
}

/// The unsigned 32-bit number stored at `at`, low byte first.
pub open spec fn le_u32(bytes: Seq<u8>, at: int) -> int {
    bytes[at] as int + 256 * (bytes[at + 1] as int) + 65536 * (bytes[at + 2] as int) + 16777216 * (
    bytes[at + 3] as int)
}

/// The signed 16-bit sample stored at `at`, low byte first, in two's
/// complement.
pub open spec fn sample_at(bytes: Seq<u8>, at: int) -> i16 {
    let raw = le_u16(bytes, at);
    if raw >= 32768 {
        (raw - 65536) as i16
    } else {
        raw as i16
    }
}

/// The declared length of the body of the chunk whose header starts at `at`.
pub open spec fn chunk_len(bytes: Seq<u8>, at: int) -> int {
    le_u32(bytes, at + 4)
}

/// Where the header of the chunk after the one at `at` starts: bodies of odd
/// length are followed by one byte of padding.
pub open spec fn next_chunk(bytes: Seq<u8>, at: int) -> int {
    at + 8 + chunk_len(bytes, at) + (if chunk_len(bytes, at) % 2 == 0 {
        0int
    } else {
        1int
    })
}

/// The start of the first chunk tagged `tag` among the chunks that are laid
/// out from `at` on and whose headers lie before `end`.
pub open spec fn find_chunk(bytes: Seq<u8>, at: int, end: int, tag: Seq<u8>) -> Option<int>
    decreases end - at,
{
    if at < 0 || end > bytes.len() || at + 8 > end {
        None
    } else if tag_at(bytes, at) == tag {
        Some(at)
    } else if next_chunk(bytes, at) > end {
        None
    } else {
        find_chunk(bytes, next_chunk(bytes, at), end, tag)
    }
}

/// The end of the container as its header declares it.
pub open spec fn declared_end(bytes: Seq<u8>) -> int {
    8 + le_u32(bytes, 4)
}

/// The samples of a `data` chunk whose body starts at `body` and is `len`
/// bytes long.
pub open spec fn samples_of(bytes: Seq<u8>, body: int, len: int) -> Seq<i16> {
    Seq::new((len / 2) as nat, |i: int| sample_at(bytes, body + 2 * i))
}

/// What the `fmt ` chunk at `at` and the `data` chunk of the container
/// describe.
pub open spec fn parse_chunks(bytes: Seq<u8>, end: int, at: int) -> Result<
    AudioTrackView,
    DecodeError,
> {
    let body = at + 8;
    let channels = le_u16(bytes, body + 2);
    let sample_rate = le_u32(bytes, body + 4);
    let frame = le_u16(bytes, body + 12);
    if chunk_len(bytes, at) < 16 || body + chunk_len(bytes, at) > end {
        Err(DecodeError::MalformedFormat)
    } else if le_u16(bytes, body) != 1 {
        Err(DecodeError::UnsupportedEncoding)
    } else if channels != 1 && channels != 2 {
        Err(DecodeError::UnsupportedChannels)
    } else if sample_rate == 0 {
        Err(DecodeError::InvalidSampleRate)
    } else if le_u16(bytes, body + 14) != 16 {
        Err(DecodeError::UnsupportedSampleWidth)
    } else if frame != 2 * channels {
        Err(DecodeError::InconsistentLayout)
    } else {
        match find_chunk(bytes, 12, end, data_tag()) {
            None => Err(DecodeError::MissingData),
            Some(data) => {
                let len = chunk_len(bytes, data);
                if data + 8 + len > end {
                    Err(DecodeError::TruncatedData)
                } else if len % frame != 0 {
                    Err(DecodeError::PartialFrame)
                } else {
                    Ok(
                        AudioTrackView {
                            sample_rate: sample_rate as u32,
                            channels: channels as u16,
                            samples: samples_of(bytes, data + 8, len),
                        },
                    )
                }
            },
        }
    }
}

/// The waveform that `bytes` encode, or why they encode none.
///
/// Accepted is a RIFF container of form `WAVE` that lies whole in the buffer
/// and holds a `fmt ` chunk for integer PCM of sixteen bits in one or two
/// channels, and a `data` chunk of whole frames. Chunks other than the first
/// `fmt ` and the first `data` are passed over, and so are bytes behind the
/// declared end. The checks are made in the order written here, and the
/// first that fails names the error.
pub open spec fn parse_wave(bytes: Seq<u8>) -> Result<AudioTrackView, DecodeError> {
    if bytes.len() < 12 {
        Err(DecodeError::TooShort)
    } else if tag_at(bytes, 0) != riff_tag() {
        Err(DecodeError::NotRiff)
    } else if tag_at(bytes, 8) != wave_tag() {
        Err(DecodeError::NotWave)
    } else if declared_end(bytes) > bytes.len() {
        Err(DecodeError::Truncated)
    } else {
        match find_chunk(bytes, 12, declared_end(bytes), format_tag()) {
            None => Err(DecodeError::MissingFormat),
            Some(at) => parse_chunks(bytes, declared_end(bytes), at),
        }
    }
}

fn read_u16(bytes: &[u8], at: usize) -> (value: u16)
    requires
        at + 2 <= bytes@.len(),
    ensures
        value == le_u16(bytes@, at as int),
{
    let low: u16 = bytes[at] as u16;
    let high: u16 = bytes[at + 1] as u16;
    low + 256 * high
}

fn read_u32(bytes: &[u8], at: usize) -> (value: u32)
    requires
        at + 4 <= bytes@.len(),
    ensures
        value == le_u32(bytes@, at as int),
{
    let b0: u32 = bytes[at] as u32;
    let b1: u32 = bytes[at + 1] as u32;
    let b2: u32 = bytes[at + 2] as u32;
    let b3: u32 = bytes[at + 3] as u32;
    b0 + 256 * b1 + 65536 * b2 + 16777216 * b3
}

fn read_sample(bytes: &[u8], at: usize) -> (value: i16)
    requires
        at + 2 <= bytes@.len(),
    ensures
        value == sample_at(bytes@, at as int),
{
    let raw: i32 = read_u16(bytes, at) as i32;
    if raw >= 32768 {
        (raw - 65536) as i16
    } else {
        raw as i16
    }
}

fn has_tag(bytes: &[u8], at: usize, t0: u8, t1: u8, t2: u8, t3: u8) -> (same: bool)
    requires
        at + 4 <= bytes@.len(),
    ensures
        same == (tag_at(bytes@, at as int) == seq![t0, t1, t2, t3]),
{
    let same = bytes[at] == t0 && bytes[at + 1] == t1 && bytes[at + 2] == t2 && bytes[at + 3]
        == t3;
    proof {
        let found = tag_at(bytes@, at as int);
        let wanted = seq![t0, t1, t2, t3];
        if same {
            assert(found =~= wanted);
        } else {
            assert(found[0] != wanted[0] || found[1] != wanted[1] || found[2] != wanted[2]
                || found[3] != wanted[3]);
        }
    }
    same
}

fn locate_chunk(bytes: &[u8], end: usize, t0: u8, t1: u8, t2: u8, t3: u8) -> (found: Option<usize>)
    requires
        12 <= end <= bytes@.len(),
    ensures
        match found {
            Some(at) => find_chunk(bytes@, 12, end as int, seq![t0, t1, t2, t3]) == Some(
                at as int,
            ) && 12 <= at && at + 8 <= end,
            None => find_chunk(bytes@, 12, end as int, seq![t0, t1, t2, t3]).is_none(),
        },
{
    let ghost tag = seq![t0, t1, t2, t3];
    let mut at: usize = 12;
    loop
        invariant
            12 <= at <= end <= bytes@.len(),
            tag == seq![t0, t1, t2, t3],
            find_chunk(bytes@, 12, end as int, tag) == find_chunk(
                bytes@,
                at as int,
                end as int,
                tag,
            ),
        decreases end - at,
    {
        if end - at < 8 {
            return None;
        }
        if has_tag(bytes, at, t0, t1, t2, t3) {
            return Some(at);
        }
        let len: u32 = read_u32(bytes, at + 4);
        let padded: u64 = len as u64 + (len % 2) as u64;
        let room: usize = end - at - 8;
        if padded > room as u64 {
            return None;
        }
        at = at + 8 + padded as usize;
    }
}

fn read_samples(bytes: &[u8], body: usize, len: usize) -> (samples: Vec<i16>)
    requires
        body + len <= bytes@.len(),
    ensures
        samples@ == samples_of(bytes@, body as int, len as int),
{
    let total: usize = bytes.len();
    let count: usize = len / 2;
    let mut samples: Vec<i16> = Vec::with_capacity(count);
    let mut i: usize = 0;
    while i < count
        invariant
            i <= count,
            count == len / 2,
            body + len <= bytes@.len() == total,
            samples@ == Seq::new(i as nat, |k: int| sample_at(bytes@, body + 2 * k)),
        decreases count - i,
    {
        assert(2 * i + 2 <= len) by {
            assert(i + 1 <= len / 2);
        }
        let sample = read_sample(bytes, body + 2 * i);
        samples.push(sample);
        i = i + 1;
        assert(samples@ =~= Seq::new(i as nat, |k: int| sample_at(bytes@, body + 2 * k)));
    }
    samples
}

/// Decodes a complete waveform container into a track. The work is one pass
/// over the chunk headers and one over the samples.
pub fn decode(bytes: &[u8]) -> (result: Result<AudioTrack, DecodeError>)
    ensures
        match result {
            Ok(track) => parse_wave(bytes@) == Ok::<AudioTrackView, DecodeError>(track@),
            Err(e) => parse_wave(bytes@) == Err::<AudioTrackView, DecodeError>(e),
        },
{
    if bytes.len() < 12 {
        return Err(DecodeError::TooShort);
    }
    if !has_tag(bytes, 0, 0x52, 0x49, 0x46, 0x46) {
        return Err(DecodeError::NotRiff);
    }
    if !has_tag(bytes, 8, 0x57, 0x41, 0x56, 0x45) {
        return Err(DecodeError::NotWave);
    }
    let declared: u32 = read_u32(bytes, 4);
    if declared as u64 > (bytes.len() - 8) as u64 {
        return Err(DecodeError::Truncated);
    }
    let end: usize = 8 + declared as usize;
    if end < 12 {
        assert(find_chunk(bytes@, 12, end as int, format_tag()).is_none());
        return Err(DecodeError::MissingFormat);
    }
    let at = match locate_chunk(bytes, end, 0x66, 0x6d, 0x74, 0x20) {
        None => {
            return Err(DecodeError::MissingFormat);
        },
        Some(at) => at,
    };
    let body: usize = at + 8;
    let format_len: u32 = read_u32(bytes, at + 4);
    if format_len < 16 || format_len as u64 > (end - body) as u64 {
        return Err(DecodeError::MalformedFormat);
    }
    if read_u16(bytes, body) != 1 {
        return Err(DecodeError::UnsupportedEncoding);
    }
    let channels: u16 = read_u16(bytes, body + 2);
    if channels != 1 && channels != 2 {
        return Err(DecodeError::UnsupportedChannels);
    }
    let sample_rate: u32 = read_u32(bytes, body + 4);
    if sample_rate == 0 {
        return Err(DecodeError::InvalidSampleRate);
    }
    if read_u16(bytes, body + 14) != 16 {
        return Err(DecodeError::UnsupportedSampleWidth);
    }
    let frame: u16 = read_u16(bytes, body + 12);
    if frame != 2 * channels {
        return Err(DecodeError::InconsistentLayout);
    }
    let data = match locate_chunk(bytes, end, 0x64, 0x61, 0x74, 0x61) {
        None => {
            return Err(DecodeError::MissingData);
        },
        Some(data) => data,
    };
    let len: u32 = read_u32(bytes, data + 4);
    if len as u64 > (end - data - 8) as u64 {
        return Err(DecodeError::TruncatedData);
    }
    if len % (frame as u32) != 0 {
        return Err(DecodeError::PartialFrame);
    }
    let samples = read_samples(bytes, data + 8, len as usize);
    Ok(AudioTrack { sample_rate, channels, samples })
}

/// A waveform that was cut short is rejected: whatever decodes does not
/// decode any more once bytes before its declared end are missing.
pub proof fn law_truncated_waveform_is_rejected(bytes: Seq<u8>, keep: int)
    requires
        parse_wave(bytes) is Ok,
        0 <= keep < declared_end(bytes),
    ensures
        parse_wave(bytes.take(keep)) == Err::<AudioTrackView, DecodeError>(
            if keep < 12 {
                DecodeError::TooShort
            } else {
                DecodeError::Truncated
            },
        ),
{
    let cut = bytes.take(keep);
    if keep >= 12 {
        assert(tag_at(cut, 0) == tag_at(bytes, 0));
        assert(tag_at(cut, 8) == tag_at(bytes, 8));
        assert(declared_end(cut) == declared_end(bytes));
    }
}

/// Whatever decodes can be played: it has one or two channels, a sample
/// rate above zero, and a whole number of frames.
pub proof fn law_decoded_track_is_playable(bytes: Seq<u8>)
    requires
        parse_wave(bytes) is Ok,
    ensures
        ({
            let track = parse_wave(bytes)->Ok_0;
            &&& track.channels == 1 || track.channels == 2
            &&& track.sample_rate > 0
            &&& track.samples.len() % (track.channels as nat) == 0
        }),
{
    let end = declared_end(bytes);
    let at = find_chunk(bytes, 12, end, format_tag())->0;
    let channels = le_u16(bytes, at + 10);
    let data = find_chunk(bytes, 12, end, data_tag())->0;
    let len = chunk_len(bytes, data);
    assert(len % (2 * channels) == 0);
    if channels == 2 {
        assert((len / 2) % 2 == 0) by (nonlinear_arith)
            requires
                len % 4 == 0,
        ;
    }
}

} // verus!
