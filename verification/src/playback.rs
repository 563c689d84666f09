//! Preparing a stimulus for the playback device.

use vstd::prelude::*;

verus! {

/// Every sample twice: a mono signal laid out for two channels.
pub open spec fn doubled(wav: Seq<i16>) -> Seq<i16> {
    Seq::new(2 * wav.len(), |i: int| wav[i / 2])
}

/// The samples at the even places: the first channel of an interleaved
/// two-channel signal.
pub open spec fn first_channel(wav: Seq<i16>) -> Seq<i16> {
    Seq::new((wav.len() + 1) / 2, |i: int| wav[2 * i])
}

/// The samples of a file with `wav_channels` channels, laid out for a
/// device with `hw_channels` channels. A file that is neither mono nor
/// stereo gives no samples at all.
pub open spec fn fitted(wav: Seq<i16>, wav_channels: usize, hw_channels: usize) -> Seq<i16> {
    if wav_channels == 1 {
        if hw_channels == 2 {
            doubled(wav)
        } else {
            wav
        }
    } else if wav_channels == 2 {
        if hw_channels == 1 {
            first_channel(wav)
        } else {
            wav
        }
    } else {
        Seq::empty()
    }
}

/// The playback device used when none is named.
pub fn default_device() -> (device: String)
    ensures
        device@ == "plughw:1"@,
{
    "plughw:1".to_owned()
}

/// The sound card used for the volume when none is named.
pub fn default_card() -> (card: String)
    ensures
        card@ == "hw:1"@,
{
    "hw:1".to_owned()
}

/// The number of device channels when none is given: mono.
pub fn default_channel() -> (channels: usize)
    ensures
        channels == 1,
{
    1
}

/// The volume when none is given: full.
pub fn default_volume() -> (volume: i64)
    ensures
        volume == 100,
{
    100
}

/// The sampling rate when none is given.
pub fn default_rate() -> (rate: u32)
    ensures
        rate == 44100,
{
    44100
}

/// Lays the samples of a file out for the playback device.
pub fn process_audio(wav: Vec<i16>, wav_channels: usize, hw_channels: usize) -> (result: Vec<i16>)
    ensures
        result@ == fitted(wav@, wav_channels, hw_channels),
{
    if wav_channels == 1 && hw_channels == 2 {
        let mut result: Vec<i16> = Vec::new();
        let mut i: usize = 0;
        while i < wav.len()
            invariant
                i <= wav.len(),
                result@.len() == 2 * i,
                forall|k: int| 0 <= k < 2 * i ==> result@[k] == wav@[k / 2],
            decreases wav.len() - i,
        {
            let note: i16 = wav[i];
            result.push(note);
            result.push(note);
            i += 1;
        }
        assert(result@ =~= doubled(wav@));
        result
    } else if wav_channels == 2 && hw_channels == 1 {
        let mut result: Vec<i16> = Vec::new();
        let mut i: usize = 0;
        while i < wav.len()
            invariant
                wav_channels == 2,
                hw_channels == 1,
                i <= wav.len() + 1,
                i % 2 == 0,
                result@.len() == i / 2,
                forall|k: int| 0 <= k < result@.len() ==> result@[k] == wav@[2 * k],
            decreases wav.len() + 1 - i,
        {
            result.push(wav[i]);
            if i + 1 == wav.len() {
                assert(result@ =~= first_channel(wav@));
                return result;
            }
            i += 2;
        }
        assert(result@ =~= first_channel(wav@));
        result
    } else if wav_channels == 1 || wav_channels == 2 {
        wav
    } else {
        let result: Vec<i16> = Vec::new();
        assert(result@ =~= Seq::<i16>::empty());
        result
    }
}

/// Laying a mono signal out for two channels and taking the first channel
/// again gives the signal back.
pub proof fn lemma_first_channel_of_doubled(wav: Seq<i16>)
    ensures
        first_channel(doubled(wav)) == wav,
        fitted(fitted(wav, 1, 2), 2, 1) == wav,
{
    assert(first_channel(doubled(wav)) =~= wav);
}

/// A signal that already has as many channels as the device is passed on
/// as it is.
pub proof fn lemma_matching_channels_pass(wav: Seq<i16>, channels: usize)
    requires
        channels == 1 || channels == 2,
    ensures
        fitted(wav, channels, channels) == wav,
{
}

/// The most samples handed to the device in one write.
pub const CHUNK: usize = 512;

/// Where playback stands in a stimulus of `frames` samples.
///
/// Playback is over once at most one sample is left.
#[derive(Clone, Copy, Debug, PartialEq, Eq, Structural)]
pub struct Playhead {
    pub pointer: usize,
    pub frames: usize,
}

/// What the device reports after a write.
#[derive(Clone, Copy, Debug, PartialEq, Eq, Structural)]
pub enum DeviceState {
    Running,
    Prepared,
    XRun,
    Suspended,
}

/// What has to be done to the device before the next write.
#[derive(Clone, Copy, Debug, PartialEq, Eq, Structural)]
pub enum Remedy {
    /// The device is playing.
    Nothing,
    /// The device has data and waits to be started.
    Start,
    /// The device ran dry or was suspended and has to be prepared again.
    Prepare,
}

impl Playhead {
    /// Whether samples are still to be written.
    pub open spec fn unfinished(self) -> bool {
        self.pointer < self.frames - 1
    }

    /// The end of the next chunk: a full chunk, or what is left.
    pub open spec fn chunk_end(self) -> int {
        if self.pointer + CHUNK > self.frames {
            self.frames as int
        } else {
            self.pointer + CHUNK
        }
    }

    /// The start of a stimulus of `frames` samples.
    pub fn new(frames: usize) -> (head: Playhead)
        ensures
            head == (Playhead { pointer: 0, frames }),
    {
        Playhead { pointer: 0, frames }
    }

    /// The bounds of the samples to write next, or `None` when playback is
    /// over.
    pub fn next_chunk(&self) -> (chunk: Option<(usize, usize)>)
        requires
            self.frames >= 1,
        ensures
            self.unfinished() ==> chunk == Some((self.pointer, self.chunk_end() as usize)),
            !self.unfinished() ==> chunk.is_none(),
    {
        if self.pointer < self.frames - 1 {
            if self.frames - self.pointer < CHUNK {
                Some((self.pointer, self.frames))
            } else {
                Some((self.pointer, self.pointer + CHUNK))
            }
        } else {
            None
        }
    }

    /// Moves on by the number of samples that the device took.
    pub fn wrote(&mut self, written: usize)
        requires
            old(self).pointer + written <= usize::MAX,
        ensures
            final(self).pointer == old(self).pointer + written,
            final(self).frames == old(self).frames,
    {
        self.pointer = self.pointer + written;
    }
}

impl DeviceState {
    /// What the state asks for.
    pub open spec fn remedy_spec(self) -> Remedy {
        match self {
            DeviceState::Running => Remedy::Nothing,
            DeviceState::Prepared => Remedy::Start,
            DeviceState::XRun => Remedy::Prepare,
            DeviceState::Suspended => Remedy::Prepare,
        }
    }

    /// What has to be done to the device before the next write.
    pub fn remedy(&self) -> (remedy: Remedy)
        ensures
            remedy == self.remedy_spec(),
    {
        match self {
            DeviceState::Running => Remedy::Nothing,
            DeviceState::Prepared => Remedy::Start,
            DeviceState::XRun => Remedy::Prepare,
            DeviceState::Suspended => Remedy::Prepare,
        }
    }
}

/// Every chunk starts at the playhead, holds at least two samples unless
/// it is the last, never more than a full chunk, and ends within the
/// stimulus.
pub proof fn lemma_chunk_is_within_the_stimulus(head: Playhead)
    requires
        head.frames >= 1,
        head.unfinished(),
    ensures
        head.pointer < head.chunk_end() <= head.frames,
        head.chunk_end() - head.pointer <= CHUNK,
        head.chunk_end() < head.frames ==> head.chunk_end() - head.pointer == CHUNK,
{
}

/// A device that takes every chunk whole is fed the stimulus chunk after
/// chunk and playback comes to an end: each write brings the playhead
/// closer to the end of the stimulus.
pub proof fn lemma_whole_chunks_make_progress(head: Playhead)
    requires
        head.frames >= 1,
        head.unfinished(),
    ensures
        head.frames - head.chunk_end() < head.frames - head.pointer,
{
}

} // verus!
