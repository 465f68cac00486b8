use vstd::prelude::*;

use crate::audio_format::AudioFormat;

verus! {

/// The MP3 bitrate a transcoded download is encoded at.
#[derive(Clone, Copy, Debug, PartialEq, Eq, Structural)]
pub enum AudioBitrate {
    Q320,
    Q160,
    Q96,
}

/// The bitrate matching an Ogg Vorbis encoding; 320 kbit/s for any other.
pub open spec fn spec_bitrate_of(format: AudioFormat) -> AudioBitrate {
    match format {
        AudioFormat::OGG_VORBIS_160 => AudioBitrate::Q160,
        AudioFormat::OGG_VORBIS_96 => AudioBitrate::Q96,
        _ => AudioBitrate::Q320,
    }
}

/// The bitrate in kbit/s.
pub open spec fn spec_kilobitrate(b: AudioBitrate) -> i32 {
    match b {
        AudioBitrate::Q320 => 320,
        AudioBitrate::Q160 => 160,
        AudioBitrate::Q96 => 96,
    }
}

/// The encoder quality preset: 0 is the best and slowest, 9 the fastest.
/// Higher bitrates get better presets.
pub open spec fn spec_quality(b: AudioBitrate) -> u8 {
    match b {
        AudioBitrate::Q320 => 0,
        AudioBitrate::Q160 => 2,
        AudioBitrate::Q96 => 5,
    }
}

impl From<AudioFormat> for AudioBitrate {
    fn from(val: AudioFormat) -> (r: Self) {
        match val {
            AudioFormat::OGG_VORBIS_320 => AudioBitrate::Q320,
            AudioFormat::OGG_VORBIS_160 => AudioBitrate::Q160,
            AudioFormat::OGG_VORBIS_96 => AudioBitrate::Q96,
            _ => AudioBitrate::Q320,
        }
    }
}

impl vstd::std_specs::convert::FromSpecImpl<AudioFormat> for AudioBitrate {
    open spec fn obeys_from_spec() -> bool {
        true
    }

    open spec fn from_spec(v: AudioFormat) -> Self {
        spec_bitrate_of(v)
    }
}

impl From<&AudioBitrate> for i32 {
    fn from(val: &AudioBitrate) -> (r: Self) {
        match val {
            AudioBitrate::Q320 => 320,
            AudioBitrate::Q160 => 160,
            AudioBitrate::Q96 => 96,
        }
    }
}

impl vstd::std_specs::convert::FromSpecImpl<&AudioBitrate> for i32 {
    open spec fn obeys_from_spec() -> bool {
        true
    }

    open spec fn from_spec(v: &AudioBitrate) -> Self {
        spec_kilobitrate(*v)
    }
}

impl From<&AudioBitrate> for u8 {
    fn from(val: &AudioBitrate) -> (r: Self) {
        match val {
            AudioBitrate::Q320 => 0,
            AudioBitrate::Q160 => 2,
            AudioBitrate::Q96 => 5,
        }
    }
}

impl vstd::std_specs::convert::FromSpecImpl<&AudioBitrate> for u8 {
    open spec fn obeys_from_spec() -> bool {
        true
    }

    open spec fn from_spec(v: &AudioBitrate) -> Self {
        spec_quality(*v)
    }
}

impl AudioBitrate {
    /// The settings an encoder takes for this bitrate: kbit/s and quality preset.
    pub fn encoder_settings(&self) -> (r: (i32, u8))
        ensures
            r == (spec_kilobitrate(*self), spec_quality(*self)),
    {
        (i32::from(self), u8::from(self))
    }
}

/// What a transcoding read has just learned from the decoder or the encoder.
#[derive(Clone, Copy, Debug, PartialEq, Eq, Structural)]
pub enum TranscodeEvent {
    /// The decoder has no more frames.
    EndOfStream,
    /// The decoder produced a frame of this many samples per channel.
    Decoded(usize),
    /// The encoder turned the last frame into this many bytes.
    Encoded(usize),
}

/// What a transcoding read does next.
#[derive(Clone, Copy, Debug, PartialEq, Eq, Structural)]
pub enum ReadStep {
    /// Decode the next frame.
    Decode,
    /// Encode the frame just decoded.
    Encode,
    /// End the read, reporting this many bytes.
    Return(usize),
}

pub open spec fn spec_next_step(event: TranscodeEvent) -> ReadStep {
    match event {
        TranscodeEvent::EndOfStream => ReadStep::Return(0),
        TranscodeEvent::Decoded(n) => if n == 0 {
            ReadStep::Decode
        } else {
            ReadStep::Encode
        },
        TranscodeEvent::Encoded(n) => if n == 0 {
            ReadStep::Decode
        } else {
            ReadStep::Return(n)
        },
    }
}

/// Decides a transcoding read's next step. Empty frames and frames the
/// encoder held back are passed over within the same read, so a read ends
/// empty only at the end of the stream.
pub fn next_step(event: TranscodeEvent) -> (r: ReadStep)
    ensures
        r == spec_next_step(event),
{
    match event {
        TranscodeEvent::EndOfStream => ReadStep::Return(0),
        TranscodeEvent::Decoded(n) => if n == 0 {
            ReadStep::Decode
        } else {
            ReadStep::Encode
        },
        TranscodeEvent::Encoded(n) => if n == 0 {
            ReadStep::Decode
        } else {
            ReadStep::Return(n)
        },
    }
}

/// The events seen within one read: the last one's step ends the read, and
/// no earlier one's does.
pub open spec fn ends_read_at_last(events: Seq<TranscodeEvent>) -> bool {
    &&& events.len() >= 1
    &&& spec_next_step(events.last()) is Return
    &&& forall|i: int| 0 <= i < events.len() - 1 ==> !(spec_next_step(#[trigger] events[i]) is Return)
}

/// A transcoding read never ends empty before the end of the stream: whatever
/// frames it passed over, it reports zero bytes exactly when the decoder ran
/// out, and otherwise the bytes of the frame it encoded.
pub proof fn lemma_no_empty_read_before_end(events: Seq<TranscodeEvent>)
    requires
        ends_read_at_last(events),
    ensures
        spec_next_step(events.last()) == ReadStep::Return(0) <==> events.last()
            == TranscodeEvent::EndOfStream,
        forall|i: int| 0 <= i < events.len() - 1 ==> #[trigger] events[i] != TranscodeEvent::EndOfStream,
        events.last() != TranscodeEvent::EndOfStream ==> exists|n: usize|
            n > 0 && events.last() == TranscodeEvent::Encoded(n) && spec_next_step(events.last())
                == ReadStep::Return(n),
{
    assert forall|i: int| 0 <= i < events.len() - 1 implies #[trigger] events[i] != TranscodeEvent::EndOfStream by {
        assert(!(spec_next_step(events[i]) is Return));
    }
    if events.last() != TranscodeEvent::EndOfStream {
        match events.last() {
            TranscodeEvent::Encoded(n) => {
                assert(n > 0);
            },
            _ => {},
        }
    }
}

} // verus!
