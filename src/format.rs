use vstd::prelude::*;

use crate::audio_format::{preference, spec_is_ogg, AudioFormat, DownloadOrderStrategy};

verus! {

/// The quality strategy chosen on the command line.
#[allow(non_camel_case_types, clippy::upper_case_acronyms)]
#[derive(Clone, Copy, Debug, PartialEq, Eq, Structural)]
pub enum Strategy {
    MP3,
    OGG,
    QUALITY,
}

/// The download order that a strategy stands for.
pub open spec fn spec_order(s: Strategy) -> DownloadOrderStrategy {
    match s {
        Strategy::MP3 => DownloadOrderStrategy::MP3,
        Strategy::OGG => DownloadOrderStrategy::OGG,
        Strategy::QUALITY => DownloadOrderStrategy::QUALITY,
    }
}

impl Strategy {
    /// The download order that this strategy stands for.
    pub fn order(&self) -> (r: DownloadOrderStrategy)
        ensures
            r == spec_order(*self),
    {
        match self {
            Strategy::MP3 => DownloadOrderStrategy::MP3,
            Strategy::OGG => DownloadOrderStrategy::OGG,
            Strategy::QUALITY => DownloadOrderStrategy::QUALITY,
        }
    }

    /// The encodings this strategy accepts, best first.
    pub fn formats(&self) -> (r: Vec<AudioFormat>)
        ensures
            r@ == preference(spec_order(*self)),
    {
        self.order().formats()
    }
}

/// Whether `format` is one of the Ogg Vorbis encodings.
pub fn is_ogg(format: AudioFormat) -> (r: bool)
    ensures
        r == spec_is_ogg(format),
{
    crate::audio_format::is_ogg(format)
}

} // verus!
