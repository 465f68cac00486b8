use vstd::prelude::*;

verus! {

/// The encodings a track can be offered in.
#[allow(non_camel_case_types)]
#[derive(Clone, Copy, Debug, PartialEq, Eq, Structural)]
pub enum AudioFormat {
    OGG_VORBIS_96,
    OGG_VORBIS_160,
    OGG_VORBIS_320,
    MP3_256,
    MP3_320,
    MP3_160,
    MP3_96,
    MP3_160_ENC,
    MP4_128_DUAL,
    OTHER3,
    AAC_160,
    AAC_320,
    MP4_128,
    OTHER5,
}

/// Which encodings to prefer when downloading.
#[allow(non_camel_case_types, clippy::upper_case_acronyms)]
#[derive(Clone, Copy, Debug, PartialEq, Eq, Structural)]
pub enum DownloadOrderStrategy {
    MP3,
    OGG,
    QUALITY,
}

/// The Ogg Vorbis encodings, whose streams start with a container header.
pub open spec fn spec_is_ogg(format: AudioFormat) -> bool {
    format == AudioFormat::OGG_VORBIS_320 || format == AudioFormat::OGG_VORBIS_160
        || format == AudioFormat::OGG_VORBIS_96
}

/// The encodings a strategy accepts, best first.
pub open spec fn preference(strategy: DownloadOrderStrategy) -> Seq<AudioFormat> {
    match strategy {
        DownloadOrderStrategy::MP3 => seq![
            AudioFormat::MP3_320,
            AudioFormat::MP3_256,
            AudioFormat::MP3_160,
            AudioFormat::MP3_160_ENC,
            AudioFormat::MP3_96,
        ],
        DownloadOrderStrategy::OGG => seq![
            AudioFormat::OGG_VORBIS_320,
            AudioFormat::OGG_VORBIS_160,
            AudioFormat::OGG_VORBIS_96,
        ],
        DownloadOrderStrategy::QUALITY => seq![
            AudioFormat::MP3_320,
            AudioFormat::OGG_VORBIS_320,
            AudioFormat::MP3_256,
            AudioFormat::MP3_160,
            AudioFormat::MP3_160_ENC,
            AudioFormat::OGG_VORBIS_160,
            AudioFormat::MP3_96,
            AudioFormat::OGG_VORBIS_96,
        ],
    }
}

impl DownloadOrderStrategy {
    /// The encodings this strategy accepts, best first.
    pub fn formats(&self) -> (r: Vec<AudioFormat>)
        ensures
            r@ == preference(*self),
    {
        let r = match self {
            DownloadOrderStrategy::MP3 => vec![
                AudioFormat::MP3_320,
                AudioFormat::MP3_256,
                AudioFormat::MP3_160,
                AudioFormat::MP3_160_ENC,
                AudioFormat::MP3_96,
            ],
            DownloadOrderStrategy::OGG => vec![
                AudioFormat::OGG_VORBIS_320,
                AudioFormat::OGG_VORBIS_160,
                AudioFormat::OGG_VORBIS_96,
            ],
            DownloadOrderStrategy::QUALITY => vec![
                AudioFormat::MP3_320,
                AudioFormat::OGG_VORBIS_320,
                AudioFormat::MP3_256,
                AudioFormat::MP3_160,
                AudioFormat::MP3_160_ENC,
                AudioFormat::OGG_VORBIS_160,
                AudioFormat::MP3_96,
                AudioFormat::OGG_VORBIS_96,
            ],
        };
        assert(r@ =~= preference(*self));
        r
    }
}

/// Whether `format` is one of the Ogg Vorbis encodings.
pub fn is_ogg(format: AudioFormat) -> (r: bool)
    ensures
        r == spec_is_ogg(format),
{
    match format {
        AudioFormat::OGG_VORBIS_320 | AudioFormat::OGG_VORBIS_160 | AudioFormat::OGG_VORBIS_96 => true,
        _ => false,
    }
}

/// Every strategy ranks each encoding at most once, so its order is total:
/// of two distinct positions, one is strictly preferred.
pub proof fn lemma_preference_is_total(strategy: DownloadOrderStrategy)
    ensures
        preference(strategy).no_duplicates(),
{
    let p = preference(strategy);
    assert(forall|i: int, j: int| 0 <= i < p.len() && 0 <= j < p.len() && i != j ==> p[i] != p[j]);
}

} // verus!
