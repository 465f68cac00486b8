use vstd::prelude::*;
use vstd::string::StringExecFns;

use crate::audio_format::{is_ogg, preference, spec_is_ogg, AudioFormat, DownloadOrderStrategy};
use crate::error::DownOnSpotError;

verus! {

/// What a download reports as it goes.
#[derive(Clone, Copy, Debug, PartialEq, Eq, Structural)]
pub enum DownloadProgress {
    Started,
    Progress { current: usize, total: usize },
    Finished,
}

/// The opaque reference under which the streaming service serves one encoding
/// of a track.
#[derive(Clone, Copy, Debug, PartialEq, Eq)]
pub struct FileId(pub [u8; 20]);

/// A snapshot of one streamable track.
///
/// An empty `files` means that the track cannot be played here; `alternatives`
/// then lists equivalent releases to try.
pub struct Track {
    pub id: u128,
    pub name: String,
    pub artists: Vec<u128>,
    pub files: Vec<(AudioFormat, FileId)>,
    pub alternatives: Vec<u128>,
    pub available: bool,
}

/// Whether `files` offers `format`.
pub open spec fn offers(files: Seq<(AudioFormat, FileId)>, format: AudioFormat) -> bool {
    exists|i: int| 0 <= i < files.len() && #[trigger] files[i].0 == format
}

/// `format` stands at index `k` of `prefs`, is offered, and no better one is.
pub open spec fn best_offered_at(
    prefs: Seq<AudioFormat>,
    files: Seq<(AudioFormat, FileId)>,
    k: int,
) -> bool {
    &&& 0 <= k < prefs.len()
    &&& offers(files, prefs[k])
    &&& forall|j: int| 0 <= j < k ==> !offers(files, #[trigger] prefs[j])
}

/// `(format, id)` is the first entry of `files` with that format.
pub open spec fn first_file_at(files: Seq<(AudioFormat, FileId)>, format: AudioFormat, id: FileId) -> bool {
    exists|i: int|
        0 <= i < files.len() && files[i] == (format, id) && forall|j: int|
            0 <= j < i ==> (#[trigger] files[j]).0 != format
}

/// Finds the file of `format` among `files`: the first entry with that format.
fn find_file(files: &Vec<(AudioFormat, FileId)>, format: AudioFormat) -> (r: Option<FileId>)
    ensures
        match r {
            Some(id) => offers(files@, format) && first_file_at(files@, format, id),
            None => !offers(files@, format),
        },
{
    let mut i: usize = 0;
    while i < files.len()
        invariant
            i <= files@.len(),
            forall|j: int| 0 <= j < i ==> files@[j].0 != format,
        decreases files@.len() - i,
    {
        if files[i].0 == format {
            assert(files@[i as int].0 == format);
            return Some(files[i].1);
        }
        i = i + 1;
    }
    None
}

/// Picks the file to download for `track` under `strategy`: the first encoding
/// of the strategy's order that the track offers.
pub fn file_id(strategy: &DownloadOrderStrategy, track: &Track) -> (r: Result<
    (FileId, AudioFormat),
    DownOnSpotError,
>)
    ensures
        match r {
            Ok((id, format)) => (exists|k: int|
                best_offered_at(preference(*strategy), track.files@, k) && preference(*strategy)[k]
                    == format) && first_file_at(track.files@, format, id),
            Err(e) => e is Unavailable && forall|k: int|
                0 <= k < preference(*strategy).len() ==> !offers(
                    track.files@,
                    #[trigger] preference(*strategy)[k],
                ),
        },
{
    let formats = strategy.formats();
    let mut k: usize = 0;
    while k < formats.len()
        invariant
            formats@ == preference(*strategy),
            k <= formats@.len(),
            forall|j: int| 0 <= j < k ==> !offers(track.files@, #[trigger] formats@[j]),
        decreases formats@.len() - k,
    {
        let format = formats[k];
        match find_file(&track.files, format) {
            Some(id) => {
                assert(best_offered_at(preference(*strategy), track.files@, k as int));
                return Ok((id, format));
            },
            None => {},
        }
        k = k + 1;
    }
    Err(DownOnSpotError::Unavailable)
}

/// Whether `t` is a lookup that succeeded with a track marked available.
pub open spec fn is_available(t: Option<Track>) -> bool {
    t is Some && t.unwrap().available
}

/// The first successful lookup whose track is marked available.
pub open spec fn first_available(fetched: Seq<Option<Track>>) -> Option<Track>
    decreases fetched.len(),
{
    if fetched.len() == 0 {
        None
    } else if is_available(fetched[0]) {
        fetched[0]
    } else {
        first_available(fetched.drop_first())
    }
}

/// The alternatives that must be looked up before `track` can be played:
/// none where it is playable itself.
pub open spec fn spec_lookups(track: Track) -> Seq<u128> {
    if track.files@.len() > 0 {
        Seq::empty()
    } else {
        track.alternatives@
    }
}

/// What availability fallback yields for `track`, given the lookups of its
/// alternatives in the order in which they completed.
pub open spec fn spec_available_track(track: Track, fetched: Seq<Option<Track>>) -> Option<Track> {
    if track.files@.len() > 0 {
        Some(track)
    } else {
        first_available(fetched)
    }
}

impl Track {
    /// The alternatives to look up before this track can be played.
    pub fn lookups(&self) -> (r: Vec<u128>)
        ensures
            r@ == spec_lookups(*self),
    {
        if self.files.len() > 0 {
            Vec::new()
        } else {
            self.alternatives.clone()
        }
    }
}

/// Finds a playable track: `track` itself where it offers any file, else the
/// first alternative in `fetched` (lookups in completion order; `None` for a
/// failed one) that is marked available.
pub fn available_track(track: Track, fetched: Vec<Option<Track>>) -> (r: Option<Track>)
    ensures
        r == spec_available_track(track, fetched@),
{
    if track.files.len() > 0 {
        return Some(track);
    }
    let mut pending = fetched;
    let ghost all = pending@;
    let mut i: usize = 0;
    assert(all.subrange(0, all.len() as int) =~= all);
    while i < pending.len()
        invariant
            pending@ == all,
            all == fetched@,
            track.files@.len() == 0,
            i <= all.len(),
            first_available(all) == first_available(all.subrange(i as int, all.len() as int)),
        decreases all.len() - i,
    {
        let ok = match &pending[i] {
            Some(t) => t.available,
            None => false,
        };
        proof {
            let rest = all.subrange(i as int, all.len() as int);
            assert(rest.drop_first() =~= all.subrange(i + 1, all.len() as int));
            assert(rest[0] == all[i as int]);
        }
        if ok {
            assert(is_available(all[i as int]));
            assert(first_available(all.subrange(i as int, all.len() as int)) == all[i as int]);
            assert(first_available(all) == all[i as int]);
            let found = pending.remove(i);
            assert(found == all[i as int]);
            return found;
        }
        i = i + 1;
    }
    None
}

/// A track that offers any file is kept as it is, and none of its
/// alternatives is looked up.
pub proof fn lemma_playable_track_kept(track: Track, fetched: Seq<Option<Track>>)
    requires
        track.files@.len() > 0,
    ensures
        spec_lookups(track).len() == 0,
        spec_available_track(track, fetched) == Some(track),
{
}

/// A track that offers no file falls back to one of the looked-up
/// alternatives that is marked available, where there is any, and to nothing
/// otherwise.
pub proof fn lemma_fallback_finds_available(track: Track, fetched: Seq<Option<Track>>)
    requires
        track.files@.len() == 0,
    ensures
        (exists|i: int| 0 <= i < fetched.len() && is_available(#[trigger] fetched[i])) ==> {
            let r = spec_available_track(track, fetched);
            is_available(r) && exists|i: int| 0 <= i < fetched.len() && fetched[i] == r
        },
        (forall|i: int| 0 <= i < fetched.len() ==> !is_available(#[trigger] fetched[i]))
            ==> spec_available_track(track, fetched) is None,
{
    lemma_first_available(fetched);
}

proof fn lemma_first_available(fetched: Seq<Option<Track>>)
    ensures
        (exists|i: int| 0 <= i < fetched.len() && is_available(#[trigger] fetched[i])) ==> {
            let r = first_available(fetched);
            is_available(r) && exists|i: int| 0 <= i < fetched.len() && fetched[i] == r
        },
        (forall|i: int| 0 <= i < fetched.len() ==> !is_available(#[trigger] fetched[i]))
            ==> first_available(fetched) is None,
    decreases fetched.len(),
{
    if fetched.len() > 0 {
        let rest = fetched.drop_first();
        lemma_first_available(rest);
        if !is_available(fetched[0]) {
            if exists|i: int| 0 <= i < fetched.len() && is_available(#[trigger] fetched[i]) {
                let i = choose|i: int| 0 <= i < fetched.len() && is_available(#[trigger] fetched[i]);
                assert(rest[i - 1] == fetched[i]);
                let r = first_available(rest);
                let j = choose|j: int| 0 <= j < rest.len() && rest[j] == r;
                assert(fetched[j + 1] == r);
            }
            assert forall|i: int| 0 <= i < rest.len() && (forall|i: int| 0 <= i < fetched.len() ==> !is_available(#[trigger] fetched[i])) implies !is_available(#[trigger] rest[i]) by {
                assert(rest[i] == fetched[i + 1]);
            }
        }
    }
}

/// Under the best-quality strategy the selection is fixed by the files
/// offered: no encoding that the track offers ranks above the selected one,
/// and no other position of the order can be selected.
pub proof fn lemma_quality_selection(files: Seq<(AudioFormat, FileId)>, k: int, m: int)
    requires
        best_offered_at(preference(DownloadOrderStrategy::QUALITY), files, k),
        0 <= m < preference(DownloadOrderStrategy::QUALITY).len(),
        offers(files, preference(DownloadOrderStrategy::QUALITY)[m]),
    ensures
        k <= m,
        best_offered_at(preference(DownloadOrderStrategy::QUALITY), files, m) ==> m == k,
{
}

/// Length of the container header that leads every Ogg Vorbis stream.
pub const SPOTIFY_OGG_HEADER_END: u64 = 0xA7;

/// Where the audio data of a stream of `format` starts.
pub open spec fn spec_header_offset(format: AudioFormat) -> u64 {
    if spec_is_ogg(format) {
        SPOTIFY_OGG_HEADER_END
    } else {
        0
    }
}

/// Where the audio data of a stream of `format` starts: past the container
/// header for Ogg Vorbis, at the start otherwise.
pub fn header_offset(format: AudioFormat) -> (r: u64)
    ensures
        r == spec_header_offset(format),
{
    if is_ogg(format) {
        SPOTIFY_OGG_HEADER_END
    } else {
        0
    }
}

/// A decrypted stream positioned at its audio data.
pub struct DecryptedAudioFile<R> {
    pub is_ogg: bool,
    pub audio_decrypt: R,
    pub size: usize,
    pub format: AudioFormat,
}

impl<R> DecryptedAudioFile<R> {
    /// Describes `audio_decrypt`, a decrypted stream of `raw_len` bytes in
    /// `format` that has been positioned past its header.
    ///
    /// The reported size leaves the header out; a stream too short to hold
    /// its header is an error.
    pub fn new(audio_decrypt: R, raw_len: usize, format: AudioFormat) -> (r: Result<
        Self,
        DownOnSpotError,
    >)
        ensures
            match r {
                Ok(d) => raw_len >= spec_header_offset(format) && d.is_ogg == spec_is_ogg(format)
                    && d.format == format && d.audio_decrypt == audio_decrypt && d.size == raw_len
                    - spec_header_offset(format),
                Err(e) => raw_len < spec_header_offset(format) && e is DownloaderError,
            },
    {
        let offset = header_offset(format);
        if (raw_len as u64) < offset {
            return Err(DownOnSpotError::DownloaderError);
        }
        Ok(DecryptedAudioFile {
            is_ogg: is_ogg(format),
            audio_decrypt,
            size: raw_len - offset as usize,
            format,
        })
    }
}

/// Whether a download of `format` is re-encoded to MP3: only Ogg Vorbis
/// streams are, and only where MP3 output was asked for.
pub fn should_transcode(format: AudioFormat, mp3: bool) -> (r: bool)
    ensures
        r == (spec_is_ogg(format) && mp3),
{
    is_ogg(format) && mp3
}

/// The file extension of the output: `ogg` for an Ogg Vorbis stream kept as
/// it is, `mp3` otherwise (the strategies only select Ogg Vorbis and MP3).
pub open spec fn spec_extension(format: AudioFormat, mp3: bool) -> Seq<char> {
    if spec_is_ogg(format) && !mp3 {
        "ogg"@
    } else {
        "mp3"@
    }
}

/// The output file name `<artist> - <title>.<extension>`.
pub fn file_name(artist: &str, title: &str, format: AudioFormat, mp3: bool) -> (r: String)
    ensures
        r@ == artist@ + " - "@ + title@ + "."@ + spec_extension(format, mp3),
{
    let extension = if should_transcode(format, mp3) || !is_ogg(format) {
        "mp3"
    } else {
        "ogg"
    };
    String::from_str(artist).concat(" - ").concat(title).concat(".").concat(extension)
}

} // verus!
