use vstd::prelude::*;

use crate::format::Strategy;

verus! {

/// What a download run is asked to do.
pub struct Args {
    /// A track, album, playlist, show or episode: web link or canonical reference.
    pub input: String,
    /// Which encodings to prefer.
    pub strategy: Strategy,
    /// Whether to convert Ogg Vorbis downloads to MP3.
    pub mp3: bool,
    /// How many downloads may run at once.
    pub concurrent_downloads: usize,
    /// Template for file names.
    pub template: String,
    /// Directory the files are written to.
    pub output: String,
    /// Separator between artist names.
    pub artist_separator: String,
    /// Whether to skip a download whose file exists.
    pub skip_exists: bool,
}

} // verus!
