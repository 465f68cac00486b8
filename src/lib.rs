//! Resolution, format selection and download bookkeeping for streamed audio.
//!
//! The network, the decryption and the audio codecs live outside this crate;
//! what is decided around them (which reference was meant, which encoding to
//! fetch, how long the decrypted stream is, which progress events a download
//! emits) is stated and proved here.

pub mod args;
pub mod audio_format;
pub mod convert;
pub mod download;
pub mod error;
pub mod format;
pub mod job;
pub mod parse;
