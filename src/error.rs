use vstd::prelude::*;
use vstd::string::StringExecFns;

verus! {

#[verifier::external_type_specification]
#[verifier::external_body]
pub struct ExIoErrorKind(std::io::ErrorKind);

/// Relies on `ErrorKind` being `Copy`: its clone is the same kind.
pub assume_specification[ <std::io::ErrorKind as Clone>::clone ](k: &std::io::ErrorKind) -> (r:
    std::io::ErrorKind)
    ensures
        r == *k,
;

/// Everything that can go wrong while resolving or downloading a track.
#[derive(Debug, Clone)]
pub enum DownOnSpotError {
    Error(String),
    Authentication,
    IoError(std::io::ErrorKind, String),
    Unavailable,
    InvalidOrUnsupportedId,
    DecoderError(String),
    EncoderError(String),
    Invalid(String),
    DownloaderError,
}

/// Relies on the `Debug` formatting of `std::io::ErrorKind` for the name of a kind.
#[verifier::external_body]
fn kind_name(kind: &std::io::ErrorKind) -> String {
    format!("{:?}", kind)
}

impl DownOnSpotError {
    /// A human-readable description of the error.
    pub fn message(&self) -> (r: String)
        ensures
            match self {
                DownOnSpotError::Error(e) => r@ == e@,
                DownOnSpotError::Authentication => r@ == "Authentication error"@,
                DownOnSpotError::IoError(_, e) => r@.len() >= 10 + 3 + e@.len() && r@.subrange(0, 10)
                    == "IO error: "@ && r@.subrange(r@.len() - e@.len() - 3, r@.len() as int) == " - "@
                    + e@,
                DownOnSpotError::Unavailable => r@ == "Unavailable"@,
                DownOnSpotError::InvalidOrUnsupportedId => r@ == "Invalid or unsupported ID"@,
                DownOnSpotError::DecoderError(e) => r@ == "Decoder error: "@ + e@,
                DownOnSpotError::EncoderError(e) => r@ == "Encoder error: "@ + e@,
                DownOnSpotError::Invalid(e) => r@ == "Invalid: "@ + e@,
                DownOnSpotError::DownloaderError => r@ == "Error during download"@,
            },
    {
        match self {
            DownOnSpotError::Error(e) => e.clone(),
            DownOnSpotError::Authentication => String::from_str("Authentication error"),
            DownOnSpotError::IoError(kind, e) => {
                let r = String::from_str("IO error: ").concat(kind_name(kind).as_str()).concat(
                    " - ",
                ).concat(e.as_str());
                proof {
                    reveal_strlit("IO error: ");
                    reveal_strlit(" - ");
                    let k = r@.len() - e@.len() - 3;
                    assert(r@.subrange(0, 10) =~= "IO error: "@);
                    assert(r@.subrange(k, r@.len() as int) =~= " - "@ + e@);
                }
                r
            },
            DownOnSpotError::Unavailable => String::from_str("Unavailable"),
            DownOnSpotError::InvalidOrUnsupportedId => String::from_str("Invalid or unsupported ID"),
            DownOnSpotError::DecoderError(e) => String::from_str("Decoder error: ").concat(e.as_str()),
            DownOnSpotError::EncoderError(e) => String::from_str("Encoder error: ").concat(e.as_str()),
            DownOnSpotError::Invalid(e) => String::from_str("Invalid: ").concat(e.as_str()),
            DownOnSpotError::DownloaderError => String::from_str("Error during download"),
        }
    }
}

} // verus!
