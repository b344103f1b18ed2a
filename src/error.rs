use vstd::prelude::*;
use vstd::string::StringExecFns;

verus! {

/// The errors that the endpoints report before any body byte is sent.
#[derive(Debug, PartialEq, Eq)]
pub enum AudioStreamError {
    /// The producer process could not be started or read; holds the reason.
    ProcessError(String),
    /// The identifier is malformed, or the lookup found nothing.
    InvalidYouTubeId,
    /// The producer failed for a reason that carries no message.
    InternalError,
    /// The request lacks a field it must carry; holds the field's name.
    MissingField(String),
    /// The catalog collaborator failed; holds the reason.
    SpotifyError(String),
    /// A configuration value is missing; holds its name.
    EnvVarError(String),
}

/// HTTP status for a request the client got wrong.
pub const STATUS_BAD_REQUEST: u16 = 400;
/// HTTP status for a failure on this side.
pub const STATUS_INTERNAL_SERVER_ERROR: u16 = 500;
/// HTTP status for a failure of an upstream service.
pub const STATUS_BAD_GATEWAY: u16 = 502;

/// The status code that each kind of error maps to.
pub open spec fn status_of(e: AudioStreamError) -> u16 {
    match e {
        AudioStreamError::ProcessError(_) => STATUS_INTERNAL_SERVER_ERROR,
        AudioStreamError::InvalidYouTubeId => STATUS_BAD_REQUEST,
        AudioStreamError::InternalError => STATUS_INTERNAL_SERVER_ERROR,
        AudioStreamError::MissingField(_) => STATUS_BAD_REQUEST,
        AudioStreamError::SpotifyError(_) => STATUS_BAD_GATEWAY,
        AudioStreamError::EnvVarError(_) => STATUS_INTERNAL_SERVER_ERROR,
    }
}

/// A status in the 4xx range.
pub open spec fn is_client_error(status: u16) -> bool {
    400 <= status < 500
}

/// A status in the 5xx range.
pub open spec fn is_server_error(status: u16) -> bool {
    500 <= status < 600
}

/// The text shown to the client for each error.
pub open spec fn message_of(e: AudioStreamError) -> Seq<char> {
    match e {
        AudioStreamError::ProcessError(m) => "Failed to execute yt-dlp: "@ + m@,
        AudioStreamError::InvalidYouTubeId => "Invalid YouTube ID or video not found"@,
        AudioStreamError::InternalError => "Internal server error"@,
        AudioStreamError::MissingField(m) => "Missing field: "@ + m@,
        AudioStreamError::SpotifyError(m) => "Spotify API error: "@ + m@,
        AudioStreamError::EnvVarError(m) => "Missing environment variable: "@ + m@,
    }
}

impl AudioStreamError {
    /// The HTTP status of the error response.
    pub fn status_code(&self) -> (r: u16)
        ensures
            r == status_of(*self),
    {
        match self {
            AudioStreamError::ProcessError(_) => STATUS_INTERNAL_SERVER_ERROR,
            AudioStreamError::InvalidYouTubeId => STATUS_BAD_REQUEST,
            AudioStreamError::InternalError => STATUS_INTERNAL_SERVER_ERROR,
            AudioStreamError::MissingField(_) => STATUS_BAD_REQUEST,
            AudioStreamError::SpotifyError(_) => STATUS_BAD_GATEWAY,
            AudioStreamError::EnvVarError(_) => STATUS_INTERNAL_SERVER_ERROR,
        }
    }

    /// The human-readable message of the error response.
    pub fn message(&self) -> (r: String)
        ensures
            r@ == message_of(*self),
    {
        match self {
            AudioStreamError::ProcessError(m) => {
                String::from_str("Failed to execute yt-dlp: ").concat(m.as_str())
            },
            AudioStreamError::InvalidYouTubeId => {
                String::from_str("Invalid YouTube ID or video not found")
            },
            AudioStreamError::InternalError => String::from_str("Internal server error"),
            AudioStreamError::MissingField(m) => {
                String::from_str("Missing field: ").concat(m.as_str())
            },
            AudioStreamError::SpotifyError(m) => {
                String::from_str("Spotify API error: ").concat(m.as_str())
            },
            AudioStreamError::EnvVarError(m) => {
                String::from_str("Missing environment variable: ").concat(m.as_str())
            },
        }
    }
}

} // verus!
