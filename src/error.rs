//! Failures of a pipeline stage or command, grouped by kind.
use vstd::prelude::*;

verus! {

/// One of the three remote capabilities a turn goes through.
#[derive(Clone, Copy, Debug, PartialEq, Eq, Structural)]
pub enum Stage {
    Asr,
    Llm,
    Tts,
}

/// The four kinds of failure callers can tell apart.
#[derive(Clone, Copy, Debug, PartialEq, Eq, Structural)]
pub enum ErrorKind {
    /// The endpoint could not be reached.
    Transport,
    /// The endpoint answered with a failure status or an unusable body.
    Service,
    /// Base64 text or an audio container was malformed.
    Decode,
    /// The operation is not allowed in the current state.
    State,
}

#[derive(Clone, Debug)]
pub enum VoiceError {
    /// The request to a stage's endpoint did not complete.
    Transport { stage: Stage, detail: String },
    /// The endpoint answered with a status outside 200..=299.
    Status { stage: Stage, code: u16 },
    /// The endpoint's body was not the JSON document the protocol expects.
    Malformed { stage: Stage, detail: String },
    /// A JSON speech synthesis reply had no `audio` text.
    MissingAudio,
    /// The caller's base64 audio could not be decoded.
    BadInputAudio,
    /// The base64 audio of a speech synthesis reply could not be decoded.
    BadSynthesizedAudio,
    /// Listening was requested while already listening.
    AlreadyListening,
    /// A stage result arrived that the turn was not waiting for.
    OutOfOrder,
    /// An on-device model file is not at `path`, where the configuration says.
    ModelNotFound { path: String },
    /// An on-device engine was used before it was initialized.
    NotInitialized,
    /// On-device inference is not available in this build.
    Unsupported,
}

impl VoiceError {
    pub open spec fn spec_kind(&self) -> ErrorKind {
        match self {
            VoiceError::Transport { .. } => ErrorKind::Transport,
            VoiceError::Status { .. } | VoiceError::Malformed { .. } | VoiceError::MissingAudio => {
                ErrorKind::Service
            },
            VoiceError::BadInputAudio | VoiceError::BadSynthesizedAudio => ErrorKind::Decode,
            VoiceError::AlreadyListening | VoiceError::OutOfOrder | VoiceError::ModelNotFound { .. }
            | VoiceError::NotInitialized | VoiceError::Unsupported => ErrorKind::State,
        }
    }

    /// The kind of this failure.
    #[verifier::when_used_as_spec(spec_kind)]
    pub fn kind(&self) -> (r: ErrorKind)
        ensures
            r == self.spec_kind(),
    {
        match self {
            VoiceError::Transport { .. } => ErrorKind::Transport,
            VoiceError::Status { .. } | VoiceError::Malformed { .. } | VoiceError::MissingAudio => {
                ErrorKind::Service
            },
            VoiceError::BadInputAudio | VoiceError::BadSynthesizedAudio => ErrorKind::Decode,
            VoiceError::AlreadyListening | VoiceError::OutOfOrder | VoiceError::ModelNotFound { .. }
            | VoiceError::NotInitialized | VoiceError::Unsupported => ErrorKind::State,
        }
    }
}

/// Whether an HTTP status code reports success.
pub open spec fn is_success(code: u16) -> bool {
    200 <= code <= 299
}

/// Accepts a success status of `stage`'s endpoint and turns any other into
/// a service error.
pub fn check_status(stage: Stage, code: u16) -> (r: Result<(), VoiceError>)
    ensures
        r is Ok <==> is_success(code),
        r matches Err(e) ==> e == (VoiceError::Status { stage, code }),
{
    if 200 <= code && code <= 299 {
        Ok(())
    } else {
        Err(VoiceError::Status { stage, code })
    }
}

} // verus!
