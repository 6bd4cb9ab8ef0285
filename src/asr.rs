//! Client state of the speech recognition service and the meaning of its replies.
use vstd::prelude::*;
use crate::encoding::{base64_encode, base64_of};
use crate::error::{check_status, is_success, Stage, VoiceError};

verus! {

/// Endpoint and recognition parameters of the speech recognition service.
#[derive(Clone, Debug)]
pub struct WhisperConfig {
    pub server_url: String,
    pub language: String,
    pub model: String,
}

impl Default for WhisperConfig {
    fn default() -> (r: Self)
        ensures
            r.server_url@ == "http://localhost:9090"@,
            r.language@ == "auto"@,
            r.model@ == "whisper-large-v3"@,
    {
        WhisperConfig {
            server_url: String::from_str("http://localhost:9090"),
            language: String::from_str("auto"),
            model: String::from_str("whisper-large-v3"),
        }
    }
}

/// The body of a transcription request and the address it goes to.
#[derive(Clone, Debug)]
pub struct TranscriptionRequest {
    pub url: String,
    pub audio: String,
    pub language: String,
    pub model: String,
    pub format: String,
}

/// The fields of a transcription reply that was a JSON document; a field is
/// `None` when it is absent or not text.
#[derive(Clone, Debug)]
pub struct TranscriptionReply {
    pub text: Option<String>,
    pub language: Option<String>,
}

/// Outcome of one transcription; an empty `text` means no speech was heard.
#[derive(Clone, Debug)]
pub struct TranscriptionResult {
    pub text: String,
    pub language: Option<String>,
    pub is_final: bool,
}

/// The text, or the empty text when there is none.
pub open spec fn text_or_empty(t: Option<String>) -> Seq<char> {
    match t {
        Some(s) => s@,
        None => Seq::empty(),
    }
}

/// Speech recognition client: owns its configuration.
pub struct WhisperLiveKit {
    config: WhisperConfig,
}

impl WhisperLiveKit {
    pub closed spec fn spec_config(&self) -> WhisperConfig {
        self.config
    }

    pub fn new(config: WhisperConfig) -> (r: Self)
        ensures
            r.spec_config() == config,
    {
        WhisperLiveKit { config }
    }

    /// The current configuration.
    pub fn config(&self) -> (r: &WhisperConfig)
        ensures
            *r == self.spec_config(),
    {
        &self.config
    }

    /// Points later requests at `url`; nothing else changes.
    pub fn set_server_url(&mut self, url: String)
        ensures
            final(self).spec_config().server_url == url,
            final(self).spec_config().language == old(self).spec_config().language,
            final(self).spec_config().model == old(self).spec_config().model,
    {
        self.config.server_url = url;
    }

    /// The request that transcribes `wav_data`: the container as base64,
    /// the configured language and model, format `wav`, posted to
    /// `{server_url}/transcribe`.
    pub fn transcription_request(&self, wav_data: &[u8]) -> (r: TranscriptionRequest)
        ensures
            r.url@ == self.spec_config().server_url@ + "/transcribe"@,
            r.audio@ == base64_of(wav_data@),
            r.language@ == self.spec_config().language@,
            r.model@ == self.spec_config().model@,
            r.format@ == "wav"@,
    {
        let mut url = self.config.server_url.clone();
        url.append("/transcribe");
        TranscriptionRequest {
            url,
            audio: base64_encode(wav_data),
            language: self.config.language.clone(),
            model: self.config.model.clone(),
            format: String::from_str("wav"),
        }
    }

    /// Interprets the answer to a transcription request: a failure status or
    /// a body that was not JSON (`reply` is `None`) is a service error;
    /// otherwise a missing text counts as empty and the result is final.
    pub fn read_transcription(status: u16, reply: Option<TranscriptionReply>) -> (r: Result<
        TranscriptionResult,
        VoiceError,
    >)
        ensures
            !is_success(status) ==> r == Err::<TranscriptionResult, VoiceError>(
                VoiceError::Status { stage: Stage::Asr, code: status },
            ),
            is_success(status) && reply is None ==> (r matches Err(
                VoiceError::Malformed { stage: Stage::Asr, .. },
            )),
            is_success(status) && reply is Some ==> (r matches Ok(t) && t.text@ == text_or_empty(
                reply->Some_0.text,
            ) && t.language == reply->Some_0.language && t.is_final),
    {
        match check_status(Stage::Asr, status) {
            Err(e) => Err(e),
            Ok(()) => match reply {
                None => Err(
                    VoiceError::Malformed {
                        stage: Stage::Asr,
                        detail: String::from_str("transcription response is not JSON"),
                    },
                ),
                Some(reply) => {
                    let text = match reply.text {
                        Some(t) => t,
                        None => String::new(),
                    };
                    Ok(TranscriptionResult { text, language: reply.language, is_final: true })
                },
            },
        }
    }
}

} // verus!
