//! Client state of the speech synthesis service and the meaning of its replies.
use vstd::prelude::*;
use crate::encoding::{base64_decode, base64_of};
use crate::error::{check_status, Stage, VoiceError};
use crate::text::{contains_text, is_infix};

verus! {

/// Endpoint and voice parameters of the speech synthesis service. The speed
/// is kept in hundredths (100 is normal speed).
#[derive(Clone, Debug)]
pub struct VoxCPMConfig {
    pub server_url: String,
    pub voice: String,
    pub speed_centi: u32,
    pub sample_rate: u32,
}

impl Default for VoxCPMConfig {
    fn default() -> (r: Self)
        ensures
            r.server_url@ == "http://localhost:5500"@,
            r.voice@ == "default"@,
            r.speed_centi == 100,
            r.sample_rate == 22050,
    {
        VoxCPMConfig {
            server_url: String::from_str("http://localhost:5500"),
            voice: String::from_str("default"),
            speed_centi: 100,
            sample_rate: 22050,
        }
    }
}

/// The body of a synthesis request and the address it goes to.
#[derive(Clone, Debug)]
pub struct SynthesisRequest {
    pub url: String,
    pub text: String,
    pub voice: String,
    pub speed_centi: u32,
    pub sample_rate: u32,
    pub format: String,
}

/// The field of a JSON synthesis reply: `audio`, `None` when absent or not text.
#[derive(Clone, Debug)]
pub struct SynthesisReply {
    pub audio: Option<String>,
}

/// Outcome of one synthesis: the audio and the sample rate it was asked for.
#[derive(Clone, Debug)]
pub struct TTSResult {
    pub audio_data: Vec<u8>,
    pub sample_rate: u32,
}

impl TTSResult {
    /// The approximate duration in seconds as a fraction: the byte count over
    /// the bytes per second of 16-bit mono audio at the sample rate. This
    /// assumes the audio is raw 16-bit mono PCM; it is not taken from the
    /// service and is not authoritative.
    pub fn duration_fraction(&self) -> (r: (u64, u64))
        ensures
            r.0 == self.audio_data@.len(),
            r.1 == 2 * self.sample_rate,
    {
        (self.audio_data.len() as u64, 2 * (self.sample_rate as u64))
    }
}

/// Speech synthesis client: owns its configuration.
pub struct VoxCPMTTS {
    config: VoxCPMConfig,
}

/// Whether a reply with this `content-type` carries JSON rather than raw audio.
pub open spec fn is_json_content(content_type: Seq<char>) -> bool {
    is_infix("application/json"@, content_type)
}

/// Whether a reply with this `content-type` header carries its audio as
/// base64 inside a JSON document; otherwise the body is the audio itself.
pub fn expects_json(content_type: &str) -> (r: bool)
    ensures
        r == is_json_content(content_type@),
{
    contains_text(content_type, "application/json")
}

impl VoxCPMTTS {
    pub closed spec fn spec_config(&self) -> VoxCPMConfig {
        self.config
    }

    pub fn new(config: VoxCPMConfig) -> (r: Self)
        ensures
            r.spec_config() == config,
    {
        VoxCPMTTS { config }
    }

    /// The current configuration.
    pub fn config(&self) -> (r: &VoxCPMConfig)
        ensures
            *r == self.spec_config(),
    {
        &self.config
    }

    /// Points later requests at `url`; nothing else changes.
    pub fn set_server_url(&mut self, url: String)
        ensures
            final(self).spec_config() == (VoxCPMConfig { server_url: url, ..old(self).spec_config() }),
    {
        self.config.server_url = url;
    }

    /// Selects the voice of later requests; nothing else changes.
    pub fn set_voice(&mut self, voice: String)
        ensures
            final(self).spec_config() == (VoxCPMConfig { voice, ..old(self).spec_config() }),
    {
        self.config.voice = voice;
    }

    /// Sets the speed of later requests, in hundredths; nothing else changes.
    pub fn set_speed(&mut self, speed_centi: u32)
        ensures
            final(self).spec_config() == (VoxCPMConfig { speed_centi, ..old(self).spec_config() }),
    {
        self.config.speed_centi = speed_centi;
    }

    /// The request that synthesizes `text` with the configured voice, speed
    /// and sample rate, format `wav`, posted to `{server_url}/tts`.
    pub fn synthesis_request(&self, text: &str) -> (r: SynthesisRequest)
        ensures
            r.url@ == self.spec_config().server_url@ + "/tts"@,
            r.text@ == text@,
            r.voice@ == self.spec_config().voice@,
            r.speed_centi == self.spec_config().speed_centi,
            r.sample_rate == self.spec_config().sample_rate,
            r.format@ == "wav"@,
    {
        let mut url = self.config.server_url.clone();
        url.append("/tts");
        SynthesisRequest {
            url,
            text: text.to_string(),
            voice: self.config.voice.clone(),
            speed_centi: self.config.speed_centi,
            sample_rate: self.config.sample_rate,
            format: String::from_str("wav"),
        }
    }

    /// Interprets a JSON synthesis reply (`reply` is `None` when the body was
    /// not JSON): a missing body or `audio` field is a service error, and
    /// `audio` text that is not canonical base64 is a decode error.
    pub fn read_json_audio(&self, reply: Option<SynthesisReply>) -> (r: Result<TTSResult, VoiceError>)
        ensures
            reply is None ==> (r matches Err(VoiceError::Malformed { stage: Stage::Tts, .. })),
            (reply is Some && reply->Some_0.audio is None) ==> (r matches Err(
                VoiceError::MissingAudio,
            )),
            (reply is Some && reply->Some_0.audio is Some) ==> {
                let a = reply->Some_0.audio->Some_0;
                &&& r is Ok <==> exists|b: Seq<u8>| #[trigger] base64_of(b) == a@
                &&& r is Err ==> (r matches Err(VoiceError::BadSynthesizedAudio))
                &&& r matches Ok(t) ==> base64_of(t.audio_data@) == a@ && t.sample_rate
                    == self.spec_config().sample_rate
                &&& r matches Ok(t) ==> forall|b: Seq<u8>| #[trigger] base64_of(b) == a@
                    ==> t.audio_data@ == b
            },
    {
        match reply {
            None => Err(
                VoiceError::Malformed {
                    stage: Stage::Tts,
                    detail: String::from_str("synthesis response is not JSON"),
                },
            ),
            Some(reply) => match reply.audio {
                None => Err(VoiceError::MissingAudio),
                Some(a) => match base64_decode(a.as_str()) {
                    Ok(audio_data) => Ok(TTSResult { audio_data, sample_rate: self.config.sample_rate }),
                    Err(_) => Err(VoiceError::BadSynthesizedAudio),
                },
            },
        }
    }

    /// A reply that is not JSON carries the audio as its body.
    pub fn read_raw_audio(&self, body: Vec<u8>) -> (r: TTSResult)
        ensures
            r.audio_data == body,
            r.sample_rate == self.spec_config().sample_rate,
    {
        TTSResult { audio_data: body, sample_rate: self.config.sample_rate }
    }

    /// Interprets the whole answer to a synthesis request: a failure status is
    /// a service error; a JSON `content_type` sends the body through
    /// `read_json_audio` with the fields that `json_reply` extracted from it;
    /// any other body is the audio itself.
    pub fn read_synthesis(
        &self,
        status: u16,
        content_type: &str,
        body: Vec<u8>,
        json_reply: Option<SynthesisReply>,
    ) -> (r: Result<TTSResult, VoiceError>)
        ensures
            !crate::error::is_success(status) ==> r == Err::<TTSResult, VoiceError>(
                VoiceError::Status { stage: Stage::Tts, code: status },
            ),
            crate::error::is_success(status) && !is_json_content(content_type@) ==> (r matches Ok(
                t,
            ) && t.audio_data == body && t.sample_rate == self.spec_config().sample_rate),
            crate::error::is_success(status) && is_json_content(content_type@) ==> {
                &&& json_reply is None ==> (r matches Err(
                    VoiceError::Malformed { stage: Stage::Tts, .. },
                ))
                &&& (json_reply is Some && json_reply->Some_0.audio is None) ==> (r matches Err(
                    VoiceError::MissingAudio,
                ))
                &&& (json_reply is Some && json_reply->Some_0.audio is Some) ==> {
                    let a = json_reply->Some_0.audio->Some_0;
                    &&& r is Ok <==> exists|b: Seq<u8>| #[trigger] base64_of(b) == a@
                    &&& r is Err ==> (r matches Err(VoiceError::BadSynthesizedAudio))
                    &&& r matches Ok(t) ==> base64_of(t.audio_data@) == a@ && t.sample_rate
                        == self.spec_config().sample_rate
                    &&& r matches Ok(t) ==> forall|b: Seq<u8>| #[trigger] base64_of(b) == a@
                        ==> t.audio_data@ == b
                }
            },
    {
        match check_status(Stage::Tts, status) {
            Err(e) => Err(e),
            Ok(()) => if expects_json(content_type) {
                self.read_json_audio(json_reply)
            } else {
                Ok(self.read_raw_audio(body))
            },
        }
    }
}

} // verus!
