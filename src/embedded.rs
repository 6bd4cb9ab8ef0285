//! On-device inference engines. Their inference is not part of this build:
//! each engine can be configured and initialized, and then reports that
//! inference is unavailable. Whether a model file exists is asked of the disk
//! by the caller and handed in. Rates and temperatures are kept in hundredths.
use vstd::prelude::*;
use crate::asr::TranscriptionResult;
use crate::error::VoiceError;
use crate::llm::{user_entry, views, ChatMessage, LLMResponse, Role};
use crate::models::{default_model_dir, join_path, joined, model_dir_under, LLM_MODEL_FILE, WHISPER_MODEL_FILE};
use crate::tts::TTSResult;

verus! {

/// Configuration of on-device speech recognition.
#[derive(Clone, Debug)]
pub struct EmbeddedASRConfig {
    pub model_path: String,
    pub language: String,
}

impl Default for EmbeddedASRConfig {
    fn default() -> (r: Self)
        ensures
            exists|base: Option<Seq<char>>| r.model_path@ == joined(
                model_dir_under(base),
                WHISPER_MODEL_FILE@,
            ),
            r.language@ == "auto"@,
    {
        let dir = default_model_dir();
        EmbeddedASRConfig {
            model_path: join_path(dir.as_str(), WHISPER_MODEL_FILE),
            language: String::from_str("auto"),
        }
    }
}

/// On-device speech recognition. The inference engine is not part of this
/// build: it can be initialized once its model is present, and then reports
/// that inference is unavailable.
#[derive(Debug)]
pub struct EmbeddedASR {
    config: EmbeddedASRConfig,
    is_initialized: bool,
}

impl EmbeddedASR {
    pub closed spec fn spec_config(&self) -> EmbeddedASRConfig {
        self.config
    }

    pub closed spec fn spec_initialized(&self) -> bool {
        self.is_initialized
    }

    pub fn new(config: EmbeddedASRConfig) -> (r: Self)
        ensures
            r.spec_config() == config,
            !r.spec_initialized(),
    {
        EmbeddedASR { config, is_initialized: false }
    }

    /// Initializes the engine when the caller found its model file present.
    pub fn initialize(&mut self, model_present: bool) -> (r: Result<(), VoiceError>)
        ensures
            model_present ==> r is Ok && final(self).spec_initialized(),
            !model_present ==> (r matches Err(VoiceError::ModelNotFound { path }) && path@
                == old(self).spec_config().model_path@) && final(self).spec_initialized()
                == old(self).spec_initialized(),
            final(self).spec_config() == old(self).spec_config(),
    {
        if !model_present {
            return Err(VoiceError::ModelNotFound { path: self.config.model_path.clone() });
        }
        self.is_initialized = true;
        Ok(())
    }

    /// Ready when initialized and its model file is still present.
    pub fn is_ready(&self, model_present: bool) -> (r: bool)
        ensures
            r == (self.spec_initialized() && model_present),
    {
        self.is_initialized && model_present
    }

    /// Fails: before initialization as uninitialized, after it as unavailable.
    pub fn transcribe_wav(&self, wav_data: &[u8]) -> (r: Result<TranscriptionResult, VoiceError>)
        ensures
            !self.spec_initialized() ==> r == Err::<TranscriptionResult, VoiceError>(
                VoiceError::NotInitialized,
            ),
            self.spec_initialized() ==> r == Err::<TranscriptionResult, VoiceError>(
                VoiceError::Unsupported,
            ),
    {
        if !self.is_initialized {
            return Err(VoiceError::NotInitialized);
        }
        Err(VoiceError::Unsupported)
    }

    /// The path of the model file.
    pub fn model_path(&self) -> (r: &str)
        ensures
            r@ == self.spec_config().model_path@,
    {
        self.config.model_path.as_str()
    }
}

/// Configuration of the on-device chat model.
#[derive(Clone, Debug)]
pub struct EmbeddedLLMConfig {
    pub model_path: String,
    pub temperature_centi: u32,
    pub max_tokens: u32,
    pub system_prompt: String,
    /// Threads used for inference; 0 lets the engine choose.
    pub n_threads: u32,
    /// Context size in tokens.
    pub context_size: u32,
}

impl Default for EmbeddedLLMConfig {
    fn default() -> (r: Self)
        ensures
            exists|base: Option<Seq<char>>| r.model_path@ == joined(
                model_dir_under(base),
                LLM_MODEL_FILE@,
            ),
            r.temperature_centi == 70,
            r.max_tokens == 256,
            r.system_prompt@ == "You are a helpful AI assistant. Respond concisely."@,
            r.n_threads == 4,
            r.context_size == 1024,
    {
        let dir = default_model_dir();
        EmbeddedLLMConfig {
            model_path: join_path(dir.as_str(), LLM_MODEL_FILE),
            temperature_centi: 70,
            max_tokens: 256,
            system_prompt: String::from_str("You are a helpful AI assistant. Respond concisely."),
            n_threads: 4,
            context_size: 1024,
        }
    }
}

/// On-device chat engine with its own conversation history.
#[derive(Debug)]
pub struct EmbeddedLLM {
    config: EmbeddedLLMConfig,
    conversation_history: Vec<ChatMessage>,
    is_initialized: bool,
}

impl EmbeddedLLM {
    pub closed spec fn spec_config(&self) -> EmbeddedLLMConfig {
        self.config
    }

    pub closed spec fn spec_initialized(&self) -> bool {
        self.is_initialized
    }

    pub closed spec fn history(&self) -> Seq<(Role, Seq<char>)> {
        views(self.conversation_history@)
    }

    pub fn new(config: EmbeddedLLMConfig) -> (r: Self)
        ensures
            r.spec_config() == config,
            !r.spec_initialized(),
            r.history() == Seq::<(Role, Seq<char>)>::empty(),
    {
        let r = EmbeddedLLM { config, conversation_history: Vec::new(), is_initialized: false };
        assert(r.history() =~= Seq::<(Role, Seq<char>)>::empty());
        r
    }

    /// Initializes the engine when the caller found its model file present.
    pub fn initialize(&mut self, model_present: bool) -> (r: Result<(), VoiceError>)
        ensures
            model_present ==> r is Ok && final(self).spec_initialized(),
            !model_present ==> (r matches Err(VoiceError::ModelNotFound { path }) && path@
                == old(self).spec_config().model_path@) && final(self).spec_initialized()
                == old(self).spec_initialized(),
            final(self).spec_config() == old(self).spec_config(),
            final(self).history() == old(self).history(),
    {
        if !model_present {
            return Err(VoiceError::ModelNotFound { path: self.config.model_path.clone() });
        }
        self.is_initialized = true;
        Ok(())
    }

    /// Ready when initialized and its model file is still present.
    pub fn is_ready(&self, model_present: bool) -> (r: bool)
        ensures
            r == (self.spec_initialized() && model_present),
    {
        self.is_initialized && model_present
    }

    /// Before initialization fails and changes nothing; after it, records the
    /// user's message and reports that inference is unavailable.
    pub fn chat(&mut self, user_message: &str) -> (r: Result<LLMResponse, VoiceError>)
        ensures
            !old(self).spec_initialized() ==> r == Err::<LLMResponse, VoiceError>(
                VoiceError::NotInitialized,
            ) && final(self).history() == old(self).history(),
            old(self).spec_initialized() ==> r == Err::<LLMResponse, VoiceError>(
                VoiceError::Unsupported,
            ) && final(self).history() == old(self).history().push(user_entry(user_message@)),
            final(self).spec_config() == old(self).spec_config(),
            final(self).spec_initialized() == old(self).spec_initialized(),
    {
        if !self.is_initialized {
            return Err(VoiceError::NotInitialized);
        }
        self.conversation_history.push(
            ChatMessage { role: Role::User, content: user_message.to_string() },
        );
        assert(self.history() =~= old(self).history().push(user_entry(user_message@)));
        Err(VoiceError::Unsupported)
    }

    /// Forgets the whole conversation.
    pub fn clear_history(&mut self)
        ensures
            final(self).history() == Seq::<(Role, Seq<char>)>::empty(),
            final(self).spec_config() == old(self).spec_config(),
            final(self).spec_initialized() == old(self).spec_initialized(),
    {
        self.conversation_history.clear();
        assert(self.history() =~= Seq::<(Role, Seq<char>)>::empty());
    }

    /// The path of the model file.
    pub fn model_path(&self) -> (r: &str)
        ensures
            r@ == self.spec_config().model_path@,
    {
        self.config.model_path.as_str()
    }

    /// Replaces the system prompt; nothing else changes.
    pub fn set_system_prompt(&mut self, prompt: String)
        ensures
            final(self).spec_config() == (EmbeddedLLMConfig {
                system_prompt: prompt,
                ..old(self).spec_config()
            }),
            final(self).history() == old(self).history(),
            final(self).spec_initialized() == old(self).spec_initialized(),
    {
        self.config.system_prompt = prompt;
    }
}

/// Configuration of on-device speech synthesis.
#[derive(Clone, Debug)]
pub struct EmbeddedTTSConfig {
    /// Speech rate in hundredths (100 is normal).
    pub speed_centi: u32,
    /// Pitch in hundredths (100 is normal).
    pub pitch_centi: u32,
    /// Language code such as `en-US`.
    pub language: String,
}

impl Default for EmbeddedTTSConfig {
    fn default() -> (r: Self)
        ensures
            r.speed_centi == 100,
            r.pitch_centi == 100,
            r.language@ == "en-US"@,
    {
        EmbeddedTTSConfig { speed_centi: 100, pitch_centi: 100, language: String::from_str("en-US") }
    }
}

/// On-device speech synthesis through the system's engine.
#[derive(Debug)]
pub struct EmbeddedTTS {
    config: EmbeddedTTSConfig,
    is_initialized: bool,
}

impl EmbeddedTTS {
    pub closed spec fn spec_config(&self) -> EmbeddedTTSConfig {
        self.config
    }

    pub closed spec fn spec_initialized(&self) -> bool {
        self.is_initialized
    }

    pub fn new(config: EmbeddedTTSConfig) -> (r: Self)
        ensures
            r.spec_config() == config,
            !r.spec_initialized(),
    {
        EmbeddedTTS { config, is_initialized: false }
    }

    /// Initializes the engine; this needs no model file.
    pub fn initialize(&mut self) -> (r: Result<(), VoiceError>)
        ensures
            r is Ok,
            final(self).spec_initialized(),
            final(self).spec_config() == old(self).spec_config(),
    {
        self.is_initialized = true;
        Ok(())
    }

    pub fn is_ready(&self) -> (r: bool)
        ensures
            r == self.spec_initialized(),
    {
        self.is_initialized
    }

    /// Fails: before initialization as uninitialized, after it as unavailable.
    pub fn synthesize(&self, text: &str) -> (r: Result<TTSResult, VoiceError>)
        ensures
            !self.spec_initialized() ==> r == Err::<TTSResult, VoiceError>(VoiceError::NotInitialized),
            self.spec_initialized() ==> r == Err::<TTSResult, VoiceError>(VoiceError::Unsupported),
    {
        if !self.is_initialized {
            return Err(VoiceError::NotInitialized);
        }
        Err(VoiceError::Unsupported)
    }

    /// Fails: before initialization as uninitialized, after it as unavailable.
    pub fn speak(&self, text: &str) -> (r: Result<(), VoiceError>)
        ensures
            !self.spec_initialized() ==> r == Err::<(), VoiceError>(VoiceError::NotInitialized),
            self.spec_initialized() ==> r == Err::<(), VoiceError>(VoiceError::Unsupported),
    {
        if !self.is_initialized {
            return Err(VoiceError::NotInitialized);
        }
        Err(VoiceError::Unsupported)
    }

    pub fn set_speed(&mut self, speed_centi: u32)
        ensures
            final(self).spec_config() == (EmbeddedTTSConfig { speed_centi, ..old(self).spec_config() }),
            final(self).spec_initialized() == old(self).spec_initialized(),
    {
        self.config.speed_centi = speed_centi;
    }

    pub fn set_pitch(&mut self, pitch_centi: u32)
        ensures
            final(self).spec_config() == (EmbeddedTTSConfig { pitch_centi, ..old(self).spec_config() }),
            final(self).spec_initialized() == old(self).spec_initialized(),
    {
        self.config.pitch_centi = pitch_centi;
    }

    pub fn set_language(&mut self, language: String)
        ensures
            final(self).spec_config() == (EmbeddedTTSConfig { language, ..old(self).spec_config() }),
            final(self).spec_initialized() == old(self).spec_initialized(),
    {
        self.config.language = language;
    }
}

} // verus!
