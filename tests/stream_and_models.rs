use assidenter::error::{ErrorKind, VoiceError};
use assidenter::embedded::{
    EmbeddedASR, EmbeddedASRConfig, EmbeddedLLM, EmbeddedLLMConfig, EmbeddedTTS, EmbeddedTTSConfig,
};
use assidenter::models::{
    join_path, model_dir_for, ModelManager, LLM_MODEL_FILE, LLM_MODEL_URL,
    WHISPER_MODEL_FILE, WHISPER_MODEL_URL,
};
use assidenter::registry::{ListeningFlag, ServiceMode, ServiceStatus};
use assidenter::screen::{select_monitor, ScreenshotResult};
use assidenter::sse::{lines_of, StreamDecoder};
use assidenter::text::{blank, contains_text, same_text};

#[test]
fn stream_payloads_stop_at_done() {
    let mut d = StreamDecoder::new();
    let p = d.feed(b"data: {\"a\":1}\r\n: comment\ndata: {\"b\":2}\n\n");
    assert_eq!(p, vec![b"{\"a\":1}".to_vec(), b"{\"b\":2}".to_vec()]);
    assert!(!d.is_finished());
    let p = d.feed(b"data: x\ndata: [DONE]\ndata: y\n");
    assert_eq!(p, vec![b"x".to_vec()]);
    assert!(d.is_finished());
    assert!(d.feed(b"data: z\n").is_empty());
}

#[test]
fn stream_text_accumulates_deltas() {
    let mut d = StreamDecoder::new();
    d.push_delta("Hel");
    d.push_delta("lo");
    assert_eq!(d.text(), "Hello");
    assert_eq!(d.into_text(), "Hello".to_string());
}

#[test]
fn lines_split_at_newlines() {
    assert_eq!(lines_of(b""), Vec::<Vec<u8>>::new());
    assert_eq!(lines_of(b"a\r\nb\n\nc"), vec![b"a".to_vec(), b"b".to_vec(), vec![], b"c".to_vec()]);
}

#[test]
fn text_helpers() {
    assert!(blank(""));
    assert!(blank(" \n\t"));
    assert!(!blank(" a "));
    assert!(contains_text("xxabcxx", "abc"));
    assert!(!contains_text("ab", "abc"));
    assert!(same_text("abc", "abc"));
    assert!(!same_text("abc", "abd"));
}

#[test]
fn model_paths_and_urls() {
    let m = ModelManager::with_model_dir("/data/models".to_string());
    assert_eq!(m.model_dir(), "/data/models");
    assert_eq!(m.get_model_path(WHISPER_MODEL_FILE), "/data/models/whisper-tiny.bin");
    assert_eq!(m.get_download_url("whisper-tiny.bin"), Some(WHISPER_MODEL_URL));
    assert_eq!(m.get_download_url(LLM_MODEL_FILE), Some(LLM_MODEL_URL));
    assert_eq!(m.get_download_url("other.bin"), None);
    assert_eq!(join_path("dir/", "f"), "dir/f");
    assert_eq!(join_path("", "f"), "f");
    assert_eq!(join_path("a", "/b"), "/b");
    assert_eq!(m.get_model_path("/abs/model.bin"), "/abs/model.bin");
    assert_eq!(model_dir_for(None), "./assidenter/models");
    assert_eq!(model_dir_for(Some("/home/u/.local/share".to_string())), "/home/u/.local/share/assidenter/models");
    assert!(ModelManager::new().model_dir().ends_with("assidenter/models"));
}

#[test]
fn model_info_reports_presence() {
    let m = ModelManager::with_model_dir("m".to_string());
    let infos = m.get_model_info(true, false);
    assert_eq!(infos.len(), 2);
    assert_eq!(infos[0].file_name, "whisper-tiny.bin");
    assert_eq!(infos[0].size_bytes, 75_000_000);
    assert!(infos[0].is_downloaded);
    assert_eq!(infos[1].name, "Qwen 0.5B Q4 (LLM)");
    assert!(!infos[1].is_downloaded);
    assert!(!ModelManager::are_models_ready(&infos));
    assert!(ModelManager::are_models_ready(&m.get_model_info(true, true)));
}

#[test]
fn embedded_asr_lifecycle() {
    let config = EmbeddedASRConfig { model_path: "m/whisper-tiny.bin".to_string(), language: "auto".to_string() };
    let mut asr = EmbeddedASR::new(config);
    assert_eq!(asr.model_path(), "m/whisper-tiny.bin");
    assert!(!asr.is_ready(true));
    assert!(matches!(asr.transcribe_wav(&[]), Err(VoiceError::NotInitialized)));
    match asr.initialize(false) {
        Err(VoiceError::ModelNotFound { path }) => assert_eq!(path, "m/whisper-tiny.bin"),
        other => panic!("unexpected {:?}", other),
    }
    assert!(!asr.is_ready(true));
    assert!(asr.initialize(true).is_ok());
    assert!(asr.is_ready(true));
    assert!(!asr.is_ready(false));
    assert!(matches!(asr.transcribe_wav(&[]), Err(VoiceError::Unsupported)));
    assert!(EmbeddedASRConfig::default().model_path.ends_with("assidenter/models/whisper-tiny.bin"));
}

#[test]
fn listening_cannot_start_twice() {
    let mut flag = ListeningFlag::new();
    assert!(!flag.is_listening());
    assert!(flag.start_listening().is_ok());
    let e = flag.start_listening().unwrap_err();
    assert!(matches!(e, VoiceError::AlreadyListening));
    assert_eq!(e.kind(), ErrorKind::State);
    flag.stop_listening();
    flag.stop_listening();
    assert!(!flag.is_listening());
    assert!(flag.start_listening().is_ok());
}

#[test]
fn status_reports_mode() {
    let s = ServiceStatus::for_mode(ServiceMode::default());
    assert_eq!(s.mode, "remote");
    assert!(s.asr_ready && s.llm_ready && s.tts_ready);
    assert_eq!(ServiceMode::Embedded.name(), "embedded");
}

#[test]
fn screenshot_results() {
    assert_eq!(select_monitor(None, 2), Some(0));
    assert_eq!(select_monitor(Some(1), 2), Some(1));
    assert_eq!(select_monitor(Some(2), 2), None);
    assert_eq!(select_monitor(None, 0), None);
    let r = ScreenshotResult::captured(&[1, 2, 3], 4, 5);
    assert!(r.success);
    assert_eq!(r.image_base64.as_deref(), Some("AQID"));
    assert_eq!((r.width, r.height), (Some(4), Some(5)));
    let r = ScreenshotResult::no_monitors();
    assert!(!r.success);
    assert_eq!(r.error.as_deref(), Some("No monitors found"));
}

#[test]
fn embedded_chat_records_message_once_initialized() {
    let mut config = EmbeddedLLMConfig::default();
    assert_eq!(config.max_tokens, 256);
    assert_eq!(config.context_size, 1024);
    config.model_path = "m/qwen2-0.5b-q4.gguf".to_string();
    let mut llm = EmbeddedLLM::new(config);
    assert!(matches!(llm.chat("hi"), Err(VoiceError::NotInitialized)));
    assert!(llm.initialize(true).is_ok());
    assert!(llm.is_ready(true));
    assert!(matches!(llm.chat("hi"), Err(VoiceError::Unsupported)));
    assert_eq!(llm.model_path(), "m/qwen2-0.5b-q4.gguf");
    llm.set_system_prompt("x".to_string());
    llm.clear_history();
}

#[test]
fn embedded_speech_reports_unavailable() {
    let config = EmbeddedTTSConfig::default();
    assert_eq!((config.speed_centi, config.pitch_centi), (100, 100));
    assert_eq!(config.language, "en-US");
    let mut tts = EmbeddedTTS::new(config);
    assert!(!tts.is_ready());
    assert!(matches!(tts.speak("a"), Err(VoiceError::NotInitialized)));
    assert!(tts.initialize().is_ok());
    assert!(tts.is_ready());
    assert!(matches!(tts.synthesize("a"), Err(VoiceError::Unsupported)));
    assert!(matches!(tts.speak("a"), Err(VoiceError::Unsupported)));
    tts.set_speed(120);
    tts.set_pitch(90);
    tts.set_language("de-DE".to_string());
}
