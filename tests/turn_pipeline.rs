use assidenter::asr::{TranscriptionReply, TranscriptionResult, WhisperConfig, WhisperLiveKit};
use assidenter::error::{ErrorKind, VoiceError};
use assidenter::llm::{ChatReply, LLMResponse, QwenConfig, QwenLLM};
use assidenter::registry::ServiceConfig;
use assidenter::tts::{TTSResult, VoxCPMConfig, VoxCPMTTS};
use assidenter::turn::{NoticeKind, Turn, TurnAction, TurnEvent, TurnStage};
use assidenter::wav::encode_wav;

fn silence_wav_base64() -> String {
    // base64 of a 44-byte header around four zero samples at 16 kHz
    let wav = encode_wav(&[0, 0, 0, 0], 16000);
    assert_eq!(wav.len(), 52);
    "UklGRiwAAABXQVZFZm10IBAAAAABAAEAgD4AAAB9AAACABAAZGF0YQgAAAAAAAAAAAAAAA==".to_string()
}

fn transcribed(text: &str) -> TurnEvent {
    TurnEvent::Transcribed(Ok(TranscriptionResult { text: text.to_string(), language: None, is_final: true }))
}

#[test]
fn silent_voice_turn_stops_after_recognition() {
    let mut asr = WhisperLiveKit::new(WhisperConfig::default());
    let mut llm = QwenLLM::new(QwenConfig::default());
    let mut tts = VoxCPMTTS::new(VoxCPMConfig::default());
    let config = ServiceConfig { asr_url: "http://a".to_string(), llm_url: "http://b".to_string(), tts_url: "http://c".to_string() };
    asr.set_server_url(config.asr_url.clone());
    llm.set_server_url(config.llm_url.clone());
    tts.set_server_url(config.tts_url.clone());

    let mut outbound: Vec<String> = Vec::new();
    let (mut turn, step) = Turn::voice(&silence_wav_base64());
    assert_eq!(step.notices.len(), 1);
    assert_eq!(step.notices[0].kind, NoticeKind::ProcessingStatus);
    assert_eq!(step.notices[0].payload, "Transcribing...");
    let wav = match step.action {
        TurnAction::Transcribe(wav) => wav,
        other => panic!("unexpected action {:?}", other),
    };
    assert_eq!(wav, encode_wav(&[0, 0, 0, 0], 16000));
    outbound.push(asr.transcription_request(&wav).url);
    let result = WhisperLiveKit::read_transcription(200, Some(TranscriptionReply { text: Some(String::new()), language: None }));
    let step = turn.advance(TurnEvent::Transcribed(result));
    assert_eq!(step.notices.len(), 1);
    assert_eq!(step.notices[0].kind.event_name(), "transcription");
    assert_eq!(step.notices[0].payload, "");
    match step.action {
        TurnAction::Finish(Ok(r)) => {
            assert_eq!(r.status, "empty");
            assert_eq!(r.transcription.as_deref(), Some(""));
            assert_eq!(r.response, None);
            assert!(!r.audio_ready);
        }
        other => panic!("unexpected action {:?}", other),
    }
    assert_eq!(turn.stage(), TurnStage::Finished);
    assert_eq!(outbound, vec!["http://a/transcribe".to_string()]);
    assert_eq!(llm.history_len(), 0);
}

#[test]
fn whitespace_transcription_is_empty_turn() {
    let (mut turn, _) = Turn::voice("AAAA");
    let step = turn.advance(transcribed(" \t\n\u{3000}"));
    assert!(matches!(step.action, TurnAction::Finish(Ok(ref r)) if r.status == "empty" && !r.audio_ready));
}

#[test]
fn failing_chat_service_ends_text_turn_without_audio() {
    let mut llm = QwenLLM::new(QwenConfig::default());
    let (mut turn, step) = Turn::text("hi".to_string());
    assert_eq!(step.notices[0].payload, "Thinking...");
    let message = match step.action {
        TurnAction::Chat(m) => m,
        other => panic!("unexpected action {:?}", other),
    };
    assert_eq!(message, "hi");
    llm.begin_chat(&message, false);
    let outcome = llm.complete_chat(500, None);
    let step = turn.advance(TurnEvent::Responded(outcome));
    assert!(step.notices.iter().all(|n| n.kind != NoticeKind::TtsAudio));
    match step.action {
        TurnAction::Finish(Err(e)) => {
            assert_eq!(e.kind(), ErrorKind::Service);
            assert!(matches!(e, VoiceError::Status { code: 500, .. }));
        }
        other => panic!("unexpected action {:?}", other),
    }
}

#[test]
fn full_voice_turn_notifies_each_stage() {
    let mut llm = QwenLLM::new(QwenConfig::default());
    let (mut turn, _) = Turn::voice("AAAA");
    let step = turn.advance(transcribed("what time is it"));
    let kinds: Vec<(NoticeKind, String)> = step.notices.iter().map(|n| (n.kind, n.payload.clone())).collect();
    assert_eq!(
        kinds,
        vec![(NoticeKind::Transcription, "what time is it".to_string()), (NoticeKind::ProcessingStatus, "Thinking...".to_string())]
    );
    let text = match step.action {
        TurnAction::Chat(t) => t,
        other => panic!("unexpected action {:?}", other),
    };
    llm.begin_chat(&text, false);
    let reply = llm.complete_chat(200, Some(ChatReply { content: Some("noon".to_string()), finish_reason: None }));
    let step = turn.advance(TurnEvent::Responded(reply));
    assert_eq!(step.notices[0].kind, NoticeKind::LlmResponse);
    assert_eq!(step.notices[0].payload, "noon");
    assert_eq!(step.notices[1].payload, "Generating audio...");
    assert!(matches!(step.action, TurnAction::Synthesize(ref s) if s == "noon"));
    let step = turn.advance(TurnEvent::Synthesized(Ok(TTSResult { audio_data: vec![1, 2, 3], sample_rate: 22050 })));
    assert_eq!(step.notices.len(), 1);
    assert_eq!(step.notices[0].kind.event_name(), "tts-audio");
    assert_eq!(step.notices[0].payload, "AQID");
    match step.action {
        TurnAction::Finish(Ok(r)) => {
            assert_eq!(r.status, "complete");
            assert_eq!(r.transcription.as_deref(), Some("what time is it"));
            assert_eq!(r.response.as_deref(), Some("noon"));
            assert!(r.audio_ready);
        }
        other => panic!("unexpected action {:?}", other),
    }
    assert_eq!(llm.history_len(), 2);
}

#[test]
fn undecodable_audio_fails_before_any_stage() {
    let (turn, step) = Turn::voice("not base64!");
    assert!(step.notices.is_empty());
    assert!(matches!(step.action, TurnAction::Finish(Err(VoiceError::BadInputAudio))));
    assert_eq!(turn.stage(), TurnStage::Finished);
}

#[test]
fn out_of_order_result_is_a_state_error() {
    let (mut turn, _) = Turn::text("x".to_string());
    let step = turn.advance(transcribed("y"));
    match step.action {
        TurnAction::Finish(Err(e)) => assert_eq!(e.kind(), ErrorKind::State),
        other => panic!("unexpected action {:?}", other),
    }
    let step = turn.advance(TurnEvent::Responded(Ok(LLMResponse { text: "z".to_string(), finish_reason: None })));
    assert!(matches!(step.action, TurnAction::Finish(Err(VoiceError::OutOfOrder))));
}

#[test]
fn recognition_failure_ends_voice_turn() {
    let (mut turn, _) = Turn::voice("AAAA");
    let step = turn.advance(TurnEvent::Transcribed(Err(VoiceError::Transport { stage: assidenter::error::Stage::Asr, detail: "refused".to_string() })));
    match step.action {
        TurnAction::Finish(Err(e)) => assert_eq!(e.kind(), ErrorKind::Transport),
        other => panic!("unexpected action {:?}", other),
    }
}
