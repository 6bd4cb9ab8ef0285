use assidenter::asr::{TranscriptionReply, WhisperConfig, WhisperLiveKit};
use assidenter::error::{check_status, ErrorKind, Stage, VoiceError};
use assidenter::tts::{expects_json, SynthesisReply, VoxCPMConfig, VoxCPMTTS};

#[test]
fn transcription_request_encodes_audio() {
    let mut asr = WhisperLiveKit::new(WhisperConfig::default());
    let req = asr.transcription_request(&[1, 2, 3]);
    assert_eq!(req.url, "http://localhost:9090/transcribe");
    assert_eq!(req.audio, "AQID");
    assert_eq!(req.language, "auto");
    assert_eq!(req.model, "whisper-large-v3");
    assert_eq!(req.format, "wav");
    asr.set_server_url("http://a".to_string());
    assert_eq!(asr.transcription_request(&[]).url, "http://a/transcribe");
    assert_eq!(asr.config().language, "auto");
}

#[test]
fn transcription_reply_is_lenient_on_fields_and_strict_on_envelope() {
    let t = WhisperLiveKit::read_transcription(200, Some(TranscriptionReply { text: None, language: None })).unwrap();
    assert_eq!(t.text, "");
    assert!(t.is_final);
    let t = WhisperLiveKit::read_transcription(
        200,
        Some(TranscriptionReply { text: Some("hello".to_string()), language: Some("en".to_string()) }),
    )
    .unwrap();
    assert_eq!(t.text, "hello");
    assert_eq!(t.language.as_deref(), Some("en"));
    let e = WhisperLiveKit::read_transcription(200, None).unwrap_err();
    assert!(matches!(e, VoiceError::Malformed { stage: Stage::Asr, .. }));
    let e = WhisperLiveKit::read_transcription(404, None).unwrap_err();
    assert!(matches!(e, VoiceError::Status { stage: Stage::Asr, code: 404 }));
    assert_eq!(e.kind(), ErrorKind::Service);
}

#[test]
fn status_codes_outside_2xx_fail() {
    assert!(check_status(Stage::Tts, 200).is_ok());
    assert!(check_status(Stage::Tts, 299).is_ok());
    assert!(check_status(Stage::Tts, 199).is_err());
    assert!(check_status(Stage::Tts, 300).is_err());
}

#[test]
fn synthesis_request_uses_configuration() {
    let mut tts = VoxCPMTTS::new(VoxCPMConfig::default());
    tts.set_voice("alto".to_string());
    tts.set_speed(150);
    let req = tts.synthesis_request("hi there");
    assert_eq!(req.url, "http://localhost:5500/tts");
    assert_eq!(req.text, "hi there");
    assert_eq!(req.voice, "alto");
    assert_eq!(req.speed_centi, 150);
    assert_eq!(req.sample_rate, 22050);
    assert_eq!(req.format, "wav");
    tts.set_server_url("http://c".to_string());
    assert_eq!(tts.config().server_url, "http://c");
}

#[test]
fn json_content_type_is_detected() {
    assert!(expects_json("application/json"));
    assert!(expects_json("application/json; charset=utf-8"));
    assert!(!expects_json("audio/wav"));
    assert!(!expects_json(""));
}

#[test]
fn json_audio_duration_follows_sample_rate() {
    let tts = VoxCPMTTS::new(VoxCPMConfig::default());
    // 6 raw bytes, base64 "AAECAwQF"
    let r = tts
        .read_synthesis(200, "application/json", b"ignored".to_vec(), Some(SynthesisReply { audio: Some("AAECAwQF".to_string()) }))
        .unwrap();
    assert_eq!(r.audio_data, vec![0, 1, 2, 3, 4, 5]);
    assert_eq!(r.sample_rate, 22050);
    let (n, per_second) = r.duration_fraction();
    assert_eq!((n, per_second), (6, 44100));
    let duration = n as f64 / per_second as f64;
    assert!((duration - 6.0 / 44100.0).abs() < 1e-12);
}

#[test]
fn json_audio_round_trips_arbitrary_bytes() {
    let tts = VoxCPMTTS::new(VoxCPMConfig::default());
    let bytes: Vec<u8> = (0..=255u8).collect();
    let encoded = assidenter::screen::ScreenshotResult::captured(&bytes, 0, 0).image_base64.unwrap();
    let r = tts
        .read_synthesis(200, "application/json", vec![], Some(SynthesisReply { audio: Some(encoded) }))
        .unwrap();
    assert_eq!(r.audio_data, bytes);
    assert_eq!(r.duration_fraction(), (256, 44100));
}

#[test]
fn raw_body_is_the_audio() {
    let tts = VoxCPMTTS::new(VoxCPMConfig::default());
    let r = tts.read_synthesis(200, "audio/wav", vec![9, 8, 7, 6], None).unwrap();
    assert_eq!(r.audio_data, vec![9, 8, 7, 6]);
    let (n, per_second) = r.duration_fraction();
    assert!((n as f64 / per_second as f64 - 4.0 / 44100.0).abs() < 1e-12);
}

#[test]
fn synthesis_errors_are_classified() {
    let tts = VoxCPMTTS::new(VoxCPMConfig::default());
    let e = tts.read_synthesis(200, "application/json", vec![], Some(SynthesisReply { audio: None })).unwrap_err();
    assert!(matches!(e, VoiceError::MissingAudio));
    assert_eq!(e.kind(), ErrorKind::Service);
    let e = tts.read_synthesis(200, "application/json", vec![], Some(SynthesisReply { audio: Some("!!".to_string()) })).unwrap_err();
    assert!(matches!(e, VoiceError::BadSynthesizedAudio));
    assert_eq!(e.kind(), ErrorKind::Decode);
    let e = tts.read_synthesis(200, "application/json", vec![], None).unwrap_err();
    assert!(matches!(e, VoiceError::Malformed { stage: Stage::Tts, .. }));
    let e = tts.read_synthesis(503, "application/json", vec![], None).unwrap_err();
    assert!(matches!(e, VoiceError::Status { stage: Stage::Tts, code: 503 }));
}
