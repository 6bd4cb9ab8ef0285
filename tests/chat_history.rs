use assidenter::error::{ErrorKind, Stage, VoiceError};
use assidenter::llm::{ChatReply, QwenConfig, QwenLLM, Role};

fn client() -> QwenLLM {
    QwenLLM::new(QwenConfig::default())
}

#[test]
fn chat_request_carries_prompt_and_history() {
    let mut llm = client();
    let req = llm.begin_chat("hello", false);
    assert_eq!(req.url, "http://localhost:8080/v1/chat/completions");
    assert_eq!(req.model, "qwen-0.5b");
    assert_eq!(req.temperature_centi, 70);
    assert_eq!(req.max_tokens, 512);
    assert!(!req.stream);
    assert_eq!(req.messages.len(), 2);
    assert_eq!(req.messages[0].role, Role::System);
    assert_eq!(
        req.messages[0].content,
        "You are a helpful AI assistant. Respond concisely and helpfully."
    );
    assert_eq!(req.messages[1].role.as_str(), "user");
    assert_eq!(req.messages[1].content, "hello");
}

#[test]
fn cleared_conversation_sends_only_prompt_and_new_message() {
    let mut llm = client();
    llm.begin_chat("first", false);
    llm.complete_chat(200, Some(ChatReply { content: Some("one".to_string()), finish_reason: None })).unwrap();
    llm.clear_history();
    assert_eq!(llm.history_len(), 0);
    let req = llm.begin_chat("second", true);
    assert!(req.stream);
    assert_eq!(req.messages.len(), 2);
    assert_eq!(req.messages[0].role, Role::System);
    assert_eq!(req.messages[1].role, Role::User);
    assert_eq!(req.messages[1].content, "second");
}

#[test]
fn successful_chat_adds_user_then_assistant_even_when_empty() {
    let mut llm = client();
    llm.begin_chat("a", false);
    llm.complete_chat(200, Some(ChatReply { content: Some("b".to_string()), finish_reason: Some("stop".to_string()) })).unwrap();
    llm.begin_chat("c", false);
    let resp = llm
        .complete_chat(200, Some(ChatReply { content: None, finish_reason: None }))
        .unwrap();
    assert_eq!(resp.text, "");
    assert_eq!(resp.finish_reason, None);
    assert_eq!(llm.history_len(), 4);
    assert_eq!(llm.history_entry(2).role, Role::User);
    assert_eq!(llm.history_entry(2).content, "c");
    assert_eq!(llm.history_entry(3).role, Role::Assistant);
    assert_eq!(llm.history_entry(3).content, "");
}

#[test]
fn failed_chat_keeps_only_the_user_message() {
    let mut llm = client();
    llm.begin_chat("hi", false);
    let err = llm.complete_chat(500, None).unwrap_err();
    assert!(matches!(err, VoiceError::Status { stage: Stage::Llm, code: 500 }));
    assert_eq!(err.kind(), ErrorKind::Service);
    assert_eq!(llm.history_len(), 1);
    let err = llm.complete_chat(200, None).unwrap_err();
    assert!(matches!(err, VoiceError::Malformed { stage: Stage::Llm, .. }));
    assert_eq!(llm.history_len(), 1);
}

#[test]
fn finished_stream_is_recorded_with_stop_reason() {
    let mut llm = client();
    llm.begin_chat("q", true);
    let resp = llm.finish_stream("streamed".to_string());
    assert_eq!(resp.text, "streamed");
    assert_eq!(resp.finish_reason.as_deref(), Some("stop"));
    assert_eq!(llm.history_len(), 2);
    assert_eq!(llm.history_entry(1).content, "streamed");
}

#[test]
fn configuration_setters_change_one_field() {
    let mut llm = client();
    llm.set_server_url("http://b".to_string());
    llm.set_system_prompt("Be brief.".to_string());
    assert_eq!(llm.config().server_url, "http://b");
    assert_eq!(llm.config().system_prompt, "Be brief.");
    assert_eq!(llm.config().model, "qwen-0.5b");
    let req = llm.begin_chat("x", false);
    assert_eq!(req.url, "http://b/v1/chat/completions");
    assert_eq!(req.messages[0].content, "Be brief.");
}
