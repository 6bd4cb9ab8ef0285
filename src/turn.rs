//! Sequencing of one interaction turn: speech recognition (for a voice turn),
//! then chat, then speech synthesis, with a notification before each stage.
//! The turn is a state machine: each step names the notifications to emit and
//! the next stage to run; the caller runs it and hands its result back.
use vstd::prelude::*;
use crate::asr::TranscriptionResult;
use crate::encoding::{base64_decode, base64_encode, base64_of};
use crate::error::VoiceError;
use crate::llm::LLMResponse;
use crate::text::{blank, is_blank};
use crate::tts::TTSResult;

verus! {

/// The kinds of notification a turn emits.
#[derive(Clone, Copy, Debug, PartialEq, Eq, Structural)]
pub enum NoticeKind {
    /// The stage about to run; the payload is its status line.
    ProcessingStatus,
    /// The recognized text.
    Transcription,
    /// The assistant's reply.
    LlmResponse,
    /// The synthesized audio as base64.
    TtsAudio,
}

impl NoticeKind {
    pub open spec fn spec_event_name(self) -> Seq<char> {
        match self {
            NoticeKind::ProcessingStatus => "processing-status"@,
            NoticeKind::Transcription => "transcription"@,
            NoticeKind::LlmResponse => "llm-response"@,
            NoticeKind::TtsAudio => "tts-audio"@,
        }
    }

    /// The name under which the notification is emitted.
    pub fn event_name(&self) -> (r: &'static str)
        ensures
            r@ == self.spec_event_name(),
    {
        match self {
            NoticeKind::ProcessingStatus => "processing-status",
            NoticeKind::Transcription => "transcription",
            NoticeKind::LlmResponse => "llm-response",
            NoticeKind::TtsAudio => "tts-audio",
        }
    }
}

/// One notification for the caller's sink.
#[derive(Clone, Debug)]
pub struct Notice {
    pub kind: NoticeKind,
    pub payload: String,
}

impl View for Notice {
    type V = (NoticeKind, Seq<char>);

    open spec fn view(&self) -> (NoticeKind, Seq<char>) {
        (self.kind, self.payload@)
    }
}

/// The kind and payload of each notification, in order.
pub open spec fn notice_views(ns: Seq<Notice>) -> Seq<(NoticeKind, Seq<char>)> {
    ns.map_values(|n: Notice| n@)
}

pub open spec fn status_notice(line: Seq<char>) -> (NoticeKind, Seq<char>) {
    (NoticeKind::ProcessingStatus, line)
}

/// Outcome of a finished turn.
#[derive(Clone, Debug)]
pub struct ProcessingResult {
    pub status: String,
    pub transcription: Option<String>,
    pub response: Option<String>,
    pub audio_ready: bool,
}

/// What the caller does next.
#[derive(Debug)]
pub enum TurnAction {
    /// Run speech recognition on this WAV container.
    Transcribe(Vec<u8>),
    /// Run a chat call with this user text.
    Chat(String),
    /// Run speech synthesis on this text.
    Synthesize(String),
    /// The turn is over with this outcome.
    Finish(Result<ProcessingResult, VoiceError>),
}

/// The result of the stage the turn asked for.
#[derive(Debug)]
pub enum TurnEvent {
    Transcribed(Result<TranscriptionResult, VoiceError>),
    Responded(Result<LLMResponse, VoiceError>),
    Synthesized(Result<TTSResult, VoiceError>),
}

/// Where a turn stands.
#[derive(Clone, Copy, Debug, PartialEq, Eq, Structural)]
pub enum TurnStage {
    AwaitingTranscription,
    AwaitingResponse,
    AwaitingAudio,
    Finished,
}

/// The notifications to emit, in order, and then the action to take.
#[derive(Debug)]
pub struct TurnStep {
    pub notices: Vec<Notice>,
    pub action: TurnAction,
}

/// One interaction turn in progress.
#[derive(Debug)]
pub struct Turn {
    stage: TurnStage,
    transcription: String,
    response: String,
}

fn notice(kind: NoticeKind, payload: String) -> (r: Notice)
    ensures
        r@ == (kind, payload@),
{
    Notice { kind, payload }
}

fn status(line: &str) -> (r: Notice)
    ensures
        r@ == status_notice(line@),
{
    Notice { kind: NoticeKind::ProcessingStatus, payload: line.to_string() }
}

fn finish(result: Result<ProcessingResult, VoiceError>) -> (r: TurnStep)
    ensures
        r.notices@.len() == 0,
        r.action == TurnAction::Finish(result),
{
    TurnStep { notices: Vec::new(), action: TurnAction::Finish(result) }
}

impl Turn {
    pub closed spec fn spec_stage(&self) -> TurnStage {
        self.stage
    }

    /// The user's text: the recognized text of a voice turn, the message of a text turn.
    pub closed spec fn spec_transcription(&self) -> Seq<char> {
        self.transcription@
    }

    /// The assistant's reply, once there is one.
    pub closed spec fn spec_response(&self) -> Seq<char> {
        self.response@
    }

    /// Where the turn stands.
    pub fn stage(&self) -> (r: TurnStage)
        ensures
            r == self.spec_stage(),
    {
        self.stage
    }

    /// Starts a voice turn on base64 WAV text: if it decodes, announce
    /// `Transcribing...` and recognize the audio; otherwise the turn fails
    /// with a decode error before any stage runs.
    pub fn voice(audio_base64: &str) -> (r: (Turn, TurnStep))
        ensures
            (exists|b: Seq<u8>| #[trigger] base64_of(b) == audio_base64@) ==> {
                &&& r.0.spec_stage() == TurnStage::AwaitingTranscription
                &&& notice_views(r.1.notices@) == seq![status_notice("Transcribing..."@)]
                &&& r.1.action matches TurnAction::Transcribe(wav) && base64_of(wav@)
                    == audio_base64@
                &&& r.1.action matches TurnAction::Transcribe(wav) && forall|b: Seq<u8>|
                    #[trigger] base64_of(b) == audio_base64@ ==> wav@ == b
            },
            !(exists|b: Seq<u8>| #[trigger] base64_of(b) == audio_base64@) ==> {
                &&& r.0.spec_stage() == TurnStage::Finished
                &&& r.1.notices@.len() == 0
                &&& r.1.action == TurnAction::Finish(Err(VoiceError::BadInputAudio))
            },
    {
        match base64_decode(audio_base64) {
            Ok(wav) => {
                let mut notices: Vec<Notice> = Vec::new();
                notices.push(status("Transcribing..."));
                assert(notice_views(notices@) =~= seq![status_notice("Transcribing..."@)]);
                (
                    Turn {
                        stage: TurnStage::AwaitingTranscription,
                        transcription: String::new(),
                        response: String::new(),
                    },
                    TurnStep { notices, action: TurnAction::Transcribe(wav) },
                )
            },
            Err(_) => (
                Turn {
                    stage: TurnStage::Finished,
                    transcription: String::new(),
                    response: String::new(),
                },
                finish(Err(VoiceError::BadInputAudio)),
            ),
        }
    }

    /// Starts a text turn: announce `Thinking...` and send the message to
    /// the chat service; the message stands in for the transcription.
    pub fn text(message: String) -> (r: (Turn, TurnStep))
        ensures
            r.0.spec_stage() == TurnStage::AwaitingResponse,
            r.0.spec_transcription() == message@,
            notice_views(r.1.notices@) == seq![status_notice("Thinking..."@)],
            r.1.action matches TurnAction::Chat(m) && m@ == message@,
    {
        let mut notices: Vec<Notice> = Vec::new();
        notices.push(status("Thinking..."));
        assert(notice_views(notices@) =~= seq![status_notice("Thinking..."@)]);
        let chat = message.clone();
        (
            Turn { stage: TurnStage::AwaitingResponse, transcription: message, response: String::new() },
            TurnStep { notices, action: TurnAction::Chat(chat) },
        )
    }

    /// Takes the result of the stage the turn waits for and says what comes
    /// next. A failed stage ends the turn with its error and nothing more
    /// runs. Blank recognized text ends the turn as `empty` with no chat or
    /// synthesis. A result the turn is not waiting for ends it with a state
    /// error.
    pub fn advance(&mut self, event: TurnEvent) -> (r: TurnStep)
        ensures
            old(self).spec_stage() == TurnStage::AwaitingTranscription && event is Transcribed ==> {
                let res = event->Transcribed_0;
                &&& res is Err ==> final(self).spec_stage() == TurnStage::Finished
                    && r.notices@.len() == 0 && r.action == TurnAction::Finish(Err(res->Err_0))
                &&& (res is Ok && is_blank(res->Ok_0.text@)) ==> {
                    let t = res->Ok_0;
                    &&& final(self).spec_stage() == TurnStage::Finished
                    &&& notice_views(r.notices@) == seq![(NoticeKind::Transcription, t.text@)]
                    &&& r.action matches TurnAction::Finish(Ok(p)) && p.status@ == "empty"@
                        && (p.transcription matches Some(s) && s@ == t.text@) && p.response is None
                        && !p.audio_ready
                }
                &&& (res is Ok && !is_blank(res->Ok_0.text@)) ==> {
                    let t = res->Ok_0;
                    &&& final(self).spec_stage() == TurnStage::AwaitingResponse
                    &&& final(self).spec_transcription() == t.text@
                    &&& notice_views(r.notices@) == seq![
                        (NoticeKind::Transcription, t.text@),
                        status_notice("Thinking..."@),
                    ]
                    &&& r.action matches TurnAction::Chat(m) && m@ == t.text@
                }
            },
            old(self).spec_stage() == TurnStage::AwaitingResponse && event is Responded ==> {
                let res = event->Responded_0;
                &&& res is Err ==> final(self).spec_stage() == TurnStage::Finished
                    && r.notices@.len() == 0 && r.action == TurnAction::Finish(Err(res->Err_0))
                &&& res is Ok ==> {
                    let reply = res->Ok_0;
                    &&& final(self).spec_stage() == TurnStage::AwaitingAudio
                    &&& final(self).spec_transcription() == old(self).spec_transcription()
                    &&& final(self).spec_response() == reply.text@
                    &&& notice_views(r.notices@) == seq![
                        (NoticeKind::LlmResponse, reply.text@),
                        status_notice("Generating audio..."@),
                    ]
                    &&& r.action matches TurnAction::Synthesize(s) && s@ == reply.text@
                }
            },
            old(self).spec_stage() == TurnStage::AwaitingAudio && event is Synthesized ==> {
                let res = event->Synthesized_0;
                &&& res is Err ==> final(self).spec_stage() == TurnStage::Finished
                    && r.notices@.len() == 0 && r.action == TurnAction::Finish(Err(res->Err_0))
                &&& res is Ok ==> {
                    let audio = res->Ok_0;
                    &&& final(self).spec_stage() == TurnStage::Finished
                    &&& notice_views(r.notices@) == seq![
                        (NoticeKind::TtsAudio, base64_of(audio.audio_data@)),
                    ]
                    &&& r.action matches TurnAction::Finish(Ok(p)) && p.status@ == "complete"@
                        && (p.transcription matches Some(s) && s@ == old(self).spec_transcription())
                        && (p.response matches Some(s2) && s2@ == old(self).spec_response())
                        && p.audio_ready
                }
            },
            !(old(self).spec_stage() == TurnStage::AwaitingTranscription && event is Transcribed)
                && !(old(self).spec_stage() == TurnStage::AwaitingResponse && event is Responded)
                && !(old(self).spec_stage() == TurnStage::AwaitingAudio && event is Synthesized)
                ==> final(self).spec_stage() == TurnStage::Finished && r.notices@.len() == 0
                && r.action == TurnAction::Finish(Err(VoiceError::OutOfOrder)),
    {
        match (self.stage, event) {
            (TurnStage::AwaitingTranscription, TurnEvent::Transcribed(res)) => match res {
                Err(e) => {
                    self.stage = TurnStage::Finished;
                    finish(Err(e))
                },
                Ok(t) => {
                    let text = t.text;
                    let mut notices: Vec<Notice> = Vec::new();
                    notices.push(notice(NoticeKind::Transcription, text.clone()));
                    if blank(text.as_str()) {
                        self.stage = TurnStage::Finished;
                        assert(notice_views(notices@) =~= seq![
                            (NoticeKind::Transcription, text@),
                        ]);
                        let result = ProcessingResult {
                            status: String::from_str("empty"),
                            transcription: Some(text),
                            response: None,
                            audio_ready: false,
                        };
                        TurnStep { notices, action: TurnAction::Finish(Ok(result)) }
                    } else {
                        notices.push(status("Thinking..."));
                        assert(notice_views(notices@) =~= seq![
                            (NoticeKind::Transcription, text@),
                            status_notice("Thinking..."@),
                        ]);
                        self.stage = TurnStage::AwaitingResponse;
                        self.transcription = text.clone();
                        TurnStep { notices, action: TurnAction::Chat(text) }
                    }
                },
            },
            (TurnStage::AwaitingResponse, TurnEvent::Responded(res)) => match res {
                Err(e) => {
                    self.stage = TurnStage::Finished;
                    finish(Err(e))
                },
                Ok(reply) => {
                    let text = reply.text;
                    let mut notices: Vec<Notice> = Vec::new();
                    notices.push(notice(NoticeKind::LlmResponse, text.clone()));
                    notices.push(status("Generating audio..."));
                    assert(notice_views(notices@) =~= seq![
                        (NoticeKind::LlmResponse, text@),
                        status_notice("Generating audio..."@),
                    ]);
                    self.stage = TurnStage::AwaitingAudio;
                    self.response = text.clone();
                    TurnStep { notices, action: TurnAction::Synthesize(text) }
                },
            },
            (TurnStage::AwaitingAudio, TurnEvent::Synthesized(res)) => match res {
                Err(e) => {
                    self.stage = TurnStage::Finished;
                    finish(Err(e))
                },
                Ok(audio) => {
                    let mut notices: Vec<Notice> = Vec::new();
                    notices.push(
                        notice(NoticeKind::TtsAudio, base64_encode(audio.audio_data.as_slice())),
                    );
                    assert(notice_views(notices@) =~= seq![
                        (NoticeKind::TtsAudio, base64_of(audio.audio_data@)),
                    ]);
                    self.stage = TurnStage::Finished;
                    let result = ProcessingResult {
                        status: String::from_str("complete"),
                        transcription: Some(self.transcription.clone()),
                        response: Some(self.response.clone()),
                        audio_ready: true,
                    };
                    TurnStep { notices, action: TurnAction::Finish(Ok(result)) }
                },
            },
            _ => {
                self.stage = TurnStage::Finished;
                finish(Err(VoiceError::OutOfOrder))
            },
        }
    }
}

} // verus!
