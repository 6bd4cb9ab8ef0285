//! Client state of the chat service: configuration, conversation history,
//! request construction and the meaning of its replies.
use vstd::prelude::*;
use crate::asr::text_or_empty;
use crate::error::{check_status, is_success, Stage, VoiceError};

verus! {

/// Who a chat message is from.
#[derive(Clone, Copy, Debug, PartialEq, Eq, Structural)]
pub enum Role {
    System,
    User,
    Assistant,
}

impl Role {
    pub open spec fn spec_name(self) -> Seq<char> {
        match self {
            Role::System => "system"@,
            Role::User => "user"@,
            Role::Assistant => "assistant"@,
        }
    }

    /// The role's tag on the wire.
    pub fn as_str(&self) -> (r: &'static str)
        ensures
            r@ == self.spec_name(),
    {
        match self {
            Role::System => "system",
            Role::User => "user",
            Role::Assistant => "assistant",
        }
    }
}

/// One message of a conversation.
#[derive(Debug)]
pub struct ChatMessage {
    pub role: Role,
    pub content: String,
}

impl View for ChatMessage {
    type V = (Role, Seq<char>);

    open spec fn view(&self) -> (Role, Seq<char>) {
        (self.role, self.content@)
    }
}

impl ChatMessage {
    /// A message with the same role and content.
    pub fn duplicate(&self) -> (r: ChatMessage)
        ensures
            r@ == self@,
    {
        ChatMessage { role: self.role, content: self.content.clone() }
    }
}

/// The role and content of each message, in order.
pub open spec fn views(msgs: Seq<ChatMessage>) -> Seq<(Role, Seq<char>)> {
    msgs.map_values(|m: ChatMessage| m@)
}

pub open spec fn user_entry(text: Seq<char>) -> (Role, Seq<char>) {
    (Role::User, text)
}

pub open spec fn assistant_entry(text: Seq<char>) -> (Role, Seq<char>) {
    (Role::Assistant, text)
}

/// The messages sent for a conversation: the system prompt, then the history.
pub open spec fn outbound_messages(system_prompt: Seq<char>, history: Seq<(Role, Seq<char>)>) -> Seq<
    (Role, Seq<char>),
> {
    seq![(Role::System, system_prompt)] + history
}

/// Endpoint and generation parameters of the chat service. The sampling
/// temperature is kept in hundredths.
#[derive(Clone, Debug)]
pub struct QwenConfig {
    pub server_url: String,
    pub model: String,
    pub temperature_centi: u32,
    pub max_tokens: u32,
    pub system_prompt: String,
}

impl Default for QwenConfig {
    fn default() -> (r: Self)
        ensures
            r.server_url@ == "http://localhost:8080"@,
            r.model@ == "qwen-0.5b"@,
            r.temperature_centi == 70,
            r.max_tokens == 512,
            r.system_prompt@ == "You are a helpful AI assistant. Respond concisely and helpfully."@,
    {
        QwenConfig {
            server_url: String::from_str("http://localhost:8080"),
            model: String::from_str("qwen-0.5b"),
            temperature_centi: 70,
            max_tokens: 512,
            system_prompt: String::from_str(
                "You are a helpful AI assistant. Respond concisely and helpfully.",
            ),
        }
    }
}

/// An OpenAI-compatible chat completion request and the address it goes to.
#[derive(Debug)]
pub struct ChatRequest {
    pub url: String,
    pub model: String,
    pub messages: Vec<ChatMessage>,
    pub temperature_centi: u32,
    pub max_tokens: u32,
    pub stream: bool,
}

/// The fields of a chat completion reply that was a JSON document:
/// `choices[0].message.content` and `choices[0].finish_reason`, each `None`
/// when absent or not text.
#[derive(Clone, Debug)]
pub struct ChatReply {
    pub content: Option<String>,
    pub finish_reason: Option<String>,
}

/// Outcome of one chat call.
#[derive(Clone, Debug)]
pub struct LLMResponse {
    pub text: String,
    pub finish_reason: Option<String>,
}

/// Chat client: owns its configuration and the conversation so far.
pub struct QwenLLM {
    config: QwenConfig,
    conversation_history: Vec<ChatMessage>,
}

/// `after` is `before` with the user's message appended to the history.
pub open spec fn began_chat(before: QwenLLM, after: QwenLLM, user_message: Seq<char>) -> bool {
    &&& after.history() == before.history().push(user_entry(user_message))
    &&& after.spec_config() == before.spec_config()
}

/// `after` is `before` with the assistant's reply appended to the history.
pub open spec fn answered(before: QwenLLM, after: QwenLLM, reply: Seq<char>) -> bool {
    &&& after.history() == before.history().push(assistant_entry(reply))
    &&& after.spec_config() == before.spec_config()
}

/// `after` is `before` with nothing changed.
pub open spec fn unchanged(before: QwenLLM, after: QwenLLM) -> bool {
    &&& after.history() == before.history()
    &&& after.spec_config() == before.spec_config()
}

impl QwenLLM {
    pub closed spec fn spec_config(&self) -> QwenConfig {
        self.config
    }

    /// The conversation so far, oldest first; the system prompt is not part of it.
    pub closed spec fn history(&self) -> Seq<(Role, Seq<char>)> {
        views(self.conversation_history@)
    }

    pub fn new(config: QwenConfig) -> (r: Self)
        ensures
            r.spec_config() == config,
            r.history() == Seq::<(Role, Seq<char>)>::empty(),
    {
        let r = QwenLLM { config, conversation_history: Vec::new() };
        assert(r.history() =~= Seq::<(Role, Seq<char>)>::empty());
        r
    }

    /// Number of messages in the conversation.
    pub fn history_len(&self) -> (r: usize)
        ensures
            r == self.history().len(),
    {
        self.conversation_history.len()
    }

    /// The message at `index` of the conversation.
    pub fn history_entry(&self, index: usize) -> (r: &ChatMessage)
        requires
            index < self.history().len(),
        ensures
            r@ == self.history()[index as int],
    {
        &self.conversation_history[index]
    }

    /// Forgets the whole conversation; the configuration stays.
    pub fn clear_history(&mut self)
        ensures
            final(self).history() == Seq::<(Role, Seq<char>)>::empty(),
            final(self).spec_config() == old(self).spec_config(),
    {
        self.conversation_history.clear();
        assert(self.history() =~= Seq::<(Role, Seq<char>)>::empty());
    }

    /// The current configuration.
    pub fn config(&self) -> (r: &QwenConfig)
        ensures
            *r == self.spec_config(),
    {
        &self.config
    }

    /// Points later requests at `url`; nothing else changes.
    pub fn set_server_url(&mut self, url: String)
        ensures
            final(self).spec_config() == (QwenConfig { server_url: url, ..old(self).spec_config() }),
            final(self).history() == old(self).history(),
    {
        self.config.server_url = url;
    }

    /// Replaces the system prompt of later requests; nothing else changes.
    pub fn set_system_prompt(&mut self, prompt: String)
        ensures
            final(self).spec_config() == (QwenConfig {
                system_prompt: prompt,
                ..old(self).spec_config()
            }),
            final(self).history() == old(self).history(),
    {
        self.config.system_prompt = prompt;
    }

    /// Starts a chat turn: appends the user's message to the history and
    /// returns the request for `{server_url}/v1/chat/completions`, whose
    /// messages are the system prompt followed by the whole history.
    pub fn begin_chat(&mut self, user_message: &str, stream: bool) -> (r: ChatRequest)
        ensures
            began_chat(*old(self), *final(self), user_message@),
            views(r.messages@) == outbound_messages(
                old(self).spec_config().system_prompt@,
                final(self).history(),
            ),
            r.url@ == old(self).spec_config().server_url@ + "/v1/chat/completions"@,
            r.model@ == old(self).spec_config().model@,
            r.temperature_centi == old(self).spec_config().temperature_centi,
            r.max_tokens == old(self).spec_config().max_tokens,
            r.stream == stream,
    {
        self.conversation_history.push(
            ChatMessage { role: Role::User, content: user_message.to_string() },
        );
        assert(self.history() =~= old(self).history().push(user_entry(user_message@)));
        let mut messages: Vec<ChatMessage> = Vec::new();
        messages.push(ChatMessage { role: Role::System, content: self.config.system_prompt.clone() });
        let ghost first = seq![(Role::System, self.config.system_prompt@)];
        assert(views(messages@) =~= first);
        let mut i: usize = 0;
        while i < self.conversation_history.len()
            invariant
                i <= self.history().len(),
                self.history().len() == self.conversation_history@.len(),
                views(messages@) == first + self.history().take(i as int),
            decreases self.conversation_history@.len() - i,
        {
            let m = self.conversation_history[i].duplicate();
            let ghost prev = messages@;
            messages.push(m);
            assert(views(messages@) =~= views(prev).push(self.history()[i as int]));
            assert(self.history().take(i + 1) =~= self.history().take(i as int).push(
                self.history()[i as int],
            ));
            i = i + 1;
        }
        assert(self.history().take(i as int) =~= self.history());
        let mut url = self.config.server_url.clone();
        url.append("/v1/chat/completions");
        ChatRequest {
            url,
            model: self.config.model.clone(),
            messages,
            temperature_centi: self.config.temperature_centi,
            max_tokens: self.config.max_tokens,
            stream,
        }
    }

    /// Ends a chat turn with the service's answer. A failure status or a body
    /// that was not JSON (`reply` is `None`) is a service error and leaves the
    /// history as it is. Otherwise the reply's content, empty when missing,
    /// is appended to the history as the assistant's message, even when empty.
    pub fn complete_chat(&mut self, status: u16, reply: Option<ChatReply>) -> (r: Result<
        LLMResponse,
        VoiceError,
    >)
        ensures
            !is_success(status) ==> r == Err::<LLMResponse, VoiceError>(
                VoiceError::Status { stage: Stage::Llm, code: status },
            ),
            is_success(status) && reply is None ==> (r matches Err(
                VoiceError::Malformed { stage: Stage::Llm, .. },
            )),
            r is Err ==> unchanged(*old(self), *final(self)),
            is_success(status) && reply is Some ==> (r matches Ok(resp) && resp.text@
                == text_or_empty(reply->Some_0.content) && resp.finish_reason
                == reply->Some_0.finish_reason && answered(*old(self), *final(self), resp.text@)),
    {
        match check_status(Stage::Llm, status) {
            Err(e) => Err(e),
            Ok(()) => match reply {
                None => Err(
                    VoiceError::Malformed {
                        stage: Stage::Llm,
                        detail: String::from_str("chat response is not JSON"),
                    },
                ),
                Some(reply) => {
                    let text = match reply.content {
                        Some(t) => t,
                        None => String::new(),
                    };
                    self.conversation_history.push(
                        ChatMessage { role: Role::Assistant, content: text.clone() },
                    );
                    assert(self.history() =~= old(self).history().push(assistant_entry(text@)));
                    Ok(LLMResponse { text, finish_reason: reply.finish_reason })
                },
            },
        }
    }

    /// Ends a streamed chat turn whose deltas added up to `text`: the text is
    /// appended to the history as the assistant's message and the turn
    /// finishes with reason `stop`.
    pub fn finish_stream(&mut self, text: String) -> (r: LLMResponse)
        ensures
            answered(*old(self), *final(self), text@),
            r.text@ == text@,
            r.finish_reason matches Some(f) && f@ == "stop"@,
    {
        self.conversation_history.push(ChatMessage { role: Role::Assistant, content: text.clone() });
        assert(self.history() =~= old(self).history().push(assistant_entry(text@)));
        LLMResponse { text, finish_reason: Some(String::from_str("stop")) }
    }
}

/// Once the history is empty (as `clear_history` leaves it), the request that
/// the next `begin_chat` builds carries exactly the system prompt and the new
/// user message, with no earlier history.
pub proof fn lemma_cleared_history_request(
    cleared: QwenLLM,
    started: QwenLLM,
    user_message: Seq<char>,
)
    requires
        cleared.history() == Seq::<(Role, Seq<char>)>::empty(),
        began_chat(cleared, started, user_message),
    ensures
        outbound_messages(cleared.spec_config().system_prompt@, started.history()) == seq![
            (Role::System, cleared.spec_config().system_prompt@),
            (Role::User, user_message),
        ],
{
    assert(outbound_messages(cleared.spec_config().system_prompt@, started.history()) =~= seq![
        (Role::System, cleared.spec_config().system_prompt@),
        (Role::User, user_message),
    ]);
}

/// A chat call that succeeds (`begin_chat`, then `complete_chat` or
/// `finish_stream` returning the reply) leaves the earlier history intact and
/// adds exactly two entries: the user's message, then the assistant's reply,
/// whether or not the reply is empty.
pub proof fn lemma_chat_turn_adds_two(
    before: QwenLLM,
    started: QwenLLM,
    after: QwenLLM,
    user_message: Seq<char>,
    reply: Seq<char>,
)
    requires
        began_chat(before, started, user_message),
        answered(started, after, reply),
    ensures
        after.history().len() == before.history().len() + 2,
        after.history().take(before.history().len() as int) == before.history(),
        after.history()[before.history().len() as int] == user_entry(user_message),
        after.history()[before.history().len() + 1int] == assistant_entry(reply),
{
    assert(after.history().take(before.history().len() as int) =~= before.history());
}

} // verus!
