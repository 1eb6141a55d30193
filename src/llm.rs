use vstd::prelude::*;

use crate::config_value::Num;
use crate::text::owned;

verus! {

/// Who wrote a message.
#[derive(Clone, Copy, Debug, PartialEq, Eq, Structural)]
pub enum Role {
    System,
    User,
    Assistant,
}

/// One part of a multi-part message.
#[derive(Clone, Debug)]
pub enum ContentPart {
    Text(String),
    /// An image given by URL or inline data.
    ImageUrl(String),
}

/// The content of a message: plain text or a list of parts.
#[derive(Clone, Debug)]
pub enum MessageContent {
    Text(String),
    Parts(Vec<ContentPart>),
}

/// A message handed to a language model.
#[derive(Clone, Debug)]
pub struct ChatMessage {
    pub role: Role,
    pub content: MessageContent,
}

/// Why a language model call produced no reply.
#[derive(Clone, Debug)]
pub enum LlmFailure {
    /// The provider has no local implementation; it names the provider.
    NotImplemented(String),
    /// The call itself failed.
    Call(String),
    /// The token stream broke off.
    Stream(String),
}

/// What is sent to the model service for one completion.
#[derive(Clone, Debug)]
pub struct LlmRequest {
    pub messages: Vec<ChatMessage>,
    /// The model to use; none leaves the choice to the service.
    pub model: Option<String>,
    pub base_url: String,
    pub temperature: Option<Num>,
    /// The provider tag, for services that need it.
    pub provider: Option<String>,
}

/// An OpenAI-compatible provider.
#[derive(Clone, Debug)]
pub struct OpenAICompatibleLLM {
    pub model: String,
    pub base_url: String,
    pub api_key: String,
    pub organization_id: Option<String>,
    pub project_id: Option<String>,
    pub temperature: Num,
}

/// An Ollama server, which speaks the OpenAI-compatible protocol.
#[derive(Clone, Debug)]
pub struct OllamaLLM {
    pub inner: OpenAICompatibleLLM,
    pub keep_alive: Num,
    pub unload_at_exit: bool,
}

/// A `ClaudeLLM` provider; it carries its own system prompt. Without a configured model the
/// service's default model is used.
#[derive(Clone, Debug)]
pub struct ClaudeLLM {
    pub model: Option<String>,
    pub base_url: String,
    pub api_key: String,
    pub system: String,
}

/// A local llama.cpp model, not served here.
#[derive(Clone, Debug)]
pub struct LlamaCppLLM {
    pub model_path: String,
}

impl LlamaCppLLM {
    pub fn new(model_path: String) -> (r: Self)
        ensures
            r.model_path == model_path,
    {
        LlamaCppLLM { model_path }
    }
}

/// A stateless language model: everything it needs comes with each call.
#[derive(Clone, Debug)]
pub enum LlmAdapter {
    OpenAICompatible(OpenAICompatibleLLM),
    Ollama(OllamaLLM),
    Claude(ClaudeLLM),
    LlamaCpp(LlamaCppLLM),
}

/// `m` is a system message with text `text`.
pub open spec fn is_system_message(m: ChatMessage, text: Seq<char>) -> bool {
    &&& m.role == Role::System
    &&& m.content matches MessageContent::Text(t) && t@ == text
}

/// The messages of a request: the optional system message, then `messages` unchanged.
pub open spec fn request_messages(
    out: Seq<ChatMessage>,
    system: Option<Seq<char>>,
    messages: Seq<ChatMessage>,
) -> bool {
    match system {
        Some(s) => out.len() == messages.len() + 1 && is_system_message(out[0], s) && out.drop_first()
            == messages,
        None => out == messages,
    }
}

/// A system message with the given text.
fn system_message(text: &str) -> (r: ChatMessage)
    ensures
        is_system_message(r, text@),
{
    ChatMessage { role: Role::System, content: MessageContent::Text(owned(text)) }
}

/// The optional system message followed by `messages`.
fn prefixed(system: Option<&str>, messages: Vec<ChatMessage>) -> (r: Vec<ChatMessage>)
    ensures
        request_messages(
            r@,
            match system {
                Some(s) => Some(s@),
                None => None,
            },
            messages@,
        ),
{
    match system {
        Some(s) => {
            let mut out: Vec<ChatMessage> = Vec::new();
            out.push(system_message(s));
            let mut rest = messages;
            out.append(&mut rest);
            assert(out@.drop_first() =~= messages@);
            out
        },
        None => messages,
    }
}

impl LlmAdapter {
    /// Whether this provider has a local implementation.
    pub open spec fn is_served(self) -> bool {
        !(self is LlamaCpp)
    }

    /// The system text that leads the request, given the caller's `system`.
    pub open spec fn leading_system(self, system: Option<Seq<char>>) -> Option<Seq<char>> {
        match self {
            LlmAdapter::Claude(c) => Some(c.system@),
            _ => system,
        }
    }

    /// Builds the request for one completion over `messages`.
    /// `ClaudeLLM` always leads with its own system prompt; the others with `system`, if given.
    pub fn prepare_request(&self, messages: Vec<ChatMessage>, system: Option<&str>) -> (r: Result<
        LlmRequest,
        LlmFailure,
    >)
        ensures
            self.is_served() <==> r is Ok,
            !self.is_served() ==> (r matches Err(LlmFailure::NotImplemented(p)) && p@
                == "llama_cpp_llm"@),
            r matches Ok(req) ==> request_messages(
                req.messages@,
                self.leading_system(
                    match system {
                        Some(s) => Some(s@),
                        None => None,
                    },
                ),
                messages@,
            ),
            r matches Ok(req) ==> match *self {
                LlmAdapter::OpenAICompatible(o) => req.model == Some(o.model) && req.base_url
                    == o.base_url && req.temperature == Some(o.temperature) && req.provider is None,
                LlmAdapter::Ollama(o) => req.model == Some(o.inner.model) && req.base_url
                    == o.inner.base_url && req.temperature == Some(o.inner.temperature)
                    && req.provider is None,
                LlmAdapter::Claude(c) => req.model == c.model && req.base_url == c.base_url
                    && req.temperature is None && (req.provider matches Some(p) && p@ == "claude_llm"@),
                LlmAdapter::LlamaCpp(_) => false,
            },
    {
        match self {
            LlmAdapter::OpenAICompatible(o) => Ok(o.request(messages, system)),
            LlmAdapter::Ollama(o) => Ok(o.inner.request(messages, system)),
            LlmAdapter::Claude(c) => {
                let msgs = prefixed(Some(c.system.as_str()), messages);
                Ok(
                    LlmRequest {
                        messages: msgs,
                        model: crate::text::copy_opt(&c.model),
                        base_url: c.base_url.clone(),
                        temperature: None,
                        provider: Some(owned("claude_llm")),
                    },
                )
            },
            LlmAdapter::LlamaCpp(_) => Err(LlmFailure::NotImplemented(owned("llama_cpp_llm"))),
        }
    }
}

impl OpenAICompatibleLLM {
    fn request(&self, messages: Vec<ChatMessage>, system: Option<&str>) -> (r: LlmRequest)
        ensures
            request_messages(
                r.messages@,
                match system {
                    Some(s) => Some(s@),
                    None => None,
                },
                messages@,
            ),
            r.model == Some(self.model),
            r.base_url == self.base_url,
            r.temperature == Some(self.temperature),
            r.provider is None,
    {
        LlmRequest {
            messages: prefixed(system, messages),
            model: Some(self.model.clone()),
            base_url: self.base_url.clone(),
            temperature: Some(self.temperature.copy()),
            provider: None,
        }
    }
}

} // verus!
