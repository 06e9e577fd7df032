//! Requests to a language model, its replies, and what can go wrong.

use vstd::prelude::*;

use crate::message;
use crate::message::{ContentBlock, Message, StopReason, TokenUsage, ToolCall};
use crate::text;

verus! {

/// How much thinking a request asks for.
#[derive(Clone, Copy, Debug, PartialEq, Eq, Structural)]
pub struct ThinkingConfig {
    pub budget_tokens: u64,
}

/// A request for a completion.
#[derive(Debug, PartialEq, Eq)]
pub struct CompletionRequest {
    pub model: String,
    pub messages: Vec<Message>,
    /// The most tokens wanted in the reply. The command line agent sets its own limit.
    pub max_tokens: u32,
    pub system: Option<String>,
    pub thinking: Option<ThinkingConfig>,
}

/// A request over plain text.
#[verifier::ext_equal]
pub struct RequestView {
    pub model: Seq<char>,
    pub messages: Seq<message::MessageView>,
    pub max_tokens: u32,
    pub system: Option<Seq<char>>,
    pub thinking: Option<ThinkingConfig>,
}

impl View for CompletionRequest {
    type V = RequestView;

    open spec fn view(&self) -> RequestView {
        RequestView {
            model: self.model@,
            messages: message::message_views(self.messages@),
            max_tokens: self.max_tokens,
            system: text::opt_text(self.system),
            thinking: self.thinking,
        }
    }
}

/// A complete reply.
#[derive(Debug, PartialEq, Eq)]
pub struct CompletionResponse {
    pub content: Vec<ContentBlock>,
    pub stop_reason: StopReason,
    pub tool_calls: Vec<ToolCall>,
    pub usage: TokenUsage,
}

/// A complete reply over plain text.
#[verifier::ext_equal]
pub struct ResponseView {
    pub content: Seq<message::ContentBlockView>,
    pub stop_reason: StopReason,
    pub tool_calls: Seq<ToolCall>,
    pub usage: TokenUsage,
}

impl View for CompletionResponse {
    type V = ResponseView;

    open spec fn view(&self) -> ResponseView {
        ResponseView {
            content: message::block_views(self.content@),
            stop_reason: self.stop_reason,
            tool_calls: self.tool_calls@,
            usage: self.usage,
        }
    }
}

/// Why a request failed.
#[derive(Debug, PartialEq, Eq)]
pub enum LlmError {
    /// The agent could not be reached.
    Http(String),
    /// The agent ran and failed.
    Api { status: u16, message: String },
}

/// Why a request failed, over plain text.
#[verifier::ext_equal]
pub enum LlmErrorView {
    Http(Seq<char>),
    Api { status: u16, message: Seq<char> },
}

impl View for LlmError {
    type V = LlmErrorView;

    open spec fn view(&self) -> LlmErrorView {
        match self {
            LlmError::Http(message) => LlmErrorView::Http(message@),
            LlmError::Api { status, message } => LlmErrorView::Api {
                status: *status,
                message: message@,
            },
        }
    }
}

/// What a caller sees of a reply while it comes in.
#[derive(Debug, PartialEq, Eq)]
pub enum StreamEvent {
    TextDelta { text: String },
    ThinkingDelta { text: String },
    ContentComplete { stop_reason: StopReason, usage: TokenUsage },
}

/// What a caller sees of a reply, over plain text.
#[verifier::ext_equal]
pub enum StreamEventView {
    TextDelta { text: Seq<char> },
    ThinkingDelta { text: Seq<char> },
    ContentComplete { stop_reason: StopReason, usage: TokenUsage },
}

impl View for StreamEvent {
    type V = StreamEventView;

    open spec fn view(&self) -> StreamEventView {
        match self {
            StreamEvent::TextDelta { text } => StreamEventView::TextDelta { text: text@ },
            StreamEvent::ThinkingDelta { text } => StreamEventView::ThinkingDelta { text: text@ },
            StreamEvent::ContentComplete { stop_reason, usage } => {
                StreamEventView::ContentComplete { stop_reason: *stop_reason, usage: *usage }
            },
        }
    }
}

} // verus!
