//! Conversation messages, as far as the driver reads and writes them.

use vstd::prelude::*;

use crate::text;

verus! {

/// Who speaks in a message.
#[derive(Clone, Copy, Debug, PartialEq, Eq, Structural)]
pub enum Role {
    System,
    User,
    Assistant,
}

/// The content of a message: its text. A prompt carries nothing else.
#[derive(Debug, PartialEq, Eq)]
pub struct MessageContent {
    pub text: String,
}

impl MessageContent {
    /// Content that is the given text.
    pub fn text(text: &str) -> (content: MessageContent)
        ensures
            content.text@ == text@,
    {
        MessageContent { text: text.to_string() }
    }

    /// The text of the content.
    pub fn text_content(&self) -> (text: &str)
        ensures
            text@ == self.text@,
    {
        self.text.as_str()
    }
}

/// One message of a conversation.
#[derive(Debug, PartialEq, Eq)]
pub struct Message {
    pub role: Role,
    pub content: MessageContent,
}

/// A message as its role and its text.
#[verifier::ext_equal]
pub struct MessageView {
    pub role: Role,
    pub text: Seq<char>,
}

impl View for Message {
    type V = MessageView;

    open spec fn view(&self) -> MessageView {
        MessageView { role: self.role, text: self.content.text@ }
    }
}

/// The views of a list of messages.
pub open spec fn message_views(messages: Seq<Message>) -> Seq<MessageView> {
    Seq::new(messages.len(), |i: int| messages[i]@)
}

/// A piece of a reply.
#[derive(Debug, PartialEq, Eq)]
pub enum ContentBlock {
    /// Text, with what the provider has attached to it, if anything.
    Text { text: String, provider_metadata: Option<String> },
}

/// A piece of a reply, over plain text.
#[verifier::ext_equal]
pub enum ContentBlockView {
    Text { text: Seq<char>, provider_metadata: Option<Seq<char>> },
}

impl View for ContentBlock {
    type V = ContentBlockView;

    open spec fn view(&self) -> ContentBlockView {
        match self {
            ContentBlock::Text { text, provider_metadata } => ContentBlockView::Text {
                text: text@,
                provider_metadata: text::opt_text(*provider_metadata),
            },
        }
    }
}

/// The views of a list of content blocks.
pub open spec fn block_views(blocks: Seq<ContentBlock>) -> Seq<ContentBlockView> {
    Seq::new(blocks.len(), |i: int| blocks[i]@)
}

/// A tool that the model asks its caller to run.
#[derive(Debug, PartialEq, Eq)]
pub struct ToolCall {
    pub id: String,
    pub name: String,
    /// The arguments, as JSON text.
    pub input: String,
}

/// Why a reply ended.
#[derive(Clone, Copy, Debug, PartialEq, Eq, Structural)]
pub enum StopReason {
    /// The model had finished its turn.
    EndTurn,
}

/// Tokens spent on a request and on its reply.
#[derive(Clone, Copy, Debug, PartialEq, Eq, Structural)]
pub struct TokenUsage {
    pub input_tokens: u64,
    pub output_tokens: u64,
}

impl Default for TokenUsage {
    fn default() -> (usage: TokenUsage)
        ensures
            usage.input_tokens == 0,
            usage.output_tokens == 0,
    {
        TokenUsage { input_tokens: 0, output_tokens: 0 }
    }
}

} // verus!
