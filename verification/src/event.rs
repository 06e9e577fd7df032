//! The events that the agent prints, one JSON object per line, and what they carry.

use vstd::prelude::*;

use crate::text;

verus! {

/// An event of the agent.
#[derive(Debug, PartialEq, Eq)]
pub enum CopilotEvent {
    /// More of the answer.
    MessageDelta { data: MessageDeltaData },
    /// More of the reasoning.
    ReasoningDelta { data: ReasoningDeltaData },
    /// The answer so far, whole.
    Message { data: MessageData },
    /// The agent begins to run one of its tools.
    ToolStart { data: ToolStartData },
    /// The agent has run one of its tools.
    ToolComplete { data: ToolCompleteData },
    /// The end of the run.
    Result { usage: Option<CopilotUsage> },
    /// Any other event.
    Unknown,
}

#[derive(Debug, PartialEq, Eq)]
pub struct MessageDeltaData {
    pub delta_content: String,
}

#[derive(Debug, PartialEq, Eq)]
pub struct ReasoningDeltaData {
    pub delta_content: String,
}

#[derive(Debug, PartialEq, Eq)]
pub struct MessageData {
    pub content: String,
    pub output_tokens: Option<u64>,
}

#[derive(Debug, PartialEq, Eq)]
pub struct ToolStartData {
    pub tool_name: String,
}

#[derive(Debug, PartialEq, Eq)]
pub struct ToolCompleteData {
    pub tool_name: Option<String>,
}

#[derive(Clone, Copy, Debug, PartialEq, Eq, Structural)]
pub struct CopilotUsage {
    pub input_tokens: Option<u64>,
    pub output_tokens: Option<u64>,
    pub total_tokens: Option<u64>,
}

impl Default for CopilotUsage {
    fn default() -> (usage: CopilotUsage)
        ensures
            usage.input_tokens is None,
            usage.output_tokens is None,
            usage.total_tokens is None,
    {
        CopilotUsage { input_tokens: None, output_tokens: None, total_tokens: None }
    }
}

/// An event over plain text.
#[verifier::ext_equal]
pub enum EventView {
    MessageDelta { text: Seq<char> },
    ReasoningDelta { text: Seq<char> },
    Message { text: Seq<char>, output_tokens: Option<u64> },
    ToolStart { name: Seq<char> },
    ToolComplete { finished: Option<Seq<char>> },
    Result { usage: Option<CopilotUsage> },
    Unknown,
}

impl View for CopilotEvent {
    type V = EventView;

    open spec fn view(&self) -> EventView {
        match self {
            CopilotEvent::MessageDelta { data } => EventView::MessageDelta {
                text: data.delta_content@,
            },
            CopilotEvent::ReasoningDelta { data } => EventView::ReasoningDelta {
                text: data.delta_content@,
            },
            CopilotEvent::Message { data } => EventView::Message {
                text: data.content@,
                output_tokens: data.output_tokens,
            },
            CopilotEvent::ToolStart { data } => EventView::ToolStart { name: data.tool_name@ },
            CopilotEvent::ToolComplete { data } => EventView::ToolComplete {
                finished: text::opt_text(data.tool_name),
            },
            CopilotEvent::Result { usage } => EventView::Result { usage: *usage },
            CopilotEvent::Unknown => EventView::Unknown,
        }
    }
}

} // verus!
