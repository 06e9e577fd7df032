//! One run of the agent: what to do with each thing that happens while it runs.
//!
//! The caller owns the process and the channel. It reports what has happened as a
//! [`Progress`], and does what the returned [`Step`] says.

use vstd::prelude::*;
use vstd::string::*;

use crate::event;
use crate::event::CopilotEvent;
use crate::llm;
use crate::llm::{CompletionResponse, LlmError, StreamEvent};
use crate::message;
use crate::message::{ContentBlock, StopReason, TokenUsage};
use crate::text;

verus! {

/// Something that has happened to a run.
#[derive(Debug, PartialEq, Eq)]
pub enum Progress {
    /// The agent could not be started.
    SpawnFailed { error: String },
    /// The agent runs; whether its two output streams could be taken over.
    Spawned { has_stdout: bool, has_stderr: bool },
    /// A line of output was read.
    Line { line: String },
    /// The line that was to be parsed is an event.
    Event { event: CopilotEvent },
    /// The line that was to be parsed is no event.
    NotAnEvent,
    /// The output has ended, or can be read no further.
    EndOfOutput,
    /// The end of the agent could not be awaited.
    WaitFailed { error: String },
    /// The agent has ended; its exit code, if it has one, and its error output, if it
    /// could be read.
    Exited { success: bool, code: Option<i32>, stderr: Option<String> },
}

/// What the caller does next.
#[derive(Debug, PartialEq, Eq)]
pub enum Step {
    /// Read the next line of output.
    ReadLine,
    /// Parse the line as an event.
    ParseLine { line: String },
    /// Send the event to the consumer, then read the next line of output.
    Send { event: StreamEvent },
    /// Wait until the agent ends.
    AwaitExit,
    /// Give up with the error.
    Fail { error: LlmError },
    /// Send the event to the consumer, then return the response.
    Complete { event: StreamEvent, response: CompletionResponse },
}

/// Something that has happened to a run, over plain text.
#[verifier::ext_equal]
pub enum ProgressView {
    SpawnFailed { error: Seq<char> },
    Spawned { has_stdout: bool, has_stderr: bool },
    Line { line: Seq<char> },
    Event { event: event::EventView },
    NotAnEvent,
    EndOfOutput,
    WaitFailed { error: Seq<char> },
    Exited { success: bool, code: Option<i32>, stderr: Option<Seq<char>> },
}

impl View for Progress {
    type V = ProgressView;

    open spec fn view(&self) -> ProgressView {
        match self {
            Progress::SpawnFailed { error } => ProgressView::SpawnFailed { error: error@ },
            Progress::Spawned { has_stdout, has_stderr } => ProgressView::Spawned {
                has_stdout: *has_stdout,
                has_stderr: *has_stderr,
            },
            Progress::Line { line } => ProgressView::Line { line: line@ },
            Progress::Event { event } => ProgressView::Event { event: event@ },
            Progress::NotAnEvent => ProgressView::NotAnEvent,
            Progress::EndOfOutput => ProgressView::EndOfOutput,
            Progress::WaitFailed { error } => ProgressView::WaitFailed { error: error@ },
            Progress::Exited { success, code, stderr } => ProgressView::Exited {
                success: *success,
                code: *code,
                stderr: text::opt_text(*stderr),
            },
        }
    }
}

/// What the caller does next, over plain text.
#[verifier::ext_equal]
pub enum StepView {
    ReadLine,
    ParseLine { line: Seq<char> },
    Send { event: llm::StreamEventView },
    AwaitExit,
    Fail { error: llm::LlmErrorView },
    Complete { event: llm::StreamEventView, response: llm::ResponseView },
}

impl View for Step {
    type V = StepView;

    open spec fn view(&self) -> StepView {
        match self {
            Step::ReadLine => StepView::ReadLine,
            Step::ParseLine { line } => StepView::ParseLine { line: line@ },
            Step::Send { event } => StepView::Send { event: event@ },
            Step::AwaitExit => StepView::AwaitExit,
            Step::Fail { error } => StepView::Fail { error: error@ },
            Step::Complete { event, response } => StepView::Complete {
                event: event@,
                response: response@,
            },
        }
    }
}

/// What is known of a reply so far.
#[derive(Debug, PartialEq, Eq)]
pub struct StreamSession {
    pub full_text: String,
    pub usage: TokenUsage,
}

/// What is known of a reply so far, over plain text.
#[verifier::ext_equal]
pub struct SessionView {
    pub full_text: Seq<char>,
    pub usage: TokenUsage,
}

impl View for StreamSession {
    type V = SessionView;

    open spec fn view(&self) -> SessionView {
        SessionView { full_text: self.full_text@, usage: self.usage }
    }
}

/// A session of which nothing is known yet.
pub open spec fn fresh() -> SessionView {
    SessionView {
        full_text: Seq::empty(),
        usage: TokenUsage { input_tokens: 0, output_tokens: 0 },
    }
}

/// What an event adds to the answer.
pub open spec fn answer_text(event: event::EventView) -> Seq<char> {
    match event {
        event::EventView::MessageDelta { text } => text,
        _ => Seq::empty(),
    }
}

/// The number of input tokens that an event reports, if it reports one.
pub open spec fn reported_input(event: event::EventView) -> Option<u64> {
    match event {
        event::EventView::Result { usage: Some(usage) } => usage.input_tokens,
        _ => None,
    }
}

/// The number of output tokens that an event reports, if it reports one.
pub open spec fn reported_output(event: event::EventView) -> Option<u64> {
    match event {
        event::EventView::Message { output_tokens, .. } => output_tokens,
        event::EventView::Result { usage: Some(usage) } => usage.output_tokens,
        _ => None,
    }
}

/// The session after an event: the answer grows by what the event adds to it, and
/// what the event reports of the usage replaces what was known.
pub open spec fn absorbed(session: SessionView, event: event::EventView) -> SessionView {
    SessionView {
        full_text: session.full_text + answer_text(event),
        usage: TokenUsage {
            input_tokens: match reported_input(event) {
                Some(n) => n,
                None => session.usage.input_tokens,
            },
            output_tokens: match reported_output(event) {
                Some(n) => n,
                None => session.usage.output_tokens,
            },
        },
    }
}

/// What the consumer sees of an event: the answer as text, the reasoning and the
/// tools as thinking, and nothing of all else.
pub open spec fn shown(event: event::EventView) -> Option<llm::StreamEventView> {
    match event {
        event::EventView::MessageDelta { text } => Some(llm::StreamEventView::TextDelta { text }),
        event::EventView::ReasoningDelta { text } => Some(
            llm::StreamEventView::ThinkingDelta { text },
        ),
        event::EventView::ToolStart { name } => Some(
            llm::StreamEventView::ThinkingDelta {
                text: "\n[Executing tool: "@ + name + "]\n"@,
            },
        ),
        event::EventView::ToolComplete { finished: Some(name) } => Some(
            llm::StreamEventView::ThinkingDelta { text: "[Tool complete: "@ + name + "]\n"@ },
        ),
        _ => None,
    }
}

/// The exit code that is reported: 1 where the agent has none.
pub open spec fn exit_code(code: Option<i32>) -> i32 {
    match code {
        Some(c) => c,
        None => 1,
    }
}

/// The error output that is reported.
pub open spec fn error_output(stderr: Option<Seq<char>>) -> Seq<char> {
    match stderr {
        Some(s) => s,
        None => "<stderr read failed>"@,
    }
}

/// The error of an agent that failed and said nothing: its exit code modulo 2^16 as
/// the status, and a message with the code and the trimmed error output.
pub open spec fn silent_failure(code: Option<i32>, stderr: Option<Seq<char>>) -> llm::LlmErrorView {
    llm::LlmErrorView::Api {
        status: (exit_code(code) as int % 0x1_0000) as u16,
        message: "Copilot CLI exited with error (code "@ + text::decimal_int(exit_code(code) as int)
            + ") and produced no output. \nStderr: "@ + text::trimmed(error_output(stderr)),
    }
}

/// The end of a reply: what the consumer sees last.
pub open spec fn completion_event(session: SessionView) -> llm::StreamEventView {
    llm::StreamEventView::ContentComplete {
        stop_reason: StopReason::EndTurn,
        usage: session.usage,
    }
}

/// The whole reply: the answer as a single block of text, and no tool calls.
pub open spec fn response(session: SessionView) -> llm::ResponseView {
    llm::ResponseView {
        content: seq![
            message::ContentBlockView::Text {
                text: session.full_text,
                provider_metadata: None,
            },
        ],
        stop_reason: StopReason::EndTurn,
        tool_calls: Seq::empty(),
        usage: session.usage,
    }
}

/// The error of an agent that could not be started.
pub open spec fn spawn_failure(error: Seq<char>) -> llm::LlmErrorView {
    llm::LlmErrorView::Http(
        "Copilot CLI not found or failed to start ("@ + error
            + "). Install: npm install -g @githubnext/github-copilot-cli"@,
    )
}

/// The error of an agent whose end could not be awaited.
pub open spec fn wait_failure(error: Seq<char>) -> llm::LlmErrorView {
    llm::LlmErrorView::Http("Copilot CLI wait failed: "@ + error)
}

/// The error of a background run that did not come to its end.
pub open spec fn join_failure(error: Seq<char>) -> llm::LlmErrorView {
    llm::LlmErrorView::Http("Join error: "@ + error)
}

/// The session after something has happened: only events change it.
pub open spec fn next_session(session: SessionView, progress: ProgressView) -> SessionView {
    match progress {
        ProgressView::Event { event } => absorbed(session, event),
        _ => session,
    }
}

/// What the caller does after something has happened.
pub open spec fn next_step(session: SessionView, progress: ProgressView) -> StepView {
    match progress {
        ProgressView::SpawnFailed { error } => StepView::Fail { error: spawn_failure(error) },
        ProgressView::Spawned { has_stdout, has_stderr } => if !has_stdout {
            StepView::Fail { error: llm::LlmErrorView::Http("No stdout from copilot CLI"@) }
        } else if !has_stderr {
            StepView::Fail { error: llm::LlmErrorView::Http("No stderr from copilot CLI"@) }
        } else {
            StepView::ReadLine
        },
        ProgressView::Line { line } => if text::blank(line) {
            StepView::ReadLine
        } else {
            StepView::ParseLine { line }
        },
        ProgressView::Event { event } => match shown(event) {
            Some(event) => StepView::Send { event },
            None => StepView::ReadLine,
        },
        ProgressView::NotAnEvent => StepView::ReadLine,
        ProgressView::EndOfOutput => StepView::AwaitExit,
        ProgressView::WaitFailed { error } => StepView::Fail { error: wait_failure(error) },
        ProgressView::Exited { success, code, stderr } => if !success && session.full_text.len()
            == 0 {
            StepView::Fail { error: silent_failure(code, stderr) }
        } else {
            StepView::Complete {
                event: completion_event(session),
                response: response(session),
            }
        },
    }
}

/// `inner` between `front` and `back`.
fn framed(front: &str, inner: &str, back: &str) -> (whole: String)
    ensures
        whole@ == front@ + inner@ + back@,
{
    front.to_string().concat(inner).concat(back)
}

/// The status of an exit code: its lowest 16 bits.
fn status(code: i32) -> (status: u16)
    ensures
        status == code as int % 0x1_0000,
{
    let status: u16 = #[verifier::truncate] (code as u16);
    assert(code as u16 == code % 0x1_0000) by (bit_vector);
    status
}

/// The error of an agent that could not be started.
pub fn spawn_error(error: &str) -> (e: LlmError)
    ensures
        e@ == spawn_failure(error@),
{
    LlmError::Http(
        framed(
            "Copilot CLI not found or failed to start (",
            error,
            "). Install: npm install -g @githubnext/github-copilot-cli",
        ),
    )
}

/// The error of an agent whose end could not be awaited.
pub fn wait_error(error: &str) -> (e: LlmError)
    ensures
        e@ == wait_failure(error@),
{
    LlmError::Http("Copilot CLI wait failed: ".to_string().concat(error))
}

/// The error of a background run that did not come to its end.
pub fn join_error(error: &str) -> (e: LlmError)
    ensures
        e@ == join_failure(error@),
{
    LlmError::Http("Join error: ".to_string().concat(error))
}

/// The error of an agent that failed and said nothing.
pub fn silent_error(code: Option<i32>, stderr: Option<String>) -> (e: LlmError)
    ensures
        e@ == silent_failure(code, text::opt_text(stderr)),
{
    let code: i32 = match code {
        Some(c) => c,
        None => 1,
    };
    let stderr: String = match stderr {
        Some(s) => s,
        None => "<stderr read failed>".to_string(),
    };
    let message: String = framed(
        "Copilot CLI exited with error (code ",
        text::decimal(code).as_str(),
        ") and produced no output. \nStderr: ",
    ).concat(text::trim(stderr.as_str()));
    LlmError::Api { status: status(code), message }
}

/// The result of a run that went on in the background: its own, if it came to its end.
pub fn background_result(
    joined: Result<Result<CompletionResponse, LlmError>, String>,
) -> (result: Result<CompletionResponse, LlmError>)
    ensures
        match joined {
            Ok(own) => result == own,
            Err(error) => result is Err && result->Err_0@ == join_failure(error@),
        },
{
    match joined {
        Ok(own) => own,
        Err(error) => Err(join_error(error.as_str())),
    }
}

/// The session after a number of things have happened to it, one after the other.
pub open spec fn session_after(session: SessionView, run: Seq<ProgressView>) -> SessionView
    decreases run.len(),
{
    if run.len() == 0 {
        session
    } else {
        next_session(session_after(session, run.drop_last()), run.last())
    }
}

/// The steps that the caller was told to take meanwhile.
pub open spec fn steps_taken(session: SessionView, run: Seq<ProgressView>) -> Seq<StepView>
    decreases run.len(),
{
    if run.len() == 0 {
        Seq::empty()
    } else {
        let before = run.drop_last();
        steps_taken(session, before).push(
            next_step(session_after(session, before), run.last()),
        )
    }
}

/// The text that a step shows the consumer as part of the answer.
pub open spec fn step_text(step: StepView) -> Seq<char> {
    match step {
        StepView::Send { event: llm::StreamEventView::TextDelta { text } } => text,
        _ => Seq::empty(),
    }
}

/// All the text that the consumer was shown as part of the answer.
pub open spec fn text_shown(steps: Seq<StepView>) -> Seq<char>
    decreases steps.len(),
{
    if steps.len() == 0 {
        Seq::empty()
    } else {
        text_shown(steps.drop_last()) + step_text(steps.last())
    }
}

/// The number of input tokens that something reports, if it reports one.
pub open spec fn input_report(progress: ProgressView) -> Option<u64> {
    match progress {
        ProgressView::Event { event } => reported_input(event),
        _ => None,
    }
}

/// The number of output tokens that something reports, if it reports one.
pub open spec fn output_report(progress: ProgressView) -> Option<u64> {
    match progress {
        ProgressView::Event { event } => reported_output(event),
        _ => None,
    }
}

impl StreamSession {
    /// A session of which nothing is known yet.
    pub fn new() -> (session: StreamSession)
        ensures
            session@ == fresh(),
    {
        StreamSession { full_text: String::new(), usage: TokenUsage::default() }
    }

    /// Takes in an event; what the consumer sees of it.
    pub fn absorb(&mut self, event: CopilotEvent) -> (out: Option<StreamEvent>)
        ensures
            final(self)@ == absorbed(old(self)@, event@),
            match out {
                Some(e) => shown(event@) == Some(e@),
                None => shown(event@) is None,
            },
            match event {
                CopilotEvent::MessageDelta { data } => {
                    &&& final(self).full_text@ == old(self).full_text@ + data.delta_content@
                    &&& final(self).usage == old(self).usage
                    &&& out matches Some(StreamEvent::TextDelta { text })
                    &&& text@ == data.delta_content@
                },
                _ => final(self).full_text@ == old(self).full_text@,
            },
    {
        match event {
            CopilotEvent::MessageDelta { data } => {
                let text: String = data.delta_content;
                self.full_text.append(text.as_str());
                Some(StreamEvent::TextDelta { text })
            },
            CopilotEvent::ReasoningDelta { data } => {
                Some(StreamEvent::ThinkingDelta { text: data.delta_content })
            },
            CopilotEvent::Message { data } => {
                if let Some(n) = data.output_tokens {
                    self.usage.output_tokens = n;
                }
                None
            },
            CopilotEvent::ToolStart { data } => {
                let text: String = framed("\n[Executing tool: ", data.tool_name.as_str(), "]\n");
                Some(StreamEvent::ThinkingDelta { text })
            },
            CopilotEvent::ToolComplete { data } => {
                match data.tool_name {
                    Some(name) => {
                        let text: String = framed("[Tool complete: ", name.as_str(), "]\n");
                        Some(StreamEvent::ThinkingDelta { text })
                    },
                    None => None,
                }
            },
            CopilotEvent::Result { usage } => {
                if let Some(u) = usage {
                    if let Some(n) = u.input_tokens {
                        self.usage.input_tokens = n;
                    }
                    if let Some(n) = u.output_tokens {
                        self.usage.output_tokens = n;
                    }
                }
                None
            },
            CopilotEvent::Unknown => None,
        }
    }

    /// The whole reply.
    pub fn response(&self) -> (r: CompletionResponse)
        ensures
            r@ == response(self@),
    {
        let block: ContentBlock = ContentBlock::Text {
            text: self.full_text.clone(),
            provider_metadata: None,
        };
        CompletionResponse {
            content: vec![block],
            stop_reason: StopReason::EndTurn,
            tool_calls: Vec::new(),
            usage: self.usage,
        }
    }

    /// Takes in something that has happened; what to do next.
    pub fn advance(&mut self, progress: Progress) -> (step: Step)
        ensures
            final(self)@ == next_session(old(self)@, progress@),
            step@ == next_step(old(self)@, progress@),
    {
        match progress {
            Progress::SpawnFailed { error } => Step::Fail { error: spawn_error(error.as_str()) },
            Progress::Spawned { has_stdout, has_stderr } => {
                if !has_stdout {
                    Step::Fail { error: LlmError::Http("No stdout from copilot CLI".to_string()) }
                } else if !has_stderr {
                    Step::Fail { error: LlmError::Http("No stderr from copilot CLI".to_string()) }
                } else {
                    Step::ReadLine
                }
            },
            Progress::Line { line } => {
                if text::is_blank(line.as_str()) {
                    Step::ReadLine
                } else {
                    Step::ParseLine { line }
                }
            },
            Progress::Event { event } => {
                match self.absorb(event) {
                    Some(event) => Step::Send { event },
                    None => Step::ReadLine,
                }
            },
            Progress::NotAnEvent => Step::ReadLine,
            Progress::EndOfOutput => Step::AwaitExit,
            Progress::WaitFailed { error } => Step::Fail { error: wait_error(error.as_str()) },
            Progress::Exited { success, code, stderr } => {
                if !success && self.full_text.as_str().is_empty() {
                    Step::Fail { error: silent_error(code, stderr) }
                } else {
                    let event: StreamEvent = StreamEvent::ContentComplete {
                        stop_reason: StopReason::EndTurn,
                        usage: self.usage,
                    };
                    Step::Complete { event, response: self.response() }
                }
            },
        }
    }
}

} // verus!
