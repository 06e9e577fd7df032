//! What a run gives back of what the agent prints, whatever the agent prints.

use vstd::prelude::*;

use crate::event;
use crate::event::{CopilotEvent, CopilotUsage};
use crate::laws;
use crate::llm;
use crate::llm::{CompletionResponse, LlmError, StreamEvent};
use crate::message;
use crate::message::{ContentBlock, StopReason};
use crate::session;
use crate::session::{Progress, Step, StreamSession};
use crate::text;
use crate::text_laws;

verus! {

/// The texts of the message deltas of a run, one after the other.
pub open spec fn delta_texts(run: Seq<session::ProgressView>) -> Seq<char>
    decreases run.len(),
{
    if run.len() == 0 {
        Seq::empty()
    } else {
        match run.last() {
            session::ProgressView::Event { event: event::EventView::MessageDelta { text } } => {
                delta_texts(run.drop_last()) + text
            },
            _ => delta_texts(run.drop_last()),
        }
    }
}

/// A session begins without an answer and without usage.
pub proof fn law_a_session_begins_empty()
    ensures
        session::fresh().full_text.len() == 0,
        session::fresh().usage.input_tokens == 0,
        session::fresh().usage.output_tokens == 0,
{
}

/// An answer is, at any time, the texts of all message deltas, whole and in order.
pub proof fn law_answer_is_all_message_deltas(run: Seq<session::ProgressView>)
    ensures
        session::session_after(session::fresh(), run).full_text == delta_texts(run),
    decreases run.len(),
{
    if run.len() > 0 {
        law_answer_is_all_message_deltas(run.drop_last());
        assert(session::session_after(session::fresh(), run).full_text =~= delta_texts(run));
    }
}

/// Each message delta is sent to the consumer as text, whole, as soon as it is read.
pub proof fn law_each_message_delta_is_sent(
    start: session::SessionView,
    run: Seq<session::ProgressView>,
    i: int,
    text: Seq<char>,
)
    requires
        0 <= i < run.len(),
        run[i] == (session::ProgressView::Event {
            event: event::EventView::MessageDelta { text },
        }),
    ensures
        session::steps_taken(start, run).len() == run.len(),
        session::steps_taken(start, run)[i] == (session::StepView::Send {
            event: llm::StreamEventView::TextDelta { text },
        }),
    decreases run.len(),
{
    laws::law_completion_comes_last(start, run, i);
    if i < run.len() - 1 {
        law_each_message_delta_is_sent(start, run.drop_last(), i, text);
    } else {
        laws::lemma_steps_len(start, run.drop_last());
    }
}

/// What the consumer sees of each event: deltas of the message as text, deltas of the
/// reasoning as thinking, the start and the named end of a tool as a line of thinking,
/// and of all other events nothing.
pub proof fn law_each_event_is_shown_as_it_is(
    s: session::SessionView,
    e: event::EventView,
)
    ensures
        session::next_step(s, session::ProgressView::Event { event: e }) == (match e {
            event::EventView::MessageDelta { text } => session::StepView::Send {
                event: llm::StreamEventView::TextDelta { text },
            },
            event::EventView::ReasoningDelta { text } => session::StepView::Send {
                event: llm::StreamEventView::ThinkingDelta { text },
            },
            event::EventView::ToolStart { name } => session::StepView::Send {
                event: llm::StreamEventView::ThinkingDelta {
                    text: "\n[Executing tool: "@ + name + "]\n"@,
                },
            },
            event::EventView::ToolComplete { finished: Some(name) } => session::StepView::Send {
                event: llm::StreamEventView::ThinkingDelta {
                    text: "[Tool complete: "@ + name + "]\n"@,
                },
            },
            event::EventView::ToolComplete { finished: None } => session::StepView::ReadLine,
            event::EventView::Message { .. } => session::StepView::ReadLine,
            event::EventView::Result { .. } => session::StepView::ReadLine,
            event::EventView::Unknown => session::StepView::ReadLine,
        }),
{
}

/// What each event changes: a delta of the message lengthens the answer by its text;
/// the number of output tokens of a message, and either number of a result, replaces
/// the one known; and nothing else changes anything.
pub proof fn law_each_event_changes_what_it_carries(
    s: session::SessionView,
    e: event::EventView,
)
    ensures
        ({
            let after = session::next_session(s, session::ProgressView::Event { event: e });
            match e {
                event::EventView::MessageDelta { text } => {
                    &&& after.full_text == s.full_text + text
                    &&& after.usage == s.usage
                },
                event::EventView::Message { output_tokens, .. } => {
                    &&& after.full_text == s.full_text
                    &&& after.usage.input_tokens == s.usage.input_tokens
                    &&& output_tokens is Some ==> after.usage.output_tokens == output_tokens->0
                    &&& output_tokens is None ==> after.usage.output_tokens
                        == s.usage.output_tokens
                },
                event::EventView::Result { usage: Some(u) } => {
                    &&& after.full_text == s.full_text
                    &&& u.input_tokens is Some ==> after.usage.input_tokens == u.input_tokens->0
                    &&& u.input_tokens is None ==> after.usage.input_tokens
                        == s.usage.input_tokens
                    &&& u.output_tokens is Some ==> after.usage.output_tokens
                        == u.output_tokens->0
                    &&& u.output_tokens is None ==> after.usage.output_tokens
                        == s.usage.output_tokens
                },
                _ => after == s,
            }
        }),
{
    let after = session::next_session(s, session::ProgressView::Event { event: e });
    if e !is MessageDelta {
        assert(after.full_text =~= s.full_text);
    }
}

/// Where the last result that gives a number of input tokens gives `n`, the reply and
/// the last event of a completed run tell of `n` input tokens.
pub proof fn law_input_tokens_are_those_of_the_last_result(
    run: Seq<session::ProgressView>,
    i: int,
    given: CopilotUsage,
    n: u64,
    end: session::ProgressView,
)
    requires
        0 <= i < run.len(),
        run[i] == (session::ProgressView::Event {
            event: event::EventView::Result { usage: Some(given) },
        }),
        given.input_tokens == Some(n),
        forall|j: int|
            i < j < run.len() ==> match #[trigger] run[j] {
                session::ProgressView::Event {
                    event: event::EventView::Result { usage: Some(u) },
                } => u.input_tokens is None,
                _ => true,
            },
        end is Exited,
    ensures
        session::session_after(session::fresh(), run).usage.input_tokens == n,
        match session::next_step(session::session_after(session::fresh(), run), end) {
            session::StepView::Complete { event, response } => {
                &&& response.usage.input_tokens == n
                &&& event matches llm::StreamEventView::ContentComplete { usage, .. }
                    && usage.input_tokens == n
            },
            _ => true,
        },
{
    assert forall|j: int| i < j < run.len() implies session::input_report(#[trigger] run[j])
        is None by {}
    laws::law_last_input_report_counts(session::fresh(), run, i);
}

/// Where the last message or result that gives a number of output tokens gives `n`, the
/// reply and the last event of a completed run tell of `n` output tokens.
pub proof fn law_output_tokens_are_those_of_the_last_report(
    run: Seq<session::ProgressView>,
    i: int,
    n: u64,
    end: session::ProgressView,
)
    requires
        0 <= i < run.len(),
        match run[i] {
            session::ProgressView::Event { event: event::EventView::Message { output_tokens, .. } }
            => output_tokens == Some(n),
            session::ProgressView::Event { event: event::EventView::Result { usage: Some(u) } } =>
            u.output_tokens == Some(n),
            _ => false,
        },
        forall|j: int|
            i < j < run.len() ==> match #[trigger] run[j] {
                session::ProgressView::Event {
                    event: event::EventView::Message { output_tokens, .. },
                } => output_tokens is None,
                session::ProgressView::Event {
                    event: event::EventView::Result { usage: Some(u) },
                } => u.output_tokens is None,
                _ => true,
            },
        end is Exited,
    ensures
        session::session_after(session::fresh(), run).usage.output_tokens == n,
        match session::next_step(session::session_after(session::fresh(), run), end) {
            session::StepView::Complete { event, response } => {
                &&& response.usage.output_tokens == n
                &&& event matches llm::StreamEventView::ContentComplete { usage, .. }
                    && usage.output_tokens == n
            },
            _ => true,
        },
{
    assert forall|j: int| i < j < run.len() implies session::output_report(#[trigger] run[j])
        is None by {}
    laws::law_last_output_report_counts(session::fresh(), run, i);
}

/// Where no result gives a number of input tokens, it is 0; where no message and no
/// result gives a number of output tokens, that is 0.
pub proof fn law_tokens_are_zero_unless_reported(run: Seq<session::ProgressView>)
    ensures
        (forall|j: int|
            0 <= j < run.len() ==> match #[trigger] run[j] {
                session::ProgressView::Event {
                    event: event::EventView::Result { usage: Some(u) },
                } => u.input_tokens is None,
                _ => true,
            }) ==> session::session_after(session::fresh(), run).usage.input_tokens == 0,
        (forall|j: int|
            0 <= j < run.len() ==> match #[trigger] run[j] {
                session::ProgressView::Event {
                    event: event::EventView::Message { output_tokens, .. },
                } => output_tokens is None,
                session::ProgressView::Event {
                    event: event::EventView::Result { usage: Some(u) },
                } => u.output_tokens is None,
                _ => true,
            }) ==> session::session_after(session::fresh(), run).usage.output_tokens == 0,
{
    laws::law_usage_stays_without_reports(session::fresh(), run);
}

/// The end of a run. If the agent ended well, or any message delta had text, the run is
/// complete: the reply is one block with the texts of all message deltas and no tool
/// calls, and the last event and the reply tell of the same usage. Otherwise the run
/// fails, with the exit code and the error output.
pub proof fn law_end_of_a_run(
    run: Seq<session::ProgressView>,
    success: bool,
    code: Option<i32>,
    stderr: Option<Seq<char>>,
)
    ensures
        ({
            let s = session::session_after(session::fresh(), run);
            let step = session::next_step(
                s,
                session::ProgressView::Exited { success, code, stderr },
            );
            if success || delta_texts(run).len() > 0 {
                step == (session::StepView::Complete {
                    event: llm::StreamEventView::ContentComplete {
                        stop_reason: StopReason::EndTurn,
                        usage: s.usage,
                    },
                    response: llm::ResponseView {
                        content: seq![
                            message::ContentBlockView::Text {
                                text: delta_texts(run),
                                provider_metadata: None,
                            },
                        ],
                        stop_reason: StopReason::EndTurn,
                        tool_calls: Seq::empty(),
                        usage: s.usage,
                    },
                })
            } else {
                step is Fail
            }
        }),
{
    law_answer_is_all_message_deltas(run);
}

/// An agent that fails without an answer: the status is the exit code, or 1 where there
/// is none, as far as it fits into 16 bits; the message has the code in decimal and the
/// error output without the white space around it.
pub proof fn law_silent_failure_tells_code_and_error_output(
    s: session::SessionView,
    code: Option<i32>,
    stderr: Option<Seq<char>>,
)
    requires
        s.full_text.len() == 0,
    ensures
        ({
            let told = if code is Some {
                code->0
            } else {
                1i32
            };
            let output = if stderr is Some {
                stderr->0
            } else {
                "<stderr read failed>"@
            };
            match session::next_step(
                s,
                session::ProgressView::Exited { success: false, code, stderr },
            ) {
                session::StepView::Fail {
                    error: llm::LlmErrorView::Api { status, message },
                } => {
                    &&& (told - status) % 0x1_0000 == 0
                    &&& 0 <= told < 0x1_0000 ==> status == told
                    &&& message == "Copilot CLI exited with error (code "@ + text::decimal_int(
                        told as int,
                    ) + ") and produced no output. \nStderr: "@ + text::trimmed(output)
                },
                _ => false,
            }
        }),
{
}

/// What is done in all other events of a run: what cannot be started, taken over or
/// awaited fails with an error that says so; lines of white space are passed over, and
/// all other lines are parsed as they are; what is no event is passed over; and at the
/// end of the output the end of the agent is awaited.
pub proof fn law_steps_of_a_run(
    s: session::SessionView,
    error: Seq<char>,
    line: Seq<char>,
    has_stdout: bool,
    has_stderr: bool,
)
    ensures
        session::next_step(s, session::ProgressView::SpawnFailed { error }) == (
        session::StepView::Fail {
            error: llm::LlmErrorView::Http(
                "Copilot CLI not found or failed to start ("@ + error
                    + "). Install: npm install -g @githubnext/github-copilot-cli"@,
            ),
        }),
        session::next_step(s, session::ProgressView::Spawned { has_stdout, has_stderr }) == (
        if has_stdout && has_stderr {
            session::StepView::ReadLine
        } else if !has_stdout {
            session::StepView::Fail {
                error: llm::LlmErrorView::Http("No stdout from copilot CLI"@),
            }
        } else {
            session::StepView::Fail {
                error: llm::LlmErrorView::Http("No stderr from copilot CLI"@),
            }
        }),
        (forall|i: int| 0 <= i < line.len() ==> text_laws::is_white(#[trigger] line[i]))
            ==> session::next_step(s, session::ProgressView::Line { line })
            == session::StepView::ReadLine,
        (exists|i: int| 0 <= i < line.len() && !text_laws::is_white(#[trigger] line[i]))
            ==> session::next_step(s, session::ProgressView::Line { line }) == (
        session::StepView::ParseLine { line }),
        session::next_step(s, session::ProgressView::NotAnEvent) == session::StepView::ReadLine,
        session::next_step(s, session::ProgressView::EndOfOutput) == session::StepView::AwaitExit,
        session::next_step(s, session::ProgressView::WaitFailed { error }) == (
        session::StepView::Fail {
            error: llm::LlmErrorView::Http("Copilot CLI wait failed: "@ + error),
        }),
{
    text_laws::law_blank_means_white_throughout(line);
}

/// The errors say what went wrong, in the words of what reported it.
pub proof fn law_errors_carry_their_cause(error: Seq<char>)
    ensures
        session::spawn_failure(error) == llm::LlmErrorView::Http(
            "Copilot CLI not found or failed to start ("@ + error
                + "). Install: npm install -g @githubnext/github-copilot-cli"@,
        ),
        session::wait_failure(error) == llm::LlmErrorView::Http(
            "Copilot CLI wait failed: "@ + error,
        ),
        session::join_failure(error) == llm::LlmErrorView::Http("Join error: "@ + error),
{
}

/// A run does with an event what the session does with it alone, ends with the reply
/// that the session gives, and fails with the error of a silent agent.
pub proof fn law_a_run_uses_its_session(
    s: session::SessionView,
    e: event::EventView,
    code: Option<i32>,
    stderr: Option<Seq<char>>,
)
    ensures
        session::absorbed(s, e) == session::next_session(
            s,
            session::ProgressView::Event { event: e },
        ),
        match session::next_step(s, session::ProgressView::Event { event: e }) {
            session::StepView::Send { event } => session::shown(e) == Some(event),
            _ => session::shown(e) is None,
        },
        match session::next_step(
            s,
            session::ProgressView::Exited { success: true, code, stderr },
        ) {
            session::StepView::Complete { response, .. } => session::response(s) == response,
            _ => false,
        },
        s.full_text.len() == 0 ==> session::next_step(
            s,
            session::ProgressView::Exited { success: false, code, stderr },
        ) == (session::StepView::Fail { error: session::silent_failure(code, stderr) }),
{
}

/// The reply of a session: its answer as one block of text, its usage, no tool calls.
pub proof fn law_reply_is_the_answer(s: session::SessionView)
    ensures
        session::response(s).content.len() == 1,
        session::response(s).content[0] == (message::ContentBlockView::Text {
            text: s.full_text,
            provider_metadata: None,
        }),
        session::response(s).stop_reason == StopReason::EndTurn,
        session::response(s).tool_calls.len() == 0,
        session::response(s).usage == s.usage,
{
}

/// An event is seen as what its fields hold.
pub proof fn law_event_is_seen_as_it_is(e: CopilotEvent)
    ensures
        match e {
            CopilotEvent::MessageDelta { data } => e@ == (event::EventView::MessageDelta {
                text: data.delta_content@,
            }),
            CopilotEvent::ReasoningDelta { data } => e@ == (event::EventView::ReasoningDelta {
                text: data.delta_content@,
            }),
            CopilotEvent::Message { data } => e@ == (event::EventView::Message {
                text: data.content@,
                output_tokens: data.output_tokens,
            }),
            CopilotEvent::ToolStart { data } => e@ == (event::EventView::ToolStart {
                name: data.tool_name@,
            }),
            CopilotEvent::ToolComplete { data } => match data.tool_name {
                Some(name) => e@ == (event::EventView::ToolComplete { finished: Some(name@) }),
                None => e@ == (event::EventView::ToolComplete { finished: None }),
            },
            CopilotEvent::Result { usage } => e@ == (event::EventView::Result { usage }),
            CopilotEvent::Unknown => e@ is Unknown,
        },
{
}

/// What has happened is seen as what its fields hold.
pub proof fn law_progress_is_seen_as_it_is(p: Progress)
    ensures
        match p {
            Progress::SpawnFailed { error } => p@ == (session::ProgressView::SpawnFailed {
                error: error@,
            }),
            Progress::Spawned { has_stdout, has_stderr } => p@ == (
            session::ProgressView::Spawned { has_stdout, has_stderr }),
            Progress::Line { line } => p@ == (session::ProgressView::Line { line: line@ }),
            Progress::Event { event } => p@ == (session::ProgressView::Event { event: event@ }),
            Progress::NotAnEvent => p@ is NotAnEvent,
            Progress::EndOfOutput => p@ is EndOfOutput,
            Progress::WaitFailed { error } => p@ == (session::ProgressView::WaitFailed {
                error: error@,
            }),
            Progress::Exited { success, code, stderr: Some(stderr) } => p@ == (
            session::ProgressView::Exited { success, code, stderr: Some(stderr@) }),
            Progress::Exited { success, code, stderr: None } => p@ == (
            session::ProgressView::Exited { success, code, stderr: None }),
        },
{
}

/// A step, a session, an error and what the consumer sees are seen as what their fields
/// hold.
pub proof fn law_step_is_seen_as_it_is(
    step: Step,
    s: StreamSession,
    error: LlmError,
    shown: StreamEvent,
)
    ensures
        match step {
            Step::ReadLine => step@ is ReadLine,
            Step::ParseLine { line } => step@ == (session::StepView::ParseLine { line: line@ }),
            Step::Send { event } => step@ == (session::StepView::Send { event: event@ }),
            Step::AwaitExit => step@ is AwaitExit,
            Step::Fail { error } => step@ == (session::StepView::Fail { error: error@ }),
            Step::Complete { event, response } => step@ == (session::StepView::Complete {
                event: event@,
                response: response@,
            }),
        },
        s@.full_text == s.full_text@,
        s@.usage == s.usage,
        match error {
            LlmError::Http(message) => error@ == llm::LlmErrorView::Http(message@),
            LlmError::Api { status, message } => error@ == (llm::LlmErrorView::Api {
                status,
                message: message@,
            }),
        },
        match shown {
            StreamEvent::TextDelta { text } => shown@ == (llm::StreamEventView::TextDelta {
                text: text@,
            }),
            StreamEvent::ThinkingDelta { text } => shown@ == (
            llm::StreamEventView::ThinkingDelta { text: text@ }),
            StreamEvent::ContentComplete { stop_reason, usage } => shown@ == (
            llm::StreamEventView::ContentComplete { stop_reason, usage }),
        },
{
}

/// A reply is seen as what its fields hold.
pub proof fn law_response_is_seen_as_it_is(r: CompletionResponse, i: int)
    ensures
        r@.content.len() == r.content@.len(),
        r@.stop_reason == r.stop_reason,
        r@.tool_calls == r.tool_calls@,
        r@.usage == r.usage,
        0 <= i < r.content@.len() ==> match r.content@[i] {
            ContentBlock::Text { text, provider_metadata: Some(metadata) } => r@.content[i] == (
            message::ContentBlockView::Text {
                text: text@,
                provider_metadata: Some(metadata@),
            }),
            ContentBlock::Text { text, provider_metadata: None } => r@.content[i] == (
            message::ContentBlockView::Text { text: text@, provider_metadata: None }),
        },
{
}

} // verus!
