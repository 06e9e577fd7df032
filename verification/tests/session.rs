use copilot_cli::event::{
    CopilotEvent, CopilotUsage, MessageData, MessageDeltaData, ReasoningDeltaData,
    ToolCompleteData, ToolStartData,
};
use copilot_cli::llm::{CompletionResponse, LlmError, StreamEvent};
use copilot_cli::message::{ContentBlock, StopReason, TokenUsage};
use copilot_cli::session::{
    background_result, join_error, silent_error, spawn_error, wait_error, Progress, Step,
    StreamSession,
};

fn delta(text: &str) -> Progress {
    Progress::Event {
        event: CopilotEvent::MessageDelta {
            data: MessageDeltaData { delta_content: text.to_string() },
        },
    }
}

fn message(output_tokens: Option<u64>) -> Progress {
    Progress::Event {
        event: CopilotEvent::Message {
            data: MessageData { content: "whole".to_string(), output_tokens },
        },
    }
}

fn result(input_tokens: Option<u64>, output_tokens: Option<u64>) -> Progress {
    Progress::Event {
        event: CopilotEvent::Result {
            usage: Some(CopilotUsage { input_tokens, output_tokens, total_tokens: Some(99) }),
        },
    }
}

fn exited(success: bool, code: Option<i32>, stderr: Option<&str>) -> Progress {
    Progress::Exited { success, code, stderr: stderr.map(|s| s.to_string()) }
}

fn http(message: &str) -> LlmError {
    LlmError::Http(message.to_string())
}

fn usage(input_tokens: u64, output_tokens: u64) -> TokenUsage {
    TokenUsage { input_tokens, output_tokens }
}

fn reply(text: &str, usage: TokenUsage) -> CompletionResponse {
    CompletionResponse {
        content: vec![ContentBlock::Text { text: text.to_string(), provider_metadata: None }],
        stop_reason: StopReason::EndTurn,
        tool_calls: Vec::new(),
        usage,
    }
}

fn complete(text: &str, usage: TokenUsage) -> Step {
    Step::Complete {
        event: StreamEvent::ContentComplete { stop_reason: StopReason::EndTurn, usage },
        response: reply(text, usage),
    }
}

#[test]
fn a_whole_run() {
    let mut session = StreamSession::new();
    let spawned = Progress::Spawned { has_stdout: true, has_stderr: true };
    assert_eq!(session.advance(spawned), Step::ReadLine);
    assert_eq!(session.advance(Progress::Line { line: "  ".to_string() }), Step::ReadLine);
    assert_eq!(
        session.advance(Progress::Line { line: " {} ".to_string() }),
        Step::ParseLine { line: " {} ".to_string() }
    );
    assert_eq!(
        session.advance(delta("Hel")),
        Step::Send { event: StreamEvent::TextDelta { text: "Hel".to_string() } }
    );
    assert_eq!(session.advance(Progress::NotAnEvent), Step::ReadLine);
    assert_eq!(
        session.advance(delta("lo")),
        Step::Send { event: StreamEvent::TextDelta { text: "lo".to_string() } }
    );
    assert_eq!(session.advance(message(Some(5))), Step::ReadLine);
    assert_eq!(session.advance(result(Some(3), None)), Step::ReadLine);
    assert_eq!(session.advance(Progress::EndOfOutput), Step::AwaitExit);
    assert_eq!(session.advance(exited(true, Some(0), Some(""))), complete("Hello", usage(3, 5)));
}

#[test]
fn events_shown_as_thinking() {
    let mut session = StreamSession::new();
    let thinking =
        |text: &str| Some(StreamEvent::ThinkingDelta { text: text.to_string() });
    let reasoning = CopilotEvent::ReasoningDelta {
        data: ReasoningDeltaData { delta_content: "hm".to_string() },
    };
    assert_eq!(session.absorb(reasoning), thinking("hm"));
    let start = CopilotEvent::ToolStart { data: ToolStartData { tool_name: "bash".to_string() } };
    assert_eq!(session.absorb(start), thinking("\n[Executing tool: bash]\n"));
    let done = CopilotEvent::ToolComplete {
        data: ToolCompleteData { tool_name: Some("bash".to_string()) },
    };
    assert_eq!(session.absorb(done), thinking("[Tool complete: bash]\n"));
    let unnamed = CopilotEvent::ToolComplete { data: ToolCompleteData { tool_name: None } };
    assert_eq!(session.absorb(unnamed), None);
    assert_eq!(session.absorb(CopilotEvent::Unknown), None);
    assert_eq!(session, StreamSession::new());
}

#[test]
fn last_usage_report_counts() {
    let mut session = StreamSession::new();
    assert_eq!(session.usage, usage(0, 0));
    session.advance(message(Some(7)));
    assert_eq!(session.usage, usage(0, 7));
    session.advance(result(Some(4), Some(9)));
    assert_eq!(session.usage, usage(4, 9));
    session.advance(message(None));
    session.advance(result(None, None));
    session.advance(Progress::Event { event: CopilotEvent::Result { usage: None } });
    let empty = CopilotEvent::Result { usage: Some(CopilotUsage::default()) };
    session.advance(Progress::Event { event: empty });
    assert_eq!(session.usage, usage(4, 9));
    session.advance(result(None, Some(1)));
    assert_eq!(session.usage, usage(4, 1));
}

#[test]
fn silent_failure_is_an_error() {
    let mut session = StreamSession::new();
    let step = session.advance(exited(false, Some(2), Some("  not logged in\n")));
    let error = LlmError::Api {
        status: 2,
        message: "Copilot CLI exited with error (code 2) and produced no output. \nStderr: not logged in"
            .to_string(),
    };
    assert_eq!(step, Step::Fail { error });
}

#[test]
fn failure_without_code_or_error_output() {
    let error = LlmError::Api {
        status: 1,
        message: "Copilot CLI exited with error (code 1) and produced no output. \nStderr: <stderr read failed>"
            .to_string(),
    };
    assert_eq!(silent_error(None, None), error);
}

#[test]
fn status_keeps_the_low_bits() {
    for code in [0, 1, 255, 65_535, 65_536, 70_000, -1, i32::MIN, i32::MAX] {
        match silent_error(Some(code), Some(String::new())) {
            LlmError::Api { status, message } => {
                assert_eq!(status, code as u16);
                assert!(message.contains(&format!("(code {})", code)));
            }
            LlmError::Http(_) => panic!("no API error"),
        }
    }
}

#[test]
fn failure_after_an_answer_completes() {
    let mut session = StreamSession::new();
    session.advance(delta("partial"));
    assert_eq!(
        session.advance(exited(false, Some(1), Some("boom"))),
        complete("partial", usage(0, 0))
    );
}

#[test]
fn success_without_an_answer_completes() {
    let mut session = StreamSession::new();
    session.advance(delta(""));
    assert_eq!(session.advance(exited(true, Some(0), None)), complete("", usage(0, 0)));
    assert_eq!(session.response(), reply("", usage(0, 0)));
}

#[test]
fn failures_before_any_output() {
    let fail = |progress: Progress| StreamSession::new().advance(progress);
    assert_eq!(
        fail(Progress::SpawnFailed { error: "no such file".to_string() }),
        Step::Fail {
            error: http(
                "Copilot CLI not found or failed to start (no such file). Install: npm install -g @githubnext/github-copilot-cli"
            )
        }
    );
    assert_eq!(
        fail(Progress::Spawned { has_stdout: false, has_stderr: false }),
        Step::Fail { error: http("No stdout from copilot CLI") }
    );
    assert_eq!(
        fail(Progress::Spawned { has_stdout: true, has_stderr: false }),
        Step::Fail { error: http("No stderr from copilot CLI") }
    );
    assert_eq!(
        fail(Progress::WaitFailed { error: "gone".to_string() }),
        Step::Fail { error: http("Copilot CLI wait failed: gone") }
    );
}

#[test]
fn error_texts() {
    assert_eq!(join_error("panic"), http("Join error: panic"));
    assert_eq!(wait_error("x"), http("Copilot CLI wait failed: x"));
    assert_eq!(
        spawn_error("x"),
        http("Copilot CLI not found or failed to start (x). Install: npm install -g @githubnext/github-copilot-cli")
    );
}

#[test]
fn background_result_is_the_runs_own() {
    assert_eq!(
        background_result(Ok(Ok(reply("a", usage(1, 2))))),
        Ok(reply("a", usage(1, 2)))
    );
    assert_eq!(background_result(Ok(Err(http("e")))), Err(http("e")));
    assert_eq!(
        background_result(Err("cancelled".to_string())),
        Err(http("Join error: cancelled"))
    );
}

#[test]
fn response_is_the_text_shown() {
    let mut session = StreamSession::new();
    let mut shown = String::new();
    for text in ["a", "", "é\n", "b c"] {
        match session.advance(delta(text)) {
            Step::Send { event: StreamEvent::TextDelta { text } } => shown.push_str(&text),
            other => panic!("{:?}", other),
        }
    }
    assert_eq!(shown, "aé\nb c");
    assert_eq!(session.advance(exited(true, Some(0), None)), complete(&shown, usage(0, 0)));
}
