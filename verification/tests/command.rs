use std::collections::BTreeMap;

use copilot_cli::command::{CommandPlan, ReasoningEffort};
use copilot_cli::driver::CopilotCliDriver;
use copilot_cli::environment::{is_sensitive, EnvChange, SENSITIVE_ENV_EXACT, SENSITIVE_SUFFIXES};
use copilot_cli::llm::{CompletionRequest, ThinkingConfig};
use copilot_cli::message::{Message, MessageContent, Role};

fn request(budget: Option<u64>) -> CompletionRequest {
    CompletionRequest {
        model: "copilot-cli/gpt-5.4".to_string(),
        messages: vec![Message { role: Role::User, content: MessageContent::text("Hello") }],
        max_tokens: 16,
        system: None,
        thinking: budget.map(|budget_tokens| ThinkingConfig { budget_tokens }),
    }
}

fn names(list: &[&str]) -> Vec<String> {
    list.iter().map(|s| s.to_string()).collect()
}

fn environment_after(plan: &CommandPlan, parent: &[(&str, &str)]) -> BTreeMap<String, String> {
    let mut env: BTreeMap<String, String> =
        parent.iter().map(|(k, v)| (k.to_string(), v.to_string())).collect();
    for change in &plan.env {
        match change {
            EnvChange::Remove { key } => {
                env.remove(key);
            }
            EnvChange::Assign { key, value } => {
                env.insert(key.clone(), value.clone());
            }
        }
    }
    env
}

fn agent_sees(api_key: Option<&str>, parent: &[(&str, &str)]) -> BTreeMap<String, String> {
    let driver = CopilotCliDriver::new(None, false, api_key.map(|k| k.to_string()));
    let keys: Vec<String> = parent.iter().map(|(k, _)| k.to_string()).collect();
    environment_after(&driver.command(&request(None), &keys), parent)
}

#[test]
fn test_sensitive_env_list_coverage() {
    assert!(SENSITIVE_ENV_EXACT.contains(&"OPENAI_API_KEY"));
    // GITHUB_TOKEN is handled by prefix check
}

#[test]
fn sensitive_lists_are_complete() {
    assert_eq!(SENSITIVE_ENV_EXACT.len(), 21);
    assert!(SENSITIVE_ENV_EXACT.contains(&"REPLICATE_API_TOKEN"));
    assert_eq!(SENSITIVE_ENV_EXACT[20], "ELEVENLABS_API_KEY");
    assert_eq!(SENSITIVE_SUFFIXES, ["_SECRET", "_TOKEN", "_PASSWORD"]);
}

#[test]
fn arguments_without_thinking() {
    let driver = CopilotCliDriver::new(None, false, None);
    assert_eq!(
        driver.request_args(&request(None)),
        names(&[
            "-p",
            "[User]\nHello",
            "--output-format",
            "json",
            "--stream",
            "on",
            "--no-ask-user",
            "--no-custom-instructions",
            "--no-auto-update",
            "--no-color",
            "--log-level",
            "none",
            "--allow-all-tools",
            "--model",
            "gpt-5.4",
        ])
    );
}

#[test]
fn permissions_change_one_argument() {
    let some = CopilotCliDriver::new(None, false, None).request_args(&request(None));
    let all = CopilotCliDriver::new(None, true, None).request_args(&request(None));
    let mut expected = some.clone();
    expected[12] = "--allow-all".to_string();
    assert_eq!(all, expected);
}

#[test]
fn thinking_sets_the_effort() {
    let driver = CopilotCliDriver::new(None, true, None);
    let args = driver.request_args(&request(Some(8_001)));
    assert_eq!(args.len(), 17);
    assert_eq!(args[15..], names(&["--reasoning-effort", "high"])[..]);
}

#[test]
fn effort_boundaries() {
    let name = |budget: u64| ReasoningEffort::for_budget(budget).name();
    assert_eq!(name(0), "low");
    assert_eq!(name(3_000), "low");
    assert_eq!(name(3_001), "medium");
    assert_eq!(name(8_000), "medium");
    assert_eq!(name(8_001), "high");
    assert_eq!(name(15_000), "high");
    assert_eq!(name(15_001), "xhigh");
    assert_eq!(name(u64::MAX), "xhigh");
}

#[test]
fn version_command_asks_for_the_version() {
    let plan = CopilotCliDriver::version_command();
    assert_eq!(plan.program, "copilot");
    assert_eq!(plan.args, names(&["--version"]));
    assert!(plan.env.is_empty());
}

#[test]
fn command_changes_in_order() {
    let driver = CopilotCliDriver::new(Some("/bin/agent".to_string()), false, Some("t".to_string()));
    let plan = driver.command(&request(None), &names(&["HOME", "db_password", "GITHUB_TOKEN"]));
    assert_eq!(plan.program, "/bin/agent");
    assert_eq!(plan.args, driver.request_args(&request(None)));
    assert_eq!(plan.env.len(), 23);
    for (i, name) in SENSITIVE_ENV_EXACT.iter().enumerate() {
        assert_eq!(plan.env[i], EnvChange::Remove { key: name.to_string() });
    }
    assert_eq!(plan.env[21], EnvChange::Remove { key: "db_password".to_string() });
    assert_eq!(
        plan.env[22],
        EnvChange::Assign { key: "COPILOT_GITHUB_TOKEN".to_string(), value: "t".to_string() }
    );
}

#[test]
fn env_filter_leaves_the_rest_of_the_command() {
    let mut plan = CopilotCliDriver::version_command();
    plan.env.push(EnvChange::Assign { key: "A".to_string(), value: "1".to_string() });
    CopilotCliDriver::apply_env_filter(&mut plan, &names(&["X_SECRET"]));
    assert_eq!(plan.program, "copilot");
    assert_eq!(plan.args, names(&["--version"]));
    assert_eq!(plan.env.len(), 23);
    assert_eq!(
        plan.env[0],
        EnvChange::Assign { key: "A".to_string(), value: "1".to_string() }
    );
    assert_eq!(plan.env[22], EnvChange::Remove { key: "X_SECRET".to_string() });
}

#[test]
fn sensitive_endings() {
    assert!(is_sensitive("my_token", "MY_TOKEN"));
    assert!(is_sensitive("A_SECRET", "A_SECRET"));
    assert!(is_sensitive("A_PASSWORD", "A_PASSWORD"));
    assert!(!is_sensitive("GITHUB_TOKEN", "GITHUB_TOKEN"));
    assert!(is_sensitive("github_token", "GITHUB_TOKEN"));
    assert!(!is_sensitive("TOKEN", "TOKEN"));
    assert!(!is_sensitive("MY_TOKENS", "MY_TOKENS"));
    assert!(!is_sensitive("my_token", "my_token"));
}

#[test]
fn secrets_are_withheld_and_the_rest_inherited() {
    let env = agent_sees(
        None,
        &[
            ("HOME", "/root"),
            ("OPENAI_API_KEY", "k"),
            ("MY_API_KEY", "k2"),
            ("Db_Password", "p"),
            ("über_token", "u"),
            ("stra\u{df}e_secret", "s"),
            ("GITHUB_TOKEN", "g"),
            ("GH_TOKEN", "h"),
            ("COPILOT_GITHUB_TOKEN", "inherited"),
        ],
    );
    let left: Vec<(&str, &str)> = env.iter().map(|(k, v)| (k.as_str(), v.as_str())).collect();
    assert_eq!(
        left,
        vec![("GITHUB_TOKEN", "g"), ("HOME", "/root"), ("MY_API_KEY", "k2")]
    );
}

#[test]
fn suffix_is_found_in_upper_case_of_other_letters() {
    // A long s is an S in upper case.
    let env = agent_sees(None, &[("my_\u{17f}ecret", "x"), ("PLAIN", "y")]);
    assert_eq!(env.len(), 1);
    assert_eq!(env["PLAIN"], "y");
}

#[test]
fn token_replaces_an_inherited_one() {
    let parent = [("COPILOT_GITHUB_TOKEN", "inherited"), ("PATH", "/bin")];
    let env = agent_sees(Some("ghp_test"), &parent);
    assert_eq!(env["COPILOT_GITHUB_TOKEN"], "ghp_test");
    assert_eq!(env["PATH"], "/bin");
    assert_eq!(agent_sees(Some("ghp_test"), &[])["COPILOT_GITHUB_TOKEN"], "ghp_test");
    assert!(!agent_sees(None, &parent).contains_key("COPILOT_GITHUB_TOKEN"));
}
