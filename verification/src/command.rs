//! The command that runs the agent: program, arguments and environment.

use vstd::prelude::*;

use crate::driver;
use crate::driver::CopilotCliDriver;
use crate::environment;
use crate::environment::EnvChange;
use crate::llm;
use crate::llm::CompletionRequest;
use crate::prompt;
use crate::text;

verus! {

/// A command to run: the program, its arguments, and how its environment differs from
/// the inherited one.
#[derive(Debug, PartialEq, Eq)]
pub struct CommandPlan {
    pub program: String,
    pub args: Vec<String>,
    pub env: Vec<EnvChange>,
}

/// A command to run, over plain text.
#[verifier::ext_equal]
pub struct CommandView {
    pub program: Seq<char>,
    pub args: Seq<Seq<char>>,
    pub env: Seq<environment::EnvChangeView>,
}

impl View for CommandPlan {
    type V = CommandView;

    open spec fn view(&self) -> CommandView {
        CommandView {
            program: self.program@,
            args: text::texts(self.args@),
            env: environment::change_views(self.env@),
        }
    }
}

/// How hard the agent reasons.
#[derive(Clone, Copy, Debug, PartialEq, Eq, Structural)]
pub enum ReasoningEffort {
    Low,
    Medium,
    High,
    XHigh,
}

/// The effort for a thinking budget.
pub open spec fn effort_for(budget_tokens: u64) -> ReasoningEffort {
    if budget_tokens <= 3_000 {
        ReasoningEffort::Low
    } else if budget_tokens <= 8_000 {
        ReasoningEffort::Medium
    } else if budget_tokens <= 15_000 {
        ReasoningEffort::High
    } else {
        ReasoningEffort::XHigh
    }
}

/// The position of an effort among all, from the least to the greatest.
pub open spec fn effort_rank(effort: ReasoningEffort) -> int {
    match effort {
        ReasoningEffort::Low => 0,
        ReasoningEffort::Medium => 1,
        ReasoningEffort::High => 2,
        ReasoningEffort::XHigh => 3,
    }
}

/// The name that an effort has on the command line.
pub open spec fn effort_name(effort: ReasoningEffort) -> Seq<char> {
    match effort {
        ReasoningEffort::Low => "low"@,
        ReasoningEffort::Medium => "medium"@,
        ReasoningEffort::High => "high"@,
        ReasoningEffort::XHigh => "xhigh"@,
    }
}

impl ReasoningEffort {
    /// The effort for a thinking budget.
    pub fn for_budget(budget_tokens: u64) -> (effort: ReasoningEffort)
        ensures
            effort == effort_for(budget_tokens),
    {
        if budget_tokens <= 3_000 {
            ReasoningEffort::Low
        } else if budget_tokens <= 8_000 {
            ReasoningEffort::Medium
        } else if budget_tokens <= 15_000 {
            ReasoningEffort::High
        } else {
            ReasoningEffort::XHigh
        }
    }

    /// The name that the effort has on the command line.
    pub fn name(self) -> (name: &'static str)
        ensures
            name@ == effort_name(self),
    {
        match self {
            ReasoningEffort::Low => "low",
            ReasoningEffort::Medium => "medium",
            ReasoningEffort::High => "high",
            ReasoningEffort::XHigh => "xhigh",
        }
    }
}

/// The flag that grants permissions. Without a terminal the agent cannot ask for them.
pub open spec fn permission_flag(skip_permissions: bool) -> Seq<char> {
    if skip_permissions {
        "--allow-all"@
    } else {
        "--allow-all-tools"@
    }
}

/// The arguments that ask for an effort, where the request sets a thinking budget.
pub open spec fn effort_args(thinking: Option<llm::ThinkingConfig>) -> Seq<Seq<char>> {
    match thinking {
        Some(t) => seq!["--reasoning-effort"@, effort_name(effort_for(t.budget_tokens))],
        None => Seq::empty(),
    }
}

/// The arguments for a request: the prompt, output as a stream of JSON, nothing that
/// asks the user or fetches updates, no colours or logs in the output, then the
/// permissions, the model and the effort.
pub open spec fn request_args(
    skip_permissions: bool,
    request: llm::RequestView,
) -> Seq<Seq<char>> {
    seq![
        "-p"@,
        prompt::prompt(request.system, request.messages),
        "--output-format"@,
        "json"@,
        "--stream"@,
        "on"@,
        "--no-ask-user"@,
        "--no-custom-instructions"@,
        "--no-auto-update"@,
        "--no-color"@,
        "--log-level"@,
        "none"@,
        permission_flag(skip_permissions),
        "--model"@,
        driver::cli_model(request.model),
    ] + effort_args(request.thinking)
}

/// The change that hands the agent its token, where the driver has one.
pub open spec fn token_changes(api_key: Option<Seq<char>>) -> Seq<environment::EnvChangeView> {
    match api_key {
        Some(key) => seq![
            environment::EnvChangeView::Assign { key: "COPILOT_GITHUB_TOKEN"@, value: key },
        ],
        None => Seq::empty(),
    }
}

/// The command for a request, where `keys` are the names of the inherited variables.
pub open spec fn request_command(
    driver: driver::DriverView,
    request: llm::RequestView,
    keys: Seq<Seq<char>>,
) -> CommandView {
    CommandView {
        program: driver.cli_path,
        args: request_args(driver.skip_permissions, request),
        env: environment::filter_changes(keys) + token_changes(driver.api_key),
    }
}

/// Appends a copy of `arg`.
fn push_arg(args: &mut Vec<String>, arg: &str)
    ensures
        text::texts(final(args)@) == text::texts(old(args)@).push(arg@),
{
    let ghost before = args@;
    args.push(arg.to_string());
    assert(text::texts(args@) =~= text::texts(before).push(arg@));
}

impl CopilotCliDriver {
    /// The command that asks the agent for its version.
    pub fn version_command() -> (plan: CommandPlan)
        ensures
            plan@ == (CommandView {
                program: "copilot"@,
                args: seq!["--version"@],
                env: Seq::empty(),
            }),
    {
        let mut args: Vec<String> = Vec::new();
        push_arg(&mut args, "--version");
        let plan: CommandPlan = CommandPlan { program: "copilot".to_string(), args, env: Vec::new() };
        assert(plan@ =~= (CommandView {
            program: "copilot"@,
            args: seq!["--version"@],
            env: Seq::empty(),
        }));
        plan
    }

    /// The arguments for a request.
    pub fn request_args(&self, request: &CompletionRequest) -> (args: Vec<String>)
        ensures
            text::texts(args@) == request_args(self.skip_permissions, request@),
    {
        let prompt: String = Self::build_prompt(request);
        let mut args: Vec<String> = Vec::new();
        push_arg(&mut args, "-p");
        push_arg(&mut args, prompt.as_str());
        push_arg(&mut args, "--output-format");
        push_arg(&mut args, "json");
        push_arg(&mut args, "--stream");
        push_arg(&mut args, "on");
        push_arg(&mut args, "--no-ask-user");
        push_arg(&mut args, "--no-custom-instructions");
        push_arg(&mut args, "--no-auto-update");
        push_arg(&mut args, "--no-color");
        push_arg(&mut args, "--log-level");
        push_arg(&mut args, "none");
        if self.skip_permissions {
            push_arg(&mut args, "--allow-all");
        } else {
            push_arg(&mut args, "--allow-all-tools");
        }
        if let Some(model) = Self::model_flag(request.model.as_str()) {
            push_arg(&mut args, "--model");
            push_arg(&mut args, model.as_str());
        }
        if let Some(thinking) = request.thinking {
            let effort: ReasoningEffort = ReasoningEffort::for_budget(thinking.budget_tokens);
            push_arg(&mut args, "--reasoning-effort");
            push_arg(&mut args, effort.name());
        }
        assert(text::texts(args@) =~= request_args(self.skip_permissions, request@));
        args
    }

    /// Keeps secrets from the agent: adds to the command what removes them from its
    /// environment. `keys` are the names of the variables that it would inherit.
    pub fn apply_env_filter(plan: &mut CommandPlan, keys: &Vec<String>)
        ensures
            final(plan)@ == (CommandView {
                env: old(plan)@.env + environment::filter_changes(text::texts(keys@)),
                ..old(plan)@
            }),
            environment::ascii_upper_known(text::texts(keys@)),
    {
        environment::withhold_secrets(&mut plan.env, keys);
    }

    /// The command for a request. `keys` are the names of the variables that the agent
    /// would inherit.
    pub fn command(&self, request: &CompletionRequest, keys: &Vec<String>) -> (plan: CommandPlan)
        ensures
            plan@ == request_command(self@, request@, text::texts(keys@)),
            environment::ascii_upper_known(text::texts(keys@)),
    {
        let mut plan: CommandPlan = CommandPlan {
            program: self.cli_path.clone(),
            args: self.request_args(request),
            env: Vec::new(),
        };
        Self::apply_env_filter(&mut plan, keys);
        let ghost filtered = plan.env@;
        if let Some(key) = &self.api_key {
            plan.env.push(
                EnvChange::Assign { key: "COPILOT_GITHUB_TOKEN".to_string(), value: key.clone() },
            );
            assert(environment::change_views(plan.env@) =~= environment::change_views(filtered)
                + token_changes(self@.api_key));
        }
        assert(plan@ =~= request_command(self@, request@, text::texts(keys@)));
        plan
    }
}

} // verus!
