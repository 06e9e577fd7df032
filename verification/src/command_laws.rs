//! What the agent is started with, whatever the request and the environment.

use vstd::prelude::*;
use vstd::utf8::*;

use crate::command;
use crate::command::CommandPlan;
use crate::driver;
use crate::driver::{CopilotCliDriver, VersionProbe};
use crate::environment;
use crate::environment::EnvChange;
use crate::laws;
use crate::llm;
use crate::prompt;
use crate::text;
use crate::text_laws;

verus! {

/// The program is the driver's, and the arguments are those of the request.
pub proof fn law_command_runs_the_drivers_agent(
    driver: driver::DriverView,
    request: llm::RequestView,
    keys: Seq<Seq<char>>,
)
    ensures
        command::request_command(driver, request, keys).program == driver.cli_path,
        command::request_command(driver, request, keys).args == command::request_args(
            driver.skip_permissions,
            request,
        ),
{
}

/// The arguments of every request: the prompt, a stream of JSON, no questions to the
/// user, no instructions of the user's own, no updates, colours or logs, the
/// permissions, and the model without its provider.
pub proof fn law_arguments_of_every_request(skip_permissions: bool, request: llm::RequestView)
    ensures
        ({
            let args = command::request_args(skip_permissions, request);
            &&& args.len() == if request.thinking is Some {
                17int
            } else {
                15int
            }
            &&& args[0] == "-p"@
            &&& args[1] == prompt::prompt(request.system, request.messages)
            &&& args[2] == "--output-format"@
            &&& args[3] == "json"@
            &&& args[4] == "--stream"@
            &&& args[5] == "on"@
            &&& args[6] == "--no-ask-user"@
            &&& args[7] == "--no-custom-instructions"@
            &&& args[8] == "--no-auto-update"@
            &&& args[9] == "--no-color"@
            &&& args[10] == "--log-level"@
            &&& args[11] == "none"@
            &&& skip_permissions ==> args[12] == "--allow-all"@
            &&& !skip_permissions ==> args[12] == "--allow-all-tools"@
            &&& args[13] == "--model"@
            &&& forall|bare: Seq<char>|
                request.model == #[trigger] ("copilot-cli/"@ + bare) ==> args[14] == bare
            &&& !"copilot-cli/"@.is_prefix_of(request.model) ==> args[14] == request.model
        }),
{
    let args = command::request_args(skip_permissions, request);
    assert forall|bare: Seq<char>| request.model == #[trigger] ("copilot-cli/"@ + bare) implies
        args[14] == bare by {
        text_laws::law_prefix_comes_off_once("copilot-cli/"@, bare);
    }
}

/// A thinking budget ends the arguments with its effort: low up to 3000 tokens, medium
/// up to 8000, high up to 15000, and xhigh above.
pub proof fn law_budget_sets_the_last_arguments(
    skip_permissions: bool,
    request: llm::RequestView,
    budget: u64,
)
    requires
        request.thinking == Some(llm::ThinkingConfig { budget_tokens: budget }),
    ensures
        ({
            let args = command::request_args(skip_permissions, request);
            let n = args.len() as int;
            &&& n >= 2
            &&& args[n - 2] == "--reasoning-effort"@
            &&& budget <= 3000 ==> args[n - 1] == "low"@
            &&& 3000 < budget <= 8000 ==> args[n - 1] == "medium"@
            &&& 8000 < budget <= 15000 ==> args[n - 1] == "high"@
            &&& budget > 15000 ==> args[n - 1] == "xhigh"@
        }),
{
}

/// The name of the effort for a budget.
pub proof fn law_effort_of_a_budget(budget: u64)
    ensures
        ({
            let name = command::effort_name(command::effort_for(budget));
            &&& budget <= 3000 ==> name == "low"@
            &&& 3000 < budget <= 8000 ==> name == "medium"@
            &&& 8000 < budget <= 15000 ==> name == "high"@
            &&& budget > 15000 ==> name == "xhigh"@
        }),
        command::effort_name(command::ReasoningEffort::Low) == "low"@,
        command::effort_name(command::ReasoningEffort::Medium) == "medium"@,
        command::effort_name(command::ReasoningEffort::High) == "high"@,
        command::effort_name(command::ReasoningEffort::XHigh) == "xhigh"@,
{
}

/// Without a thinking budget no argument asks for an effort. A model of that very name
/// is left aside: its name is an argument.
pub proof fn law_no_budget_no_effort(skip_permissions: bool, request: llm::RequestView, i: int)
    requires
        request.thinking is None,
        request.model != "--reasoning-effort"@,
        request.model != "copilot-cli/"@ + "--reasoning-effort"@,
        0 <= i < command::request_args(skip_permissions, request).len(),
    ensures
        command::request_args(skip_permissions, request)[i] != "--reasoning-effort"@,
{
    let args = command::request_args(skip_permissions, request);
    reveal_strlit("--reasoning-effort");
    reveal_strlit("-p");
    reveal_strlit("--output-format");
    reveal_strlit("json");
    reveal_strlit("--stream");
    reveal_strlit("on");
    reveal_strlit("--no-ask-user");
    reveal_strlit("--no-custom-instructions");
    reveal_strlit("--no-auto-update");
    reveal_strlit("--no-color");
    reveal_strlit("--log-level");
    reveal_strlit("none");
    reveal_strlit("--allow-all");
    reveal_strlit("--allow-all-tools");
    reveal_strlit("--model");
    if i == 1 {
        let parts = prompt::prompt_parts(request.system, request.messages);
        if parts.len() > 0 {
            reveal_strlit("[");
            text::lemma_joined_holds_part(parts, "\n\n"@, 0);
            assert(parts[0][0] == '[');
            assert(args[1].subrange(0, parts[0].len() as int)[0] == '[');
            assert(args[1][0] == '[');
        }
    } else if i == 14 {
        let prefix = "copilot-cli/"@;
        if prefix.is_prefix_of(request.model) {
            let bare = request.model.skip(prefix.len() as int);
            assert(request.model =~= request.model.subrange(0, prefix.len() as int) + bare);
            assert(request.model == prefix + bare);
            assert(args[14] == bare);
        } else {
            assert(args[14] == request.model);
        }
    }
}

/// Whether a name is one of those that are always withheld.
pub open spec fn is_listed(key: Seq<char>) -> bool {
    ||| key == "OPENAI_API_KEY"@
    ||| key == "ANTHROPIC_API_KEY"@
    ||| key == "GEMINI_API_KEY"@
    ||| key == "GOOGLE_API_KEY"@
    ||| key == "GROQ_API_KEY"@
    ||| key == "DEEPSEEK_API_KEY"@
    ||| key == "MISTRAL_API_KEY"@
    ||| key == "TOGETHER_API_KEY"@
    ||| key == "FIREWORKS_API_KEY"@
    ||| key == "OPENROUTER_API_KEY"@
    ||| key == "PERPLEXITY_API_KEY"@
    ||| key == "COHERE_API_KEY"@
    ||| key == "AI21_API_KEY"@
    ||| key == "CEREBRAS_API_KEY"@
    ||| key == "SAMBANOVA_API_KEY"@
    ||| key == "HUGGINGFACE_API_KEY"@
    ||| key == "XAI_API_KEY"@
    ||| key == "REPLICATE_API_TOKEN"@
    ||| key == "BRAVE_API_KEY"@
    ||| key == "TAVILY_API_KEY"@
    ||| key == "ELEVENLABS_API_KEY"@
}

proof fn lemma_listed(key: Seq<char>)
    ensures
        environment::listed_names().contains(key) <==> is_listed(key),
{
    let names = environment::listed_names();
    assert(names.len() == 21);
    assert(names[0] == "OPENAI_API_KEY"@);
    assert(names[1] == "ANTHROPIC_API_KEY"@);
    assert(names[2] == "GEMINI_API_KEY"@);
    assert(names[3] == "GOOGLE_API_KEY"@);
    assert(names[4] == "GROQ_API_KEY"@);
    assert(names[5] == "DEEPSEEK_API_KEY"@);
    assert(names[6] == "MISTRAL_API_KEY"@);
    assert(names[7] == "TOGETHER_API_KEY"@);
    assert(names[8] == "FIREWORKS_API_KEY"@);
    assert(names[9] == "OPENROUTER_API_KEY"@);
    assert(names[10] == "PERPLEXITY_API_KEY"@);
    assert(names[11] == "COHERE_API_KEY"@);
    assert(names[12] == "AI21_API_KEY"@);
    assert(names[13] == "CEREBRAS_API_KEY"@);
    assert(names[14] == "SAMBANOVA_API_KEY"@);
    assert(names[15] == "HUGGINGFACE_API_KEY"@);
    assert(names[16] == "XAI_API_KEY"@);
    assert(names[17] == "REPLICATE_API_TOKEN"@);
    assert(names[18] == "BRAVE_API_KEY"@);
    assert(names[19] == "TAVILY_API_KEY"@);
    assert(names[20] == "ELEVENLABS_API_KEY"@);
}

/// A name, given also in upper case, is withheld for how it ends exactly where it ends
/// in `_SECRET`, `_TOKEN` or `_PASSWORD` and does not begin with `GITHUB_`.
pub proof fn law_three_endings_are_sensitive(key: Seq<char>, upper: Seq<char>)
    ensures
        environment::sensitive_by_suffix(key, upper) <==> (!"GITHUB_"@.is_prefix_of(key) && (
        "_SECRET"@.is_suffix_of(upper) || "_TOKEN"@.is_suffix_of(upper)
            || "_PASSWORD"@.is_suffix_of(upper))),
{
    let suffixes = environment::SENSITIVE_SUFFIXES@;
    assert(suffixes.len() == 3);
    assert(suffixes[0]@ == "_SECRET"@);
    assert(suffixes[1]@ == "_TOKEN"@);
    assert(suffixes[2]@ == "_PASSWORD"@);
}

/// The environment of the agent, name by name. It has the driver's token, if the driver
/// has one. For the rest, a variable is inherited, with its value, exactly where it is
/// there to inherit, is none of the listed ones, and begins with `GITHUB_` or does not
/// end, in upper case, in `_SECRET`, `_TOKEN` or `_PASSWORD`.
pub proof fn law_environment_of_the_agent(
    driver: driver::DriverView,
    request: llm::RequestView,
    parent: Map<Seq<char>, Seq<char>>,
    keys: Seq<Seq<char>>,
    key: Seq<char>,
)
    requires
        forall|k: Seq<char>| #[trigger] keys.contains(k) <==> parent.dom().contains(k),
    ensures
        ({
            let env = environment::changed(
                parent,
                command::request_command(driver, request, keys).env,
            );
            let upper = text::upper_case(key);
            if key == "COPILOT_GITHUB_TOKEN"@ && driver.api_key is Some {
                env.dom().contains(key) && env[key] == driver.api_key->0
            } else {
                &&& env.dom().contains(key) <==> {
                    &&& parent.dom().contains(key)
                    &&& !is_listed(key)
                    &&& "GITHUB_"@.is_prefix_of(key) || !("_SECRET"@.is_suffix_of(upper)
                        || "_TOKEN"@.is_suffix_of(upper) || "_PASSWORD"@.is_suffix_of(upper))
                }
                &&& env.dom().contains(key) ==> env[key] == parent[key]
            }
        }),
{
    laws::lemma_agent_env(driver, request, parent, keys, key);
    laws::lemma_withheld(keys, key);
    lemma_listed(key);
    law_three_endings_are_sensitive(key, text::upper_case(key));
    assert(keys.contains(key) <==> parent.dom().contains(key));
}

/// Whether `key` ends in `ending`, in upper or lower case.
pub open spec fn ends_in_any_case(key: Seq<char>, ending: Seq<char>) -> bool {
    &&& ending.len() <= key.len()
    &&& forall|i: int|
        0 <= i < ending.len() ==> {
            let c = key[key.len() - ending.len() + i];
            let e = #[trigger] ending[i];
            c == e || ('A' <= e <= 'Z' && c as int == e as int + 32)
        }
}

proof fn lemma_ascii_upper(c: char, e: char)
    requires
        !('a' <= e <= 'z'),
    ensures
        text::ascii_upper(c) == e <==> (c == e || ('A' <= e <= 'Z' && c as int == e as int + 32)),
{
}

proof fn lemma_ends_in_any_case(key: Seq<char>, ending: Seq<char>)
    requires
        forall|i: int| 0 <= i < ending.len() ==> !('a' <= #[trigger] ending[i] <= 'z'),
    ensures
        ends_in_any_case(key, ending) <==> ending.is_suffix_of(text::ascii_upper_case(key)),
{
    let upper = text::ascii_upper_case(key);
    let n = key.len() - ending.len();
    if ending.len() <= key.len() {
        let tail = upper.subrange(n, upper.len() as int);
        if ends_in_any_case(key, ending) {
            assert forall|i: int| 0 <= i < ending.len() implies #[trigger] tail[i] == ending[i] by {
                lemma_ascii_upper(key[n + i], ending[i]);
            }
            assert(tail =~= ending);
        }
        if ending.is_suffix_of(upper) {
            assert forall|i: int| 0 <= i < ending.len() implies {
                let c = key[key.len() - ending.len() + i];
                let e = #[trigger] ending[i];
                c == e || ('A' <= e <= 'Z' && c as int == e as int + 32)
            } by {
                assert(ending[i] == tail[i]);
                assert(tail[i] == text::ascii_upper(key[n + i]));
                lemma_ascii_upper(key[n + i], ending[i]);
            }
        }
    }
}

/// The same of a name that is ASCII throughout, by its own letters: it is inherited
/// exactly where it is there to inherit, is none of the listed ones, and begins with
/// `GITHUB_` or does not end in `_SECRET`, `_TOKEN` or `_PASSWORD` in upper or lower
/// case. What is required of the upper case holds of the names that a command was made
/// for.
pub proof fn law_environment_of_the_agent_in_ascii(
    driver: driver::DriverView,
    request: llm::RequestView,
    parent: Map<Seq<char>, Seq<char>>,
    keys: Seq<Seq<char>>,
    key: Seq<char>,
)
    requires
        forall|k: Seq<char>| #[trigger] keys.contains(k) <==> parent.dom().contains(k),
        environment::ascii_upper_known(keys),
        is_ascii_chars(key),
    ensures
        ({
            let env = environment::changed(
                parent,
                command::request_command(driver, request, keys).env,
            );
            if key == "COPILOT_GITHUB_TOKEN"@ && driver.api_key is Some {
                env.dom().contains(key) && env[key] == driver.api_key->0
            } else {
                &&& env.dom().contains(key) <==> {
                    &&& parent.dom().contains(key)
                    &&& !is_listed(key)
                    &&& "GITHUB_"@.is_prefix_of(key) || !(ends_in_any_case(key, "_SECRET"@)
                        || ends_in_any_case(key, "_TOKEN"@)
                        || ends_in_any_case(key, "_PASSWORD"@))
                }
                &&& env.dom().contains(key) ==> env[key] == parent[key]
            }
        }),
{
    law_environment_of_the_agent(driver, request, parent, keys, key);
    reveal_strlit("_SECRET");
    reveal_strlit("_TOKEN");
    reveal_strlit("_PASSWORD");
    lemma_ends_in_any_case(key, "_SECRET"@);
    lemma_ends_in_any_case(key, "_TOKEN"@);
    lemma_ends_in_any_case(key, "_PASSWORD"@);
    if keys.contains(key) {
        assert(keys[keys.index_of(key)] == key);
    }
}

/// The filter of the environment removes names and does nothing else: the listed ones,
/// and those of the given names that end, in upper case, in `_SECRET`, `_TOKEN` or
/// `_PASSWORD` and do not begin with `GITHUB_`.
pub proof fn law_filter_removes_secrets_and_nothing_else(keys: Seq<Seq<char>>, key: Seq<char>)
    ensures
        forall|i: int|
            0 <= i < environment::filter_changes(keys).len() ==> (
            #[trigger] environment::filter_changes(keys)[i]) is Remove,
        environment::filter_changes(keys).contains(environment::EnvChangeView::Remove { key })
            <==> (is_listed(key) || (keys.contains(key) && !"GITHUB_"@.is_prefix_of(key) && (
        "_SECRET"@.is_suffix_of(text::upper_case(key)) || "_TOKEN"@.is_suffix_of(
            text::upper_case(key),
        ) || "_PASSWORD"@.is_suffix_of(text::upper_case(key))))),
{
    laws::lemma_withheld(keys, key);
    lemma_listed(key);
    law_three_endings_are_sensitive(key, text::upper_case(key));
    let names = environment::listed_names() + environment::sensitive_names(keys);
    let changes = environment::filter_changes(keys);
    if names.contains(key) {
        assert(changes[names.index_of(key)] == (environment::EnvChangeView::Remove { key }));
    }
    if changes.contains(environment::EnvChangeView::Remove { key }) {
        let i = changes.index_of(environment::EnvChangeView::Remove { key });
        assert(names[i] == key);
    }
}

/// The path of the agent is the given one where it is not empty, and `copilot` otherwise.
pub proof fn law_path_of_the_agent(path: Seq<char>)
    ensures
        driver::path_or_default(None) == "copilot"@,
        path.len() == 0 ==> driver::path_or_default(Some(path)) == "copilot"@,
        path.len() > 0 ==> driver::path_or_default(Some(path)) == path,
{
}

/// The version is what the agent printed, without white space at its ends, if it ran and
/// ended well; otherwise there is none.
pub proof fn law_version_is_what_was_printed(probe: VersionProbe)
    ensures
        match probe {
            VersionProbe::NotRun => driver::detected(probe) is None,
            VersionProbe::Exited { success: false, .. } => driver::detected(probe) is None,
            VersionProbe::Exited { success: true, stdout } => {
                let printed = text::lossy_utf8(stdout@);
                &&& driver::detected(probe) is Some
                &&& exists|a: int, b: int|
                    #[trigger] text_laws::is_core(printed, a, b) && driver::detected(probe)->0
                        == printed.subrange(a, b)
            },
        },
{
    match probe {
        VersionProbe::Exited { success: true, stdout } => {
            text_laws::law_trimming_takes_white_space_off_both_ends(text::lossy_utf8(stdout@));
        },
        _ => {},
    }
}

/// A driver is seen as what its fields hold.
pub proof fn law_driver_is_seen_as_it_is(d: CopilotCliDriver)
    ensures
        d@.cli_path == d.cli_path@,
        d@.skip_permissions == d.skip_permissions,
        match d.api_key {
            Some(key) => d@.api_key == Some(key@),
            None => d@.api_key is None,
        },
{
}

/// A command is seen as what its fields hold.
pub proof fn law_command_is_seen_as_it_is(plan: CommandPlan, i: int)
    ensures
        plan@.program == plan.program@,
        plan@.args.len() == plan.args@.len(),
        0 <= i < plan.args@.len() ==> plan@.args[i] == plan.args@[i]@,
        plan@.env.len() == plan.env@.len(),
        0 <= i < plan.env@.len() ==> match plan.env@[i] {
            EnvChange::Remove { key } => plan@.env[i] == (environment::EnvChangeView::Remove {
                key: key@,
            }),
            EnvChange::Assign { key, value } => plan@.env[i] == (
            environment::EnvChangeView::Assign { key: key@, value: value@ }),
        },
{
}

} // verus!
