//! What holds of the driver as a whole, over any number of calls.

use vstd::prelude::*;
use vstd::utf8::*;

use crate::command;
use crate::driver;
use crate::environment;
use crate::llm;
use crate::message;
use crate::prompt;
use crate::session;
use crate::text;

verus! {

/// The environment that the agent sees, where the inherited one is `parent` and names
/// are the same only where all their letters are.
pub open spec fn agent_env(
    driver: driver::DriverView,
    request: llm::RequestView,
    parent: Map<Seq<char>, Seq<char>>,
    keys: Seq<Seq<char>>,
) -> Map<Seq<char>, Seq<char>> {
    environment::changed(parent, command::request_command(driver, request, keys).env)
}

/// Whether `keys` lists the names of the variables of an environment.
pub open spec fn lists(keys: Seq<Seq<char>>, env: Map<Seq<char>, Seq<char>>) -> bool {
    forall|key: Seq<char>| #[trigger] keys.contains(key) <==> env.dom().contains(key)
}

/// Changes made in two goes.
proof fn lemma_changed_add(
    env: Map<Seq<char>, Seq<char>>,
    a: Seq<environment::EnvChangeView>,
    b: Seq<environment::EnvChangeView>,
)
    ensures
        environment::changed(env, a + b) == environment::changed(environment::changed(env, a), b),
    decreases b.len(),
{
    if b.len() == 0 {
        assert(a + b =~= a);
    } else {
        assert((a + b).drop_last() =~= a + b.drop_last());
        lemma_changed_add(env, a, b.drop_last());
    }
}

/// Removals take away the given names and nothing else.
proof fn lemma_removals(env: Map<Seq<char>, Seq<char>>, names: Seq<Seq<char>>, key: Seq<char>)
    ensures
        environment::changed(env, environment::removals(names)).dom().contains(key) <==> (
        env.dom().contains(key) && !names.contains(key)),
        env.dom().contains(key) && !names.contains(key) ==> environment::changed(
            env,
            environment::removals(names),
        )[key] == env[key],
    decreases names.len(),
{
    if names.len() > 0 {
        let rest = names.drop_last();
        let last = names.last();
        lemma_removals(env, rest, key);
        assert(environment::removals(names).drop_last() =~= environment::removals(rest));
        assert(names.contains(key) <==> (rest.contains(key) || key == last)) by {
            assert(names =~= rest.push(last));
            if key == last {
                assert(names[names.len() - 1] == key);
            }
            if rest.contains(key) {
                let i = choose|i: int| 0 <= i < rest.len() && rest[i] == key;
                assert(names[i] == key);
            }
            if names.contains(key) && key != last {
                let i = choose|i: int| 0 <= i < names.len() && names[i] == key;
                assert(rest[i] == key);
            }
        }
    }
}

/// None of the listed names is the token's, and none is one of GitHub's own.
proof fn lemma_listed_names(i: int)
    requires
        0 <= i < environment::listed_names().len(),
    ensures
        environment::listed_names()[i] != "COPILOT_GITHUB_TOKEN"@,
        !environment::is_github_name(environment::listed_names()[i]),
{
    reveal_strlit("COPILOT_GITHUB_TOKEN");
    reveal_strlit("GITHUB_");
    reveal_strlit("OPENAI_API_KEY");
    reveal_strlit("ANTHROPIC_API_KEY");
    reveal_strlit("GEMINI_API_KEY");
    reveal_strlit("GOOGLE_API_KEY");
    reveal_strlit("GROQ_API_KEY");
    reveal_strlit("DEEPSEEK_API_KEY");
    reveal_strlit("MISTRAL_API_KEY");
    reveal_strlit("TOGETHER_API_KEY");
    reveal_strlit("FIREWORKS_API_KEY");
    reveal_strlit("OPENROUTER_API_KEY");
    reveal_strlit("PERPLEXITY_API_KEY");
    reveal_strlit("COHERE_API_KEY");
    reveal_strlit("AI21_API_KEY");
    reveal_strlit("CEREBRAS_API_KEY");
    reveal_strlit("SAMBANOVA_API_KEY");
    reveal_strlit("HUGGINGFACE_API_KEY");
    reveal_strlit("XAI_API_KEY");
    reveal_strlit("REPLICATE_API_TOKEN");
    reveal_strlit("BRAVE_API_KEY");
    reveal_strlit("TAVILY_API_KEY");
    reveal_strlit("ELEVENLABS_API_KEY");
    let name = environment::listed_names()[i];
    assert(name.len() < "COPILOT_GITHUB_TOKEN"@.len() && !(name[0] == 'G' && name[1] == 'I'));
    if environment::is_github_name(name) {
        assert("GITHUB_"@[0] == name[0] && "GITHUB_"@[1] == name[1]);
    }
}

/// What the agent's environment holds, name by name.
pub proof fn lemma_agent_env(
    driver: driver::DriverView,
    request: llm::RequestView,
    parent: Map<Seq<char>, Seq<char>>,
    keys: Seq<Seq<char>>,
    key: Seq<char>,
)
    ensures
        ({
            let env = agent_env(driver, request, parent, keys);
            let gone = (environment::listed_names() + environment::sensitive_names(keys)).contains(
                key,
            );
            if key == "COPILOT_GITHUB_TOKEN"@ && driver.api_key is Some {
                env.dom().contains(key) && env[key] == driver.api_key->0
            } else {
                &&& env.dom().contains(key) <==> parent.dom().contains(key) && !gone
                &&& env.dom().contains(key) ==> env[key] == parent[key]
            }
        }),
{
    let names = environment::listed_names() + environment::sensitive_names(keys);
    let token = command::token_changes(driver.api_key);
    let filtered = environment::changed(parent, environment::filter_changes(keys));
    lemma_changed_add(parent, environment::filter_changes(keys), token);
    lemma_removals(parent, names, key);
    reveal_with_fuel(environment::changed, 2);
    if driver.api_key is Some {
        assert(token.drop_last() =~= Seq::empty());
    }
}

/// Whether a name is among those that are withheld.
pub proof fn lemma_withheld(keys: Seq<Seq<char>>, key: Seq<char>)
    ensures
        (environment::listed_names() + environment::sensitive_names(keys)).contains(key) <==> (
        environment::listed_names().contains(key) || (keys.contains(key)
            && environment::sensitive_by_suffix(key, text::upper_case(key)))),
{
    let listed = environment::listed_names();
    let found = environment::sensitive_names(keys);
    let pred = environment::sensitive();
    if (listed + found).contains(key) {
        let i = (listed + found).index_of(key);
        if i < listed.len() {
            assert(listed[i] == key);
        } else {
            let j = i - listed.len();
            assert(found[j] == key);
            keys.lemma_filter_pred(pred, j);
            keys.lemma_filter_contains_rev(pred, key);
        }
    }
    if listed.contains(key) {
        assert((listed + found)[listed.index_of(key)] == key);
    }
    if keys.contains(key) && pred(key) {
        keys.lemma_filter_contains(pred, keys.index_of(key));
        assert((listed + found)[listed.len() + found.index_of(key)] == key);
    }
}

/// The agent sees none of the listed variables, whatever it would inherit.
pub proof fn law_listed_names_are_withheld(
    driver: driver::DriverView,
    request: llm::RequestView,
    parent: Map<Seq<char>, Seq<char>>,
    keys: Seq<Seq<char>>,
    key: Seq<char>,
)
    requires
        environment::listed_names().contains(key),
    ensures
        !agent_env(driver, request, parent, keys).dom().contains(key),
{
    lemma_agent_env(driver, request, parent, keys, key);
    lemma_withheld(keys, key);
    lemma_listed_names(environment::listed_names().index_of(key));
}

/// The agent inherits no variable whose name ends, in upper case, like that of a secret
/// and is none of GitHub's own. Of these it sees only the token that the driver hands
/// it.
pub proof fn law_sensitive_names_are_withheld(
    driver: driver::DriverView,
    request: llm::RequestView,
    parent: Map<Seq<char>, Seq<char>>,
    keys: Seq<Seq<char>>,
    key: Seq<char>,
)
    requires
        lists(keys, parent),
        environment::sensitive_by_suffix(key, text::upper_case(key)),
    ensures
        agent_env(driver, request, parent, keys).dom().contains(key) <==> (key
            == "COPILOT_GITHUB_TOKEN"@ && driver.api_key is Some),
{
    lemma_agent_env(driver, request, parent, keys, key);
    lemma_withheld(keys, key);
    assert(keys.contains(key) <==> parent.dom().contains(key));
}

/// The agent inherits every other variable as it is.
pub proof fn law_other_names_are_inherited(
    driver: driver::DriverView,
    request: llm::RequestView,
    parent: Map<Seq<char>, Seq<char>>,
    keys: Seq<Seq<char>>,
    key: Seq<char>,
)
    requires
        !environment::listed_names().contains(key),
        !environment::sensitive_by_suffix(key, text::upper_case(key)),
        key != "COPILOT_GITHUB_TOKEN"@,
    ensures
        agent_env(driver, request, parent, keys).dom().contains(key) <==> parent.dom().contains(
            key,
        ),
        parent.dom().contains(key) ==> agent_env(driver, request, parent, keys)[key]
            == parent[key],
{
    lemma_agent_env(driver, request, parent, keys, key);
    lemma_withheld(keys, key);
}

/// The agent inherits GitHub's own variables as they are, however their names end.
pub proof fn law_github_names_are_inherited(
    driver: driver::DriverView,
    request: llm::RequestView,
    parent: Map<Seq<char>, Seq<char>>,
    keys: Seq<Seq<char>>,
    key: Seq<char>,
)
    requires
        environment::is_github_name(key),
    ensures
        agent_env(driver, request, parent, keys).dom().contains(key) <==> parent.dom().contains(
            key,
        ),
        parent.dom().contains(key) ==> agent_env(driver, request, parent, keys)[key]
            == parent[key],
{
    if environment::listed_names().contains(key) {
        lemma_listed_names(environment::listed_names().index_of(key));
    }
    if key == "COPILOT_GITHUB_TOKEN"@ {
        reveal_strlit("COPILOT_GITHUB_TOKEN");
        reveal_strlit("GITHUB_");
        assert(key.subrange(0, "GITHUB_"@.len() as int)[0] == 'G');
    }
    law_other_names_are_inherited(driver, request, parent, keys, key);
}

/// Each variable that the agent sees is inherited as it is, or is the token.
pub proof fn law_nothing_else_is_added(
    driver: driver::DriverView,
    request: llm::RequestView,
    parent: Map<Seq<char>, Seq<char>>,
    keys: Seq<Seq<char>>,
    key: Seq<char>,
)
    requires
        agent_env(driver, request, parent, keys).dom().contains(key),
    ensures
        ({
            ||| parent.dom().contains(key) && agent_env(driver, request, parent, keys)[key]
                == parent[key]
            ||| key == "COPILOT_GITHUB_TOKEN"@ && driver.api_key == Some(
                agent_env(driver, request, parent, keys)[key],
            )
        }),
{
    lemma_agent_env(driver, request, parent, keys, key);
}

/// A name that is ASCII throughout is withheld by the letters of its end alone, in
/// upper or lower case. What is required of `keys` holds of the names that a command
/// was made for.
pub proof fn law_ascii_names_are_withheld(
    driver: driver::DriverView,
    request: llm::RequestView,
    parent: Map<Seq<char>, Seq<char>>,
    keys: Seq<Seq<char>>,
    key: Seq<char>,
)
    requires
        environment::ascii_upper_known(keys),
        lists(keys, parent),
        is_ascii_chars(key),
        environment::sensitive_by_suffix(key, text::ascii_upper_case(key)),
    ensures
        agent_env(driver, request, parent, keys).dom().contains(key) <==> (key
            == "COPILOT_GITHUB_TOKEN"@ && driver.api_key is Some),
{
    if keys.contains(key) {
        assert(keys[keys.index_of(key)] == key);
        law_sensitive_names_are_withheld(driver, request, parent, keys, key);
    } else {
        lemma_agent_env(driver, request, parent, keys, key);
    }
}

/// A driver without a token leaves the agent without one: a token in the inherited
/// environment does not reach it. What is required of `keys` holds of the names that a
/// command was made for.
pub proof fn law_no_token_is_inherited(
    driver: driver::DriverView,
    request: llm::RequestView,
    parent: Map<Seq<char>, Seq<char>>,
    keys: Seq<Seq<char>>,
)
    requires
        environment::ascii_upper_known(keys),
        lists(keys, parent),
        driver.api_key is None,
    ensures
        !agent_env(driver, request, parent, keys).dom().contains("COPILOT_GITHUB_TOKEN"@),
{
    reveal_strlit("COPILOT_GITHUB_TOKEN");
    reveal_strlit("GITHUB_");
    reveal_strlit("_TOKEN");
    let key = "COPILOT_GITHUB_TOKEN"@;
    let upper = text::ascii_upper_case(key);
    assert(upper =~= key);
    assert(environment::SENSITIVE_SUFFIXES@[1]@ == "_TOKEN"@);
    assert("_TOKEN"@ =~= upper.subrange(upper.len() - 6, upper.len() as int));
    assert("_TOKEN"@.is_suffix_of(upper));
    assert(key[0] != "GITHUB_"@[0]);
    law_ascii_names_are_withheld(driver, request, parent, keys, key);
}

/// A driver with a token hands it to the agent, whatever the agent would inherit.
pub proof fn law_token_is_handed_over(
    driver: driver::DriverView,
    request: llm::RequestView,
    parent: Map<Seq<char>, Seq<char>>,
    keys: Seq<Seq<char>>,
)
    requires
        driver.api_key is Some,
    ensures
        agent_env(driver, request, parent, keys).dom().contains("COPILOT_GITHUB_TOKEN"@),
        agent_env(driver, request, parent, keys)["COPILOT_GITHUB_TOKEN"@] == driver.api_key->0,
{
    lemma_agent_env(driver, request, parent, keys, "COPILOT_GITHUB_TOKEN"@);
}

/// Leave to use everything, and not only the tools, changes one argument and no other.
pub proof fn law_permissions_change_one_argument(request: llm::RequestView)
    ensures
        command::request_args(true, request) == command::request_args(false, request).update(
            12,
            "--allow-all"@,
        ),
        command::request_args(false, request)[12] == "--allow-all-tools"@,
{
    assert(command::request_args(true, request) =~= command::request_args(false, request).update(
        12,
        "--allow-all"@,
    ));
}

/// A model is asked for by the same name with its provider before it and without.
pub proof fn law_provider_does_not_matter(model: Seq<char>)
    ensures
        driver::cli_model("copilot-cli/"@ + model) == model,
        !"copilot-cli/"@.is_prefix_of(model) ==> driver::cli_model(model) == model,
{
    let whole = "copilot-cli/"@ + model;
    assert(whole.subrange(0, "copilot-cli/"@.len() as int) =~= "copilot-cli/"@);
    assert(whole.skip("copilot-cli/"@.len() as int) =~= model);
}

/// A greater thinking budget never means less effort.
pub proof fn law_effort_grows_with_budget(less: u64, more: u64)
    requires
        less <= more,
    ensures
        command::effort_rank(command::effort_for(less)) <= command::effort_rank(
            command::effort_for(more),
        ),
{
}

/// Messages without text leave no trace in a prompt.
pub proof fn law_messages_without_text_are_left_out(
    system: Option<Seq<char>>,
    messages: Seq<message::MessageView>,
)
    ensures
        prompt::prompt(system, prompt::with_text(messages)) == prompt::prompt(system, messages),
{
    lemma_with_text_twice(messages);
}

proof fn lemma_with_text_twice(messages: Seq<message::MessageView>)
    ensures
        prompt::with_text(prompt::with_text(messages)) == prompt::with_text(messages),
    decreases messages.len(),
{
    let pred = |m: message::MessageView| prompt::has_text(m);
    reveal(Seq::filter);
    if messages.len() > 0 {
        let rest = messages.drop_last();
        lemma_with_text_twice(rest);
        prompt::with_text(rest).lemma_filter_push(messages.last(), pred);
    }
}

/// The parts of a prompt stand in it in their order, an empty line between them.
pub proof fn law_prompt_keeps_the_order(
    system: Option<Seq<char>>,
    messages: Seq<message::MessageView>,
    i: int,
    j: int,
)
    requires
        0 <= i < j < prompt::prompt_parts(system, messages).len(),
    ensures
        ({
            let parts = prompt::prompt_parts(system, messages);
            let whole = prompt::prompt(system, messages);
            let first = text::part_start(parts, "\n\n"@, i);
            let second = text::part_start(parts, "\n\n"@, j);
            &&& text::holds_at(whole, parts[i], first)
            &&& text::holds_at(whole, parts[j], second)
            &&& first + parts[i].len() + 2 <= second
        }),
{
    reveal_strlit("\n\n");
    let parts = prompt::prompt_parts(system, messages);
    text::lemma_joined_holds_part(parts, "\n\n"@, i);
    text::lemma_joined_holds_part(parts, "\n\n"@, j);
    text::lemma_joined_in_order(parts, "\n\n"@, i, j);
}

/// A prompt begins with the system prompt, where there is one.
pub proof fn law_prompt_begins_with_system(
    system: Seq<char>,
    messages: Seq<message::MessageView>,
)
    ensures
        prompt::part("System"@, system).is_prefix_of(prompt::prompt(Some(system), messages)),
{
    let parts = prompt::prompt_parts(Some(system), messages);
    assert(parts[0] == prompt::part("System"@, system));
    text::lemma_joined_holds_part(parts, "\n\n"@, 0);
}

/// Each message that has text stands in the prompt, under the name of its role.
pub proof fn law_prompt_holds_each_message(
    system: Option<Seq<char>>,
    messages: Seq<message::MessageView>,
    i: int,
)
    requires
        0 <= i < messages.len(),
        prompt::has_text(messages[i]),
    ensures
        exists|at: int|
            text::holds_at(
                prompt::prompt(system, messages),
                prompt::message_part(messages[i]),
                at,
            ),
{
    let pred = |m: message::MessageView| prompt::has_text(m);
    messages.lemma_filter_contains(pred, i);
    let kept = prompt::with_text(messages);
    let k = kept.index_of(messages[i]);
    let parts = prompt::prompt_parts(system, messages);
    let at = prompt::system_parts(system).len() + k;
    assert(parts[at] == prompt::message_part(messages[i]));
    text::lemma_joined_holds_part(parts, "\n\n"@, at);
    assert(text::holds_at(
        prompt::prompt(system, messages),
        prompt::message_part(messages[i]),
        text::part_start(parts, "\n\n"@, at),
    ));
}

/// Where among the messages with text a message stands: behind those before it.
proof fn lemma_place_with_text(messages: Seq<message::MessageView>, i: int)
    requires
        0 <= i < messages.len(),
        prompt::has_text(messages[i]),
    ensures
        prompt::with_text(messages.take(i)).len() < prompt::with_text(messages.take(i + 1)).len()
            <= prompt::with_text(messages).len(),
        prompt::with_text(messages)[prompt::with_text(messages.take(i)).len() as int]
            == messages[i],
{
    let pred = |m: message::MessageView| prompt::has_text(m);
    let before = messages.take(i);
    assert(messages.take(i + 1) =~= before.push(messages[i]));
    assert(messages =~= before.push(messages[i]) + messages.skip(i + 1));
    before.lemma_filter_push(messages[i], pred);
    Seq::filter_distributes_over_add(
        before.push(messages[i]),
        messages.skip(i + 1),
        pred,
    );
}

/// Of two messages that have text, the earlier one stands in the prompt before the
/// later one, with an empty line between them at least.
pub proof fn law_prompt_keeps_the_order_of_messages(
    system: Option<Seq<char>>,
    messages: Seq<message::MessageView>,
    i: int,
    j: int,
)
    requires
        0 <= i < j < messages.len(),
        prompt::has_text(messages[i]),
        prompt::has_text(messages[j]),
    ensures
        exists|a: int, b: int|
            {
                &&& #[trigger] text::holds_at(
                    prompt::prompt(system, messages),
                    prompt::message_part(messages[i]),
                    a,
                )
                &&& #[trigger] text::holds_at(
                    prompt::prompt(system, messages),
                    prompt::message_part(messages[j]),
                    b,
                )
                &&& a + prompt::message_part(messages[i]).len() + 2 <= b
            },
{
    let pred = |m: message::MessageView| prompt::has_text(m);
    lemma_place_with_text(messages, i);
    lemma_place_with_text(messages, j);
    let parts = prompt::prompt_parts(system, messages);
    let front = prompt::system_parts(system).len();
    let first = front + prompt::with_text(messages.take(i)).len();
    let second = front + prompt::with_text(messages.take(j)).len();
    assert(messages.take(i + 1).is_prefix_of(messages.take(j))) by {
        assert(messages.take(i + 1) =~= messages.take(j).subrange(0, i + 1));
    }
    messages.take(i + 1).lemma_filter_monotone(messages.take(j), pred);
    assert(parts[first as int] == prompt::message_part(messages[i]));
    assert(parts[second as int] == prompt::message_part(messages[j]));
    law_prompt_keeps_the_order(system, messages, first as int, second as int);
    assert(text::holds_at(
        prompt::prompt(system, messages),
        prompt::message_part(messages[i]),
        text::part_start(parts, "\n\n"@, first as int),
    ));
    assert(text::holds_at(
        prompt::prompt(system, messages),
        prompt::message_part(messages[j]),
        text::part_start(parts, "\n\n"@, second as int),
    ));
}

/// A prompt is empty only where there is no system prompt and no message has text.
pub proof fn law_prompt_is_empty_only_without_content(
    system: Option<Seq<char>>,
    messages: Seq<message::MessageView>,
)
    ensures
        prompt::prompt(system, messages).len() == 0 <==> system is None && forall|i: int|
            0 <= i < messages.len() ==> !prompt::has_text(#[trigger] messages[i]),
{
    let pred = |m: message::MessageView| prompt::has_text(m);
    let parts = prompt::prompt_parts(system, messages);
    let kept = prompt::with_text(messages);
    reveal_strlit("[");
    if parts.len() > 0 {
        text::lemma_joined_holds_part(parts, "\n\n"@, 0);
        assert(parts[0].len() > 0);
        if system is None {
            messages.lemma_filter_pred(pred, 0);
            messages.lemma_filter_contains_rev(pred, kept[0]);
            let i = messages.index_of(kept[0]);
            assert(prompt::has_text(messages[i]));
        }
    } else {
        assert forall|i: int| 0 <= i < messages.len() implies !prompt::has_text(
            #[trigger] messages[i],
        ) by {
            if prompt::has_text(messages[i]) {
                messages.lemma_filter_contains(pred, i);
            }
        }
    }
}

/// The answer is, at any time, the text that the consumer was shown as its parts.
pub proof fn law_answer_is_the_text_shown(
    start: session::SessionView,
    run: Seq<session::ProgressView>,
)
    ensures
        session::session_after(start, run).full_text == start.full_text + session::text_shown(
            session::steps_taken(start, run),
        ),
    decreases run.len(),
{
    let steps = session::steps_taken(start, run);
    if run.len() == 0 {
        assert(start.full_text + session::text_shown(steps) =~= start.full_text);
    } else {
        let before = run.drop_last();
        law_answer_is_the_text_shown(start, before);
        assert(steps.drop_last() =~= session::steps_taken(start, before));
        assert(session::session_after(start, run).full_text =~= start.full_text
            + session::text_shown(steps));
    }
}

/// A run that is completed returns, as one block, the text that the consumer was shown;
/// it calls no tools, and the consumer is told of the same usage last.
pub proof fn law_response_is_the_text_shown(
    run: Seq<session::ProgressView>,
    last: session::ProgressView,
)
    requires
        session::next_step(session::session_after(session::fresh(), run), last)
            is Complete,
    ensures
        ({
            let end = session::next_step(session::session_after(session::fresh(), run), last);
            let shown = session::text_shown(session::steps_taken(session::fresh(), run));
            &&& end->response.content == seq![
                message::ContentBlockView::Text { text: shown, provider_metadata: None },
            ]
            &&& end->response.tool_calls.len() == 0
            &&& end->Complete_event == llm::StreamEventView::ContentComplete {
                stop_reason: end->response.stop_reason,
                usage: end->response.usage,
            }
        }),
{
    law_answer_is_the_text_shown(session::fresh(), run);
    let shown = session::text_shown(session::steps_taken(session::fresh(), run));
    assert(session::fresh().full_text + shown =~= shown);
}

/// Once the consumer was shown text, the end of the agent completes the run, however
/// the agent ends; before that, only a success does.
pub proof fn law_only_silent_failures_fail(
    run: Seq<session::ProgressView>,
    success: bool,
    code: Option<i32>,
    stderr: Option<Seq<char>>,
)
    ensures
        ({
            let shown = session::text_shown(session::steps_taken(session::fresh(), run));
            let end = session::next_step(
                session::session_after(session::fresh(), run),
                session::ProgressView::Exited { success, code, stderr },
            );
            if success || shown.len() > 0 {
                end is Complete
            } else {
                end == (session::StepView::Fail {
                    error: session::silent_failure(code, stderr),
                })
            }
        }),
{
    law_answer_is_the_text_shown(session::fresh(), run);
}

/// The consumer is told that the reply is complete at its end, and never before.
pub proof fn law_completion_comes_last(
    start: session::SessionView,
    run: Seq<session::ProgressView>,
    i: int,
)
    requires
        0 <= i < run.len(),
    ensures
        session::steps_taken(start, run).len() == run.len(),
        session::steps_taken(start, run)[i] is Complete ==> run[i] is Exited,
        session::steps_taken(start, run)[i] matches session::StepView::Send { event } ==> event
            !is ContentComplete,
    decreases run.len(),
{
    let before = run.drop_last();
    if i < before.len() {
        law_completion_comes_last(start, before, i);
    } else {
        lemma_steps_len(start, before);
    }
}

pub proof fn lemma_steps_len(start: session::SessionView, run: Seq<session::ProgressView>)
    ensures
        session::steps_taken(start, run).len() == run.len(),
    decreases run.len(),
{
    if run.len() > 0 {
        lemma_steps_len(start, run.drop_last());
    }
}

/// Lines that are blank or no events change nothing and show the consumer nothing.
pub proof fn law_only_events_count(
    start: session::SessionView,
    progress: session::ProgressView,
)
    requires
        progress !is Event,
    ensures
        session::next_session(start, progress) == start,
        session::next_step(start, progress) !is Send,
{
}

/// Of the numbers of output tokens that events report, the last one counts.
pub proof fn law_last_output_report_counts(
    start: session::SessionView,
    run: Seq<session::ProgressView>,
    i: int,
)
    requires
        0 <= i < run.len(),
        session::output_report(run[i]) is Some,
        forall|j: int| i < j < run.len() ==> session::output_report(#[trigger] run[j]) is None,
    ensures
        session::session_after(start, run).usage.output_tokens == session::output_report(
            run[i],
        )->0,
    decreases run.len(),
{
    let before = run.drop_last();
    if i < before.len() {
        assert forall|j: int| i < j < before.len() implies session::output_report(
            #[trigger] before[j],
        ) is None by {
            assert(before[j] == run[j]);
        }
        law_last_output_report_counts(start, before, i);
        assert(session::output_report(run[run.len() - 1]) is None);
    }
}

/// Of the numbers of input tokens that events report, the last one counts.
pub proof fn law_last_input_report_counts(
    start: session::SessionView,
    run: Seq<session::ProgressView>,
    i: int,
)
    requires
        0 <= i < run.len(),
        session::input_report(run[i]) is Some,
        forall|j: int| i < j < run.len() ==> session::input_report(#[trigger] run[j]) is None,
    ensures
        session::session_after(start, run).usage.input_tokens == session::input_report(
            run[i],
        )->0,
    decreases run.len(),
{
    let before = run.drop_last();
    if i < before.len() {
        assert forall|j: int| i < j < before.len() implies session::input_report(
            #[trigger] before[j],
        ) is None by {
            assert(before[j] == run[j]);
        }
        law_last_input_report_counts(start, before, i);
        assert(session::input_report(run[run.len() - 1]) is None);
    }
}

/// Where no event reports a number of tokens, it stays what it was.
pub proof fn law_usage_stays_without_reports(
    start: session::SessionView,
    run: Seq<session::ProgressView>,
)
    ensures
        (forall|j: int| 0 <= j < run.len() ==> session::input_report(#[trigger] run[j]) is None)
            ==> session::session_after(start, run).usage.input_tokens
            == start.usage.input_tokens,
        (forall|j: int| 0 <= j < run.len() ==> session::output_report(#[trigger] run[j]) is None)
            ==> session::session_after(start, run).usage.output_tokens
            == start.usage.output_tokens,
    decreases run.len(),
{
    if run.len() > 0 {
        let before = run.drop_last();
        law_usage_stays_without_reports(start, before);
        assert(forall|j: int| 0 <= j < before.len() ==> #[trigger] before[j] == run[j]);
        assert(run.last() == run[run.len() - 1]);
    }
}

} // verus!
