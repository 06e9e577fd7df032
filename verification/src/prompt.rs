//! The prompt: a conversation as one text.

use vstd::prelude::*;
use vstd::string::*;

use crate::driver::CopilotCliDriver;
use crate::llm::CompletionRequest;
use crate::message;
use crate::message::Role;
use crate::text;

verus! {

/// The name that a role has in a prompt.
pub open spec fn role_label(role: Role) -> Seq<char> {
    match role {
        Role::User => "User"@,
        Role::Assistant => "Assistant"@,
        Role::System => "System"@,
    }
}

/// A part of a prompt: a label in brackets on a line of its own, then the text.
pub open spec fn part(label: Seq<char>, text: Seq<char>) -> Seq<char> {
    "["@ + label + "]\n"@ + text
}

/// The part of a prompt that a message makes.
pub open spec fn message_part(m: message::MessageView) -> Seq<char> {
    part(role_label(m.role), m.text)
}

/// Whether a message has text.
pub open spec fn has_text(m: message::MessageView) -> bool {
    m.text.len() > 0
}

/// The messages that have text.
pub open spec fn with_text(messages: Seq<message::MessageView>) -> Seq<message::MessageView> {
    messages.filter(|m: message::MessageView| has_text(m))
}

/// The part that the system prompt makes, if there is one.
pub open spec fn system_parts(system: Option<Seq<char>>) -> Seq<Seq<char>> {
    match system {
        Some(s) => seq![part("System"@, s)],
        None => Seq::empty(),
    }
}

/// The parts that the messages with text make.
pub open spec fn message_parts(messages: Seq<message::MessageView>) -> Seq<Seq<char>> {
    with_text(messages).map_values(|m: message::MessageView| message_part(m))
}

/// The parts of a prompt: the system prompt, if there is one, then each message that
/// has text.
pub open spec fn prompt_parts(
    system: Option<Seq<char>>,
    messages: Seq<message::MessageView>,
) -> Seq<Seq<char>> {
    system_parts(system) + message_parts(messages)
}

/// The prompt: its parts, with an empty line between each and the next.
pub open spec fn prompt(
    system: Option<Seq<char>>,
    messages: Seq<message::MessageView>,
) -> Seq<char> {
    text::joined(prompt_parts(system, messages), "\n\n"@)
}

fn label_of(role: Role) -> (label: &'static str)
    ensures
        label@ == role_label(role),
{
    match role {
        Role::User => "User",
        Role::Assistant => "Assistant",
        Role::System => "System",
    }
}

fn part_of(label: &str, text: &str) -> (p: String)
    ensures
        p@ == part(label@, text@),
{
    "[".to_string().concat(label).concat("]\n").concat(text)
}

impl CopilotCliDriver {
    /// The prompt of a request.
    pub fn build_prompt(request: &CompletionRequest) -> (p: String)
        ensures
            p@ == prompt(request@.system, request@.messages),
    {
        let mut parts: Vec<String> = Vec::new();
        if let Some(system) = &request.system {
            parts.push(part_of("System", system.as_str()));
        }
        let ghost messages = request@.messages;
        let mut i: usize = 0;
        proof {
            assert(messages.take(0) =~= Seq::empty());
            assert(message_parts(messages.take(0)) =~= Seq::empty());
            assert(text::texts(parts@) =~= prompt_parts(request@.system, messages.take(0)));
        }
        while i < request.messages.len()
            invariant
                messages == request@.messages,
                i <= request.messages.len(),
                text::texts(parts@) == prompt_parts(request@.system, messages.take(i as int)),
            decreases request.messages.len() - i,
        {
            let ghost before = text::texts(parts@);
            let message = &request.messages[i];
            let text = message.content.text_content();
            if !text.is_empty() {
                parts.push(part_of(label_of(message.role), text));
            }
            proof {
                let seen = messages.take(i as int);
                assert(messages.take(i + 1) =~= seen.push(messages[i as int]));
                seen.lemma_filter_push(messages[i as int], |m: message::MessageView| has_text(m));
                if has_text(messages[i as int]) {
                    assert(message_parts(messages.take(i + 1)) =~= message_parts(seen).push(
                        message_part(messages[i as int]),
                    ));
                    assert(text::texts(parts@) =~= before.push(message_part(messages[i as int])));
                }
                assert(text::texts(parts@) =~= prompt_parts(
                    request@.system,
                    messages.take(i + 1),
                ));
            }
            i += 1;
        }
        assert(messages.take(i as int) =~= messages);
        text::join(&parts, "\n\n")
    }
}

} // verus!
