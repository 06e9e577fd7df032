//! What a prompt says, whatever the conversation.

use vstd::prelude::*;

use crate::laws;
use crate::llm::CompletionRequest;
use crate::message;
use crate::message::Role;
use crate::prompt;
use crate::text;
use crate::text_laws;

verus! {

/// What stands before the text of a message.
pub open spec fn heading(role: Role) -> Seq<char> {
    match role {
        Role::System => "["@ + "System"@ + "]\n"@,
        Role::User => "["@ + "User"@ + "]\n"@,
        Role::Assistant => "["@ + "Assistant"@ + "]\n"@,
    }
}

/// Each message that has text stands in the prompt in one piece: its heading, then the
/// whole of its text.
pub proof fn law_prompt_holds_the_whole_of_each_message(
    system: Option<Seq<char>>,
    messages: Seq<message::MessageView>,
    i: int,
)
    requires
        0 <= i < messages.len(),
        messages[i].text.len() > 0,
    ensures
        exists|front: Seq<char>, back: Seq<char>|
            prompt::prompt(system, messages) == #[trigger] (front + (heading(messages[i].role)
                + messages[i].text) + back),
{
    laws::law_prompt_holds_each_message(system, messages, i);
    let whole = prompt::prompt(system, messages);
    let piece = heading(messages[i].role) + messages[i].text;
    assert(piece == prompt::message_part(messages[i]));
    let at = choose|at: int| text::holds_at(whole, prompt::message_part(messages[i]), at);
    let front = whole.subrange(0, at);
    let back = whole.subrange(at + piece.len(), whole.len() as int);
    assert(whole =~= front + whole.subrange(at, at + piece.len()) + back);
    assert(whole == front + (heading(messages[i].role) + messages[i].text) + back);
}

/// Where there is a system prompt, the prompt begins with its heading and the whole of
/// it.
pub proof fn law_prompt_begins_with_the_whole_system_prompt(
    system: Seq<char>,
    messages: Seq<message::MessageView>,
)
    ensures
        ("[System]\n"@ + system).is_prefix_of(prompt::prompt(Some(system), messages)),
{
    laws::law_prompt_begins_with_system(system, messages);
    lemma_system_heading();
    assert(prompt::part("System"@, system) =~= "[System]\n"@ + system);
}

proof fn lemma_system_heading()
    ensures
        "[System]\n"@ == "["@ + "System"@ + "]\n"@,
{
    reveal_strlit("[System]\n");
    reveal_strlit("[");
    reveal_strlit("System");
    reveal_strlit("]\n");
    assert("[System]\n"@ =~= "["@ + "System"@ + "]\n"@);
}

/// Without messages the prompt is the system prompt under its heading, or nothing.
pub proof fn law_prompt_without_messages(system: Seq<char>)
    ensures
        prompt::prompt(Some(system), Seq::empty()) == "[System]\n"@ + system,
        prompt::prompt(None, Seq::empty()).len() == 0,
{
    lemma_system_heading();
    reveal(Seq::filter);
    let none = Seq::<message::MessageView>::empty();
    assert(prompt::message_parts(none) =~= Seq::empty());
    assert(prompt::prompt_parts(Some(system), none) =~= seq![prompt::part("System"@, system)]);
    assert(prompt::prompt_parts(None, none) =~= Seq::empty());
    assert(prompt::part("System"@, system) =~= "[System]\n"@ + system);
}

/// One more message leaves the prompt as it was and, if it has text, adds its heading
/// and the whole of its text, behind an empty line if anything stands before it.
pub proof fn law_prompt_grows_by_one_message(
    system: Option<Seq<char>>,
    messages: Seq<message::MessageView>,
    more: message::MessageView,
)
    ensures
        ({
            let before = prompt::prompt(system, messages);
            let after = prompt::prompt(system, messages.push(more));
            if more.text.len() == 0 {
                after == before
            } else if before.len() == 0 {
                after == heading(more.role) + more.text
            } else {
                after == before + "\n\n"@ + (heading(more.role) + more.text)
            }
        }),
{
    let pred = |m: message::MessageView| prompt::has_text(m);
    messages.lemma_filter_push(more, pred);
    let parts = prompt::prompt_parts(system, messages);
    let piece = heading(more.role) + more.text;
    assert(piece == prompt::message_part(more));
    if more.text.len() > 0 {
        assert(prompt::message_parts(messages.push(more)) =~= prompt::message_parts(messages).push(
            piece,
        ));
        assert(prompt::prompt_parts(system, messages.push(more)) =~= parts.push(piece));
        text_laws::law_joining_one_more_part(parts, piece, "\n\n"@);
        if parts.len() > 0 {
            reveal_strlit("[");
            text::lemma_joined_holds_part(parts, "\n\n"@, 0);
            assert(parts[0].len() > 0);
        }
    }
}

/// A request is seen as what its fields hold, each message as its role and its text.
pub proof fn law_request_is_seen_as_it_is(request: CompletionRequest, i: int)
    requires
        0 <= i < request.messages@.len(),
    ensures
        request@.messages.len() == request.messages@.len(),
        request@.messages[i].role == request.messages@[i].role,
        request@.messages[i].text == request.messages@[i].content.text@,
{
}

/// A request is seen as what its fields hold.
pub proof fn law_request_fields_are_seen_as_they_are(request: CompletionRequest)
    ensures
        request@.model == request.model@,
        request@.messages.len() == request.messages@.len(),
        request@.max_tokens == request.max_tokens,
        request@.thinking == request.thinking,
        match request.system {
            Some(system) => request@.system == Some(system@),
            None => request@.system is None,
        },
{
}

} // verus!
