//! The environment of the agent: which variables it does not inherit, and why.

use vstd::prelude::*;
use vstd::utf8::*;

use crate::text;

verus! {

/// Variables that are always withheld.
pub const SENSITIVE_ENV_EXACT: [&'static str; 21] = [
    "OPENAI_API_KEY",
    "ANTHROPIC_API_KEY",
    "GEMINI_API_KEY",
    "GOOGLE_API_KEY",
    "GROQ_API_KEY",
    "DEEPSEEK_API_KEY",
    "MISTRAL_API_KEY",
    "TOGETHER_API_KEY",
    "FIREWORKS_API_KEY",
    "OPENROUTER_API_KEY",
    "PERPLEXITY_API_KEY",
    "COHERE_API_KEY",
    "AI21_API_KEY",
    "CEREBRAS_API_KEY",
    "SAMBANOVA_API_KEY",
    "HUGGINGFACE_API_KEY",
    "XAI_API_KEY",
    "REPLICATE_API_TOKEN",
    "BRAVE_API_KEY",
    "TAVILY_API_KEY",
    "ELEVENLABS_API_KEY",
];

/// Variables are withheld whose names end so, in upper or lower case.
pub const SENSITIVE_SUFFIXES: [&'static str; 3] = ["_SECRET", "_TOKEN", "_PASSWORD"];

/// A change to the environment that a process inherits.
#[derive(Debug, PartialEq, Eq)]
pub enum EnvChange {
    Remove { key: String },
    Assign { key: String, value: String },
}

/// A change to an environment, over plain text.
#[verifier::ext_equal]
pub enum EnvChangeView {
    Remove { key: Seq<char> },
    Assign { key: Seq<char>, value: Seq<char> },
}

impl View for EnvChange {
    type V = EnvChangeView;

    open spec fn view(&self) -> EnvChangeView {
        match self {
            EnvChange::Remove { key } => EnvChangeView::Remove { key: key@ },
            EnvChange::Assign { key, value } => EnvChangeView::Assign { key: key@, value: value@ },
        }
    }
}

/// The views of a list of changes.
pub open spec fn change_views(changes: Seq<EnvChange>) -> Seq<EnvChangeView> {
    Seq::new(changes.len(), |i: int| changes[i]@)
}

/// An environment after changes, made one after the other.
pub open spec fn changed(
    env: Map<Seq<char>, Seq<char>>,
    changes: Seq<EnvChangeView>,
) -> Map<Seq<char>, Seq<char>>
    decreases changes.len(),
{
    if changes.len() == 0 {
        env
    } else {
        let before = changed(env, changes.drop_last());
        match changes.last() {
            EnvChangeView::Remove { key } => before.remove(key),
            EnvChangeView::Assign { key, value } => before.insert(key, value),
        }
    }
}

/// The names that are always withheld.
pub open spec fn listed_names() -> Seq<Seq<char>> {
    Seq::new(SENSITIVE_ENV_EXACT@.len(), |i: int| SENSITIVE_ENV_EXACT@[i]@)
}

/// Whether a name, in upper case, ends like that of a secret.
pub open spec fn has_sensitive_suffix(upper: Seq<char>) -> bool {
    exists|i: int|
        0 <= i < SENSITIVE_SUFFIXES@.len() && (#[trigger] SENSITIVE_SUFFIXES@[i])@.is_suffix_of(
            upper,
        )
}

/// Whether a name is one of GitHub's own, which the agent needs.
pub open spec fn is_github_name(key: Seq<char>) -> bool {
    "GITHUB_"@.is_prefix_of(key)
}

/// Whether the variable `key`, which is `upper` in upper case, is withheld for how
/// its name ends.
pub open spec fn sensitive_by_suffix(key: Seq<char>, upper: Seq<char>) -> bool {
    !is_github_name(key) && has_sensitive_suffix(upper)
}

/// Whether a variable is withheld for how its name ends.
pub open spec fn sensitive() -> spec_fn(Seq<char>) -> bool {
    |key: Seq<char>| sensitive_by_suffix(key, text::upper_case(key))
}

/// Of the given names, those that are withheld for how they end.
pub open spec fn sensitive_names(keys: Seq<Seq<char>>) -> Seq<Seq<char>> {
    keys.filter(sensitive())
}

/// The changes that remove the given names.
pub open spec fn removals(keys: Seq<Seq<char>>) -> Seq<EnvChangeView> {
    Seq::new(keys.len(), |i: int| EnvChangeView::Remove { key: keys[i] })
}

/// The changes that keep secrets from the agent: the listed names go, then those of
/// the inherited names `keys` that end like that of a secret.
pub open spec fn filter_changes(keys: Seq<Seq<char>>) -> Seq<EnvChangeView> {
    removals(listed_names() + sensitive_names(keys))
}

/// Whether each of the names that is ASCII throughout, and none of GitHub's own, has
/// the upper case that ASCII gives it.
pub open spec fn ascii_upper_known(keys: Seq<Seq<char>>) -> bool {
    forall|i: int|
        0 <= i < keys.len() && is_ascii_chars(#[trigger] keys[i]) && !is_github_name(keys[i])
            ==> text::upper_case(keys[i]) == text::ascii_upper_case(keys[i])
}

/// Whether the variable `key`, which is `upper` in upper case, is withheld for how
/// its name ends.
pub fn is_sensitive(key: &str, upper: &str) -> (b: bool)
    ensures
        b == sensitive_by_suffix(key@, upper@),
{
    if text::starts_with(key, "GITHUB_") {
        return false;
    }
    let mut i: usize = 0;
    while i < SENSITIVE_SUFFIXES.len()
        invariant
            i <= SENSITIVE_SUFFIXES@.len(),
            !is_github_name(key@),
            forall|j: int|
                0 <= j < i ==> !(#[trigger] SENSITIVE_SUFFIXES@[j])@.is_suffix_of(upper@),
        decreases SENSITIVE_SUFFIXES@.len() - i,
    {
        if text::ends_with(upper, SENSITIVE_SUFFIXES[i]) {
            return true;
        }
        i += 1;
    }
    false
}

/// Adds the changes that keep secrets from the agent; `keys` are the names of the
/// variables that it would inherit.
pub(crate) fn withhold_secrets(changes: &mut Vec<EnvChange>, keys: &Vec<String>)
    ensures
        change_views(final(changes)@) == change_views(old(changes)@) + filter_changes(
            text::texts(keys@),
        ),
        ascii_upper_known(text::texts(keys@)),
{
    let ghost start = change_views(changes@);
    let mut i: usize = 0;
    while i < SENSITIVE_ENV_EXACT.len()
        invariant
            i <= SENSITIVE_ENV_EXACT@.len(),
            change_views(changes@) == start + removals(listed_names().take(i as int)),
        decreases SENSITIVE_ENV_EXACT@.len() - i,
    {
        let ghost before = changes@;
        changes.push(EnvChange::Remove { key: SENSITIVE_ENV_EXACT[i].to_string() });
        assert(change_views(changes@) =~= change_views(before).push(changes@.last()@));
        assert(removals(listed_names().take(i + 1)) =~= removals(
            listed_names().take(i as int),
        ).push(EnvChangeView::Remove { key: listed_names()[i as int] }));
        i += 1;
    }
    assert(listed_names().take(i as int) =~= listed_names());

    let ghost names = text::texts(keys@);
    let mut k: usize = 0;
    proof {
        assert(names.take(0).filter(sensitive()) =~= Seq::empty());
        assert(listed_names() + sensitive_names(names.take(0)) =~= listed_names());
    }
    while k < keys.len()
        invariant
            k <= keys.len(),
            names == text::texts(keys@),
            change_views(changes@) == start + filter_changes(names.take(k as int)),
            ascii_upper_known(names.take(k as int)),
        decreases keys.len() - k,
    {
        let key: &str = keys[k].as_str();
        let ghost before = changes@;
        let ghost seen = names.take(k as int);
        proof {
            assert(names.take(k + 1) =~= seen.push(key@));
            seen.lemma_filter_push(key@, sensitive());
        }
        if !text::starts_with(key, "GITHUB_") {
            let upper: String = text::to_uppercase(key);
            if is_sensitive(key, upper.as_str()) {
                changes.push(EnvChange::Remove { key: keys[k].clone() });
                assert(change_views(changes@) =~= change_views(before).push(
                    EnvChangeView::Remove { key: key@ },
                ));
                assert(filter_changes(names.take(k + 1)) =~= filter_changes(seen).push(
                    EnvChangeView::Remove { key: key@ },
                ));
            }
        }
        assert(change_views(changes@) =~= start + filter_changes(names.take(k + 1)));
        assert(ascii_upper_known(names.take(k + 1))) by {
            assert forall|i: int|
                0 <= i < k + 1 && is_ascii_chars(#[trigger] names.take(k + 1)[i])
                    && !is_github_name(names.take(k + 1)[i]) implies text::upper_case(
                names.take(k + 1)[i],
            ) == text::ascii_upper_case(names.take(k + 1)[i]) by {
                if i < k {
                    assert(seen[i] == names.take(k + 1)[i]);
                }
            }
        }
        k += 1;
    }
    assert(names.take(k as int) =~= names);
}

} // verus!
