//! Completing a prompt: the model is settled and the user's input takes its
//! place among the messages. Nothing here reads a file, a key or the network.

use vstd::prelude::*;
use crate::config::api::Api;
use crate::config::api::ApiConfig;
use crate::config::api::ApiConfigView;
use crate::config::prompt::Message;
use crate::config::prompt::MessageView;
use crate::config::prompt::PLACEHOLDER_TOKEN;
use crate::config::prompt::Prompt;
use crate::config::prompt::PromptView;
use crate::config::prompt::Temperature;
use crate::error::Error;
use crate::error::ErrorView;
use crate::error::view_result;
use crate::text::chars_of;
use crate::text::contains_token;
use crate::text::find_first;
use crate::text::first_occurrence;
use crate::text::lemma_first_occurrence_is;
use crate::text::occurs_at;
use crate::text::splice;
use crate::text::splice_text;

verus! {

/// What to do with the user's input where no message holds the placeholder.
#[derive(Clone, Copy, Debug, PartialEq, Eq, Structural)]
pub enum MissingPlaceholder {
    /// Add the input as a further message of the user.
    Append,
    /// Leave the messages as they are; the input is not sent.
    Ignore,
    /// Refuse the prompt.
    Reject,
}

/// The model that a request names: the prompt's own, else the provider's
/// default.
pub open spec fn effective_model(
    own: Option<Seq<char>>,
    default_model: Option<Seq<char>>,
) -> Option<Seq<char>> {
    if own is Some {
        own
    } else {
        default_model
    }
}

/// The message holds the placeholder.
pub open spec fn holds_placeholder(message: MessageView) -> bool {
    contains_token(message.content, PLACEHOLDER_TOKEN@)
}

/// Message `k` is the first that holds the placeholder.
pub open spec fn is_first_holder(messages: Seq<MessageView>, k: int) -> bool {
    &&& 0 <= k < messages.len()
    &&& holds_placeholder(messages[k])
    &&& forall|j: int| 0 <= j < k ==> !holds_placeholder(messages[j])
}

/// Some message holds the placeholder.
pub open spec fn any_holder(messages: Seq<MessageView>) -> bool {
    exists|k: int| 0 <= k < messages.len() && holds_placeholder(messages[k])
}

/// The first message that holds the placeholder, if any does.
pub open spec fn first_holder(messages: Seq<MessageView>) -> Option<int> {
    if any_holder(messages) {
        Some(choose|k: int| is_first_holder(messages, k))
    } else {
        None
    }
}

/// The message with `input` in the place of its first placeholder.
pub open spec fn filled(message: MessageView, input: Seq<char>) -> MessageView {
    MessageView {
        role: message.role,
        content: splice(
            message.content,
            first_occurrence(message.content, PLACEHOLDER_TOKEN@)->0,
            PLACEHOLDER_TOKEN@.len() as int,
            input,
        ),
    }
}

/// The messages with the user's input merged in: the input takes the place
/// of the first placeholder of the first message that holds one, and of no
/// other. Where no message holds one, `policy` decides.
pub open spec fn spec_merge(
    messages: Seq<MessageView>,
    input: Seq<char>,
    policy: MissingPlaceholder,
) -> Result<Seq<MessageView>, ErrorView> {
    match first_holder(messages) {
        Some(k) => Ok(messages.update(k, filled(messages[k], input))),
        None => match policy {
            MissingPlaceholder::Append => Ok(
                messages.push(MessageView { role: "user"@, content: input }),
            ),
            MissingPlaceholder::Ignore => Ok(messages),
            MissingPlaceholder::Reject => Err(ErrorView::MissingPlaceholder),
        },
    }
}

/// A prompt after its model has been settled and the user's input merged
/// in. It cannot be changed, and where its provider needs a model it has
/// one.
#[derive(Debug, PartialEq, Eq)]
pub struct ResolvedPrompt {
    provider: Api,
    model: Option<String>,
    messages: Vec<Message>,
    temperature: Option<Temperature>,
}

/// What a `ResolvedPrompt` holds, as mathematical values.
pub ghost struct ResolvedPromptView {
    pub provider: Api,
    pub model: Option<Seq<char>>,
    pub messages: Seq<MessageView>,
    pub temperature: Option<Seq<char>>,
}

impl View for ResolvedPrompt {
    type V = ResolvedPromptView;

    closed spec fn view(&self) -> ResolvedPromptView {
        ResolvedPromptView {
            provider: self.provider,
            model: self.model.deep_view(),
            messages: self.messages.deep_view(),
            temperature: self.temperature.deep_view(),
        }
    }
}

/// The resolved prompt, or why there is none: a provider that needs a model
/// gets one from the prompt, else from its configuration, else the prompt
/// is refused; then the input is merged into the messages.
pub open spec fn spec_resolve(
    prompt: PromptView,
    config: ApiConfigView,
    input: Seq<char>,
    policy: MissingPlaceholder,
) -> Result<ResolvedPromptView, ErrorView> {
    let model = effective_model(prompt.model, config.default_model);
    if model is None && prompt.api.spec_is_openai_compatible() {
        Err(ErrorView::MissingModel { provider: prompt.api })
    } else {
        match spec_merge(prompt.messages, input, policy) {
            Err(e) => Err(e),
            Ok(messages) => Ok(
                ResolvedPromptView {
                    provider: prompt.api,
                    model,
                    messages,
                    temperature: prompt.temperature,
                },
            ),
        }
    }
}

impl ResolvedPrompt {
    #[verifier::type_invariant]
    closed spec fn well_formed(&self) -> bool {
        self.provider.spec_is_openai_compatible() ==> self.model is Some
    }

    /// The provider that the prompt is for.
    pub fn provider(&self) -> (provider: Api)
        ensures
            provider == self@.provider,
    {
        self.provider
    }

    /// The model to ask; there is one wherever the provider needs one.
    pub fn model(&self) -> (model: &Option<String>)
        ensures
            model.deep_view() == self@.model,
            self@.provider.spec_is_openai_compatible() ==> model is Some,
    {
        proof {
            use_type_invariant(self);
        }
        &self.model
    }

    /// The messages to send, in order.
    pub fn messages(&self) -> (messages: &Vec<Message>)
        ensures
            messages.deep_view() == self@.messages,
    {
        &self.messages
    }

    /// The sampling temperature, if one is set.
    pub fn temperature(&self) -> (temperature: &Option<Temperature>)
        ensures
            temperature.deep_view() == self@.temperature,
    {
        &self.temperature
    }
}

/// The first message that holds the placeholder is the one that
/// `first_holder` names.
pub proof fn lemma_first_holder_is(messages: Seq<MessageView>, k: int)
    requires
        is_first_holder(messages, k),
    ensures
        first_holder(messages) == Some(k),
{
    // Two first holders cannot differ: the later one would have the
    // earlier one before it.
    let c = choose|c: int| is_first_holder(messages, c);
    assert(is_first_holder(messages, c));
    assert(c == k);
}

/// Merges the user's input into the messages.
pub fn merge_input(messages: Vec<Message>, input: &str, policy: MissingPlaceholder) -> (merged:
    Result<Vec<Message>, Error>)
    ensures
        match merged {
            Ok(out) => spec_merge(messages.deep_view(), input@, policy) == Ok::<
                Seq<MessageView>,
                ErrorView,
            >(out.deep_view()),
            Err(e) => spec_merge(messages.deep_view(), input@, policy) == Err::<
                Seq<MessageView>,
                ErrorView,
            >(e@),
        },
{
    let ghost views = messages.deep_view();
    let token = chars_of(PLACEHOLDER_TOKEN);
    let mut list = messages;
    let mut i: usize = 0;
    while i < list.len()
        invariant
            i <= list.len(),
            token@ == PLACEHOLDER_TOKEN@,
            views == list.deep_view(),
            views == messages.deep_view(),
            forall|j: int| 0 <= j < i ==> !holds_placeholder(views[j]),
        decreases list.len() - i,
    {
        let content = chars_of(list[i].content.as_str());
        match find_first(&content, &token) {
            Some(at) => {
                let done = Message {
                    role: list[i].role.clone(),
                    content: splice_text(list[i].content.as_str(), at, token.len(), input),
                };
                list.set(i, done);
                proof {
                    lemma_first_holder_is(views, i as int);
                    assert(list.deep_view() =~= views.update(
                        i as int,
                        filled(views[i as int], input@),
                    ));
                }
                return Ok(list);
            },
            None => {},
        }
        i += 1;
    }
    match policy {
        MissingPlaceholder::Append => {
            list.push(Message::user(input));
            proof {
                assert(list.deep_view() =~= views.push(
                    MessageView { role: "user"@, content: input@ },
                ));
            }
            Ok(list)
        },
        MissingPlaceholder::Ignore => Ok(list),
        MissingPlaceholder::Reject => Err(Error::MissingPlaceholder),
    }
}

/// Resolves a prompt against the configuration of its provider: settles
/// the model and merges the user's input into the messages, as `policy`
/// says where no message holds the placeholder.
pub fn resolve_with(
    prompt: Prompt,
    api_config: &ApiConfig,
    user_input: &str,
    policy: MissingPlaceholder,
) -> (resolved: Result<ResolvedPrompt, Error>)
    ensures
        view_result(resolved) == spec_resolve(prompt@, api_config@, user_input@, policy),
{
    let Prompt { api, model, messages, temperature } = prompt;
    let model = if model.is_some() {
        model
    } else {
        api_config.default_model.clone()
    };
    if model.is_none() && api.requires_model() {
        return Err(Error::MissingModel { provider: api });
    }
    match merge_input(messages, user_input, policy) {
        Err(e) => Err(e),
        Ok(messages) => Ok(ResolvedPrompt { provider: api, model, messages, temperature }),
    }
}

/// Resolves a prompt against the configuration of its provider. Where no
/// message holds the placeholder, the input is added as a further message
/// of the user.
pub fn resolve(prompt: Prompt, api_config: &ApiConfig, user_input: &str) -> (resolved: Result<
    ResolvedPrompt,
    Error,
>)
    ensures
        view_result(resolved) == spec_resolve(
            prompt@,
            api_config@,
            user_input@,
            MissingPlaceholder::Append,
        ),
{
    resolve_with(prompt, api_config, user_input, MissingPlaceholder::Append)
}

/// Where the placeholder stands at exactly one place of all the messages,
/// the input is put at that place, once, whatever the policy: the message
/// keeps its role, and every other message stays as it is.
pub proof fn lemma_single_placeholder_filled(
    messages: Seq<MessageView>,
    input: Seq<char>,
    policy: MissingPlaceholder,
    k: int,
    at: int,
)
    requires
        0 <= k < messages.len(),
        occurs_at(messages[k].content, PLACEHOLDER_TOKEN@, at),
        forall|j: int, i: int|
            0 <= j < messages.len() && occurs_at(messages[j].content, PLACEHOLDER_TOKEN@, i) ==> j
                == k && i == at,
    ensures
        spec_merge(messages, input, policy) == Ok::<Seq<MessageView>, ErrorView>(
            messages.update(
                k,
                MessageView {
                    role: messages[k].role,
                    content: splice(
                        messages[k].content,
                        at,
                        PLACEHOLDER_TOKEN@.len() as int,
                        input,
                    ),
                },
            ),
        ),
{
    lemma_first_occurrence_is(messages[k].content, PLACEHOLDER_TOKEN@, at);
    lemma_first_holder_is(messages, k);
}

/// Where no message holds the placeholder, the policy decides: the input
/// becomes a further message of the user, or the messages stay as they are,
/// or the prompt is refused.
pub proof fn lemma_absent_placeholder(
    messages: Seq<MessageView>,
    input: Seq<char>,
    policy: MissingPlaceholder,
)
    requires
        forall|j: int| 0 <= j < messages.len() ==> !holds_placeholder(messages[j]),
    ensures
        spec_merge(messages, input, policy) == match policy {
            MissingPlaceholder::Append => Ok::<Seq<MessageView>, ErrorView>(
                messages.push(MessageView { role: "user"@, content: input }),
            ),
            MissingPlaceholder::Ignore => Ok(messages),
            MissingPlaceholder::Reject => Err(ErrorView::MissingPlaceholder),
        },
{
}

} // verus!
