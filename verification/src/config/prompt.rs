//! Prompt templates: the messages sent to a provider before the user's input
//! is merged in.

use vstd::prelude::*;
use crate::config::api::Api;
use crate::text::all_digits;
use crate::text::char_is_digit;
use crate::text::chars_of;
use crate::text::is_digit;
use crate::text::text_eq;

verus! {

/// The marker in a message template that the user's input takes the place of.
pub const PLACEHOLDER_TOKEN: &'static str = "#[<input>]";

/// `s` is a natural number in decimal notation without superfluous zeros.
pub open spec fn is_natural(s: Seq<char>) -> bool {
    &&& s.len() > 0
    &&& all_digits(s)
    &&& (s.len() == 1 || s[0] != '0')
}

/// `s` is a natural number, or one followed by a point and further digits.
pub open spec fn is_unsigned_decimal(s: Seq<char>) -> bool {
    ||| is_natural(s)
    ||| exists|k: int|
        {
            &&& 0 < k < s.len() - 1
            &&& s[k] == '.'
            &&& is_natural(#[trigger] s.subrange(0, k))
            &&& all_digits(s.subrange(k + 1, s.len() as int))
        }
}

/// `s` is a decimal number with an optional minus sign: the numbers that
/// mean the same in a configuration file and in a JSON document.
pub open spec fn is_decimal(s: Seq<char>) -> bool {
    if s.len() > 0 && s[0] == '-' {
        is_unsigned_decimal(s.subrange(1, s.len() as int))
    } else {
        is_unsigned_decimal(s)
    }
}

/// The end of the run of digits that starts at `from`.
fn digits_end(v: &Vec<char>, from: usize) -> (end: usize)
    requires
        from <= v.len(),
    ensures
        from <= end <= v.len(),
        forall|j: int| from <= j < end ==> is_digit(v@[j]),
        end < v.len() ==> !is_digit(v@[end as int]),
{
    let mut end: usize = from;
    while end < v.len() && char_is_digit(v[end])
        invariant
            from <= end <= v.len(),
            forall|j: int| from <= j < end ==> is_digit(v@[j]),
        decreases v.len() - end,
    {
        end += 1;
    }
    end
}

/// Whether the characters of `v` from `start` on are an unsigned decimal.
fn unsigned_decimal_from(v: &Vec<char>, start: usize) -> (ok: bool)
    requires
        start <= v.len(),
    ensures
        ok == is_unsigned_decimal(v@.subrange(start as int, v@.len() as int)),
{
    let ghost s = v@.subrange(start as int, v@.len() as int);
    let point = digits_end(v, start);
    let ghost k = point - start;
    proof {
        // Any point that splits `s` as the grammar asks stands at `k`.
        assert forall|m: int|
            0 < m < s.len() - 1 && s[m] == '.' && is_natural(#[trigger] s.subrange(0, m))
            implies m == k by {
            let head = s.subrange(0, m);
            if k < m {
                assert(is_digit(head[k]));
            }
        }
    }
    if point == start {
        proof {
            if s.len() > 0 {
                if is_natural(s) {
                    assert(is_digit(s[0]));
                }
            }
        }
        return false;
    }
    if v[start] == '0' && point != start + 1 {
        return false;
    }
    proof {
        assert(is_natural(s.subrange(0, k)));
    }
    if point == v.len() {
        return true;
    }
    proof {
        assert(!is_digit(s[k]));
    }
    if v[point] != '.' || point + 1 == v.len() {
        return false;
    }
    let end = digits_end(v, point + 1);
    proof {
        let tail = s.subrange(k + 1, s.len() as int);
        if end != v.len() {
            assert(tail[end - point - 1] == v@[end as int]);
        }
    }
    end == v.len()
}

/// A sampling temperature, kept as the decimal number that was written for
/// it, so that it reaches the provider digit for digit.
#[derive(Debug, PartialEq, Eq)]
pub struct Temperature {
    text: String,
}

impl View for Temperature {
    type V = Seq<char>;

    closed spec fn view(&self) -> Seq<char> {
        self.text@
    }
}

impl DeepView for Temperature {
    type V = Seq<char>;

    open spec fn deep_view(&self) -> Seq<char> {
        self@
    }
}

impl Temperature {
    #[verifier::type_invariant]
    closed spec fn well_formed(&self) -> bool {
        is_decimal(self.text@)
    }

    /// Reads a temperature; `None` where `text` is no decimal number.
    pub fn parse(text: &str) -> (parsed: Option<Temperature>)
        ensures
            match parsed {
                Some(t) => is_decimal(text@) && t@ == text@,
                None => !is_decimal(text@),
            },
    {
        let chars = chars_of(text);
        let start: usize = if chars.len() > 0 && chars[0] == '-' {
            1
        } else {
            0
        };
        if unsigned_decimal_from(&chars, start) {
            proof {
                if start == 0 {
                    assert(chars@.subrange(0, chars@.len() as int) =~= chars@);
                }
            }
            Some(Temperature { text: String::from_str(text) })
        } else {
            proof {
                if start == 0 {
                    assert(chars@.subrange(0, chars@.len() as int) =~= chars@);
                }
            }
            None
        }
    }

    /// The number as it was written.
    pub fn as_str(&self) -> (text: &str)
        ensures
            text@ == self@,
            is_decimal(text@),
    {
        proof {
            use_type_invariant(self);
        }
        self.text.as_str()
    }

    /// A copy of the temperature.
    pub fn duplicate(&self) -> (copy: Temperature)
        ensures
            copy@ == self@,
    {
        proof {
            use_type_invariant(self);
        }
        Temperature { text: self.text.clone() }
    }
}

impl Clone for Temperature {
    fn clone(&self) -> (copy: Temperature)
        ensures
            copy@ == self@,
    {
        self.duplicate()
    }
}

/// One turn of a conversation.
#[derive(Clone, Debug, PartialEq, Eq)]
pub struct Message {
    pub role: String,
    pub content: String,
}

/// What a `Message` holds, as mathematical values.
pub ghost struct MessageView {
    pub role: Seq<char>,
    pub content: Seq<char>,
}

impl View for Message {
    type V = MessageView;

    open spec fn view(&self) -> MessageView {
        MessageView { role: self.role@, content: self.content@ }
    }
}

impl DeepView for Message {
    type V = MessageView;

    open spec fn deep_view(&self) -> MessageView {
        self@
    }
}

/// The roles that a provider accepts.
pub open spec fn is_known_role(role: Seq<char>) -> bool {
    role == "system"@ || role == "user"@ || role == "assistant"@
}

/// Tells whether `role` is one that a provider accepts.
pub fn role_is_known(role: &str) -> (known: bool)
    ensures
        known == is_known_role(role@),
{
    text_eq(role, "system") || text_eq(role, "user") || text_eq(role, "assistant")
}

impl Message {
    /// A message spoken by the user.
    pub fn user(content: &str) -> (message: Message)
        ensures
            message@ == (MessageView { role: "user"@, content: content@ }),
    {
        Message { role: String::from_str("user"), content: String::from_str(content) }
    }

    /// A message that instructs the model.
    pub fn system(content: &str) -> (message: Message)
        ensures
            message@ == (MessageView { role: "system"@, content: content@ }),
    {
        Message { role: String::from_str("system"), content: String::from_str(content) }
    }

    /// A message spoken by the model.
    pub fn assistant(content: &str) -> (message: Message)
        ensures
            message@ == (MessageView { role: "assistant"@, content: content@ }),
    {
        Message { role: String::from_str("assistant"), content: String::from_str(content) }
    }

    /// Whether the role is one that a provider accepts.
    pub fn has_known_role(&self) -> (known: bool)
        ensures
            known == is_known_role(self@.role),
    {
        role_is_known(self.role.as_str())
    }

    /// A copy of the message.
    pub fn duplicate(&self) -> (copy: Message)
        ensures
            copy@ == self@,
    {
        Message { role: self.role.clone(), content: self.content.clone() }
    }
}

/// Copies a list of messages.
pub fn duplicate_messages(messages: &Vec<Message>) -> (copy: Vec<Message>)
    ensures
        copy.deep_view() == messages.deep_view(),
{
    let mut copy: Vec<Message> = Vec::new();
    let mut i: usize = 0;
    while i < messages.len()
        invariant
            i <= messages.len(),
            copy@.len() == i,
            forall|j: int| 0 <= j < i ==> copy@[j]@ == messages@[j]@,
        decreases messages.len() - i,
    {
        copy.push(messages[i].duplicate());
        i += 1;
    }
    copy
}

/// A named template: the provider to ask, the model, the messages that
/// frame the user's input, and the sampling temperature.
#[derive(Clone, Debug, PartialEq, Eq)]
pub struct Prompt {
    pub api: Api,
    pub model: Option<String>,
    pub messages: Vec<Message>,
    pub temperature: Option<Temperature>,
}

/// What a `Prompt` holds, as mathematical values.
pub ghost struct PromptView {
    pub api: Api,
    pub model: Option<Seq<char>>,
    pub messages: Seq<MessageView>,
    pub temperature: Option<Seq<char>>,
}

impl View for Prompt {
    type V = PromptView;

    open spec fn view(&self) -> PromptView {
        PromptView {
            api: self.api,
            model: self.model.deep_view(),
            messages: self.messages.deep_view(),
            temperature: self.temperature.deep_view(),
        }
    }
}

impl DeepView for Prompt {
    type V = PromptView;

    open spec fn deep_view(&self) -> PromptView {
        self@
    }
}

/// The instructions of the prompt that is used when none is named.
pub const DEFAULT_INSTRUCTIONS: &'static str =
    "You are an extremely skilled programmer with a keen eye for detail and an emphasis on readable code. You have been tasked with acting as a smart version of the cat unix program. You take text and a prompt in and write text out. For that reason, it is of crucial importance to just write the desired output. Do not under any circumstance write any comment or thought as your output will be piped into other programs. Do not write the markdown delimiters for code as well. Sometimes you will be asked to implement or extend some input code. Same thing goes here, write only what was asked because what you write will be directly added to the user's editor. Never ever write ``` around the code.";

impl Prompt {
    /// The prompt that is used when none is named: instructions for the
    /// model, to which the user's input is added.
    pub open spec fn spec_default() -> PromptView {
        PromptView {
            api: Api::Openai,
            model: None,
            messages: seq![MessageView { role: "system"@, content: DEFAULT_INSTRUCTIONS@ }],
            temperature: None,
        }
    }

    /// The prompt without any message of its own.
    pub open spec fn spec_empty() -> PromptView {
        PromptView { api: Api::Openai, model: None, messages: Seq::empty(), temperature: None }
    }

    /// The prompt that is used when none is named.
    pub fn default() -> (prompt: Prompt)
        ensures
            prompt@ == Self::spec_default(),
    {
        let mut messages: Vec<Message> = Vec::new();
        messages.push(Message::system(DEFAULT_INSTRUCTIONS));
        let prompt = Prompt { api: Api::default(), model: None, messages, temperature: None };
        proof {
            assert(prompt@.messages =~= Self::spec_default().messages);
        }
        prompt
    }

    /// The prompt without any message of its own.
    pub fn empty() -> (prompt: Prompt)
        ensures
            prompt@ == Self::spec_empty(),
    {
        let prompt = Prompt {
            api: Api::default(),
            model: None,
            messages: Vec::new(),
            temperature: None,
        };
        proof {
            assert(prompt@.messages =~= Self::spec_empty().messages);
        }
        prompt
    }

    /// A copy of the prompt.
    pub fn duplicate(&self) -> (copy: Prompt)
        ensures
            copy@ == self@,
    {
        let temperature = match &self.temperature {
            Some(t) => Some(t.duplicate()),
            None => None,
        };
        Prompt {
            api: self.api,
            model: self.model.clone(),
            messages: duplicate_messages(&self.messages),
            temperature,
        }
    }
}

} // verus!
