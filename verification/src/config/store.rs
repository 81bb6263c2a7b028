//! The two configuration files as documents: how providers and prompts are
//! written down, and how they are read back.

use vstd::prelude::*;
use crate::config::api::Api;
use crate::config::api::ApiConfig;
use crate::config::api::ApiConfigView;
use crate::config::api::lemma_name_round_trip;
use crate::config::prompt::Message;
use crate::config::prompt::MessageView;
use crate::config::prompt::Prompt;
use crate::config::prompt::PromptView;
use crate::config::prompt::Temperature;
use crate::config::prompt::is_decimal;
use crate::config::prompt::is_known_role;
use crate::config::prompt::role_is_known;
use crate::document::Doc;
use crate::document::Node;
use crate::document::decode_all;
use crate::document::has_key;
use crate::document::keyed;
use crate::document::lemma_decode_all_each;
use crate::document::lemma_decode_all_error_stays;
use crate::document::lemma_decode_all_next;
use crate::document::lemma_decode_all_ok;
use crate::document::lemma_list_view;
use crate::document::lemma_lookup_push;
use crate::document::lemma_table_view;
use crate::document::list_view;
use crate::document::optional_text_field;
use crate::document::parse_toml;
use crate::document::print_toml;
use crate::document::push_entry;
use crate::document::spec_lookup;
use crate::document::spec_optional_text_field;
use crate::document::spec_text_field;
use crate::document::table_view;
use crate::document::text_field;
use crate::document::toml_document;
use crate::document::toml_text;
use crate::error::Error;
use crate::error::ErrorView;
use crate::error::view_result;
use crate::text::text_eq;

verus! {

/// Named entries with each side as mathematical values.
pub open spec fn entries_view<T: View>(entries: Seq<(String, T)>) -> Seq<(Seq<char>, T::V)> {
    entries.map_values(|e: (String, T)| (e.0@, e.1@))
}

/// The complaint about an entry: its name, a point, and what is wrong in
/// it.
pub open spec fn entry_complaint(name: Seq<char>, complaint: Seq<char>) -> Seq<char> {
    name + "."@ + complaint
}

/// Entry `j` has the name of an entry before it.
pub open spec fn repeats_at<V>(entries: Seq<(Seq<char>, V)>, j: int) -> bool {
    0 <= j < entries.len() && exists|i: int| 0 <= i < j && entries[i].0 == entries[j].0
}

/// No two entries have the same name.
pub open spec fn names_distinct<V>(entries: Seq<(Seq<char>, V)>) -> bool {
    forall|j: int| !repeats_at(entries, j)
}

/// Entry `j` is the first that has the name of an entry before it.
pub open spec fn is_first_repeat<V>(entries: Seq<(Seq<char>, V)>, j: int) -> bool {
    &&& repeats_at(entries, j)
    &&& forall|k: int| 0 <= k < j ==> !repeats_at(entries, k)
}

/// The entries themselves where no two have the same name, else the first
/// name that comes a second time, as the complaint.
pub open spec fn with_distinct_names<V>(entries: Seq<(Seq<char>, V)>) -> Result<
    Seq<(Seq<char>, V)>,
    Seq<char>,
> {
    if names_distinct(entries) {
        Ok(entries)
    } else {
        Err(entries[choose|j: int| is_first_repeat(entries, j)].0)
    }
}

/// The first entry that repeats a name is the one that
/// `with_distinct_names` complains of.
pub proof fn lemma_first_repeat_is<V>(entries: Seq<(Seq<char>, V)>, j: int)
    requires
        is_first_repeat(entries, j),
    ensures
        with_distinct_names(entries) == Err::<Seq<(Seq<char>, V)>, Seq<char>>(entries[j].0),
{
    // Two first repeats cannot differ: the later one would have the
    // earlier one before it.
    let k = choose|k: int| is_first_repeat(entries, k);
    assert(is_first_repeat(entries, k));
    assert(k == j);
}

/// Whether an entry repeats a name depends on the names alone.
proof fn lemma_repeats_by_name<T: View>(entries: Seq<(String, T)>)
    ensures
        forall|j: int|
            #![trigger repeats_at(entries_view(entries), j)]
            #![trigger repeats_at(keyed(entries), j)]
            repeats_at(entries_view(entries), j) == repeats_at(keyed(entries), j),
{
    let views = entries_view(entries);
    let named = keyed(entries);
    assert forall|j: int| repeats_at(views, j) == repeats_at(named, j) by {
        if repeats_at(views, j) {
            let i = choose|i: int| 0 <= i < j && views[i].0 == views[j].0;
            assert(named[i].0 == named[j].0);
        }
        if repeats_at(named, j) {
            let i = choose|i: int| 0 <= i < j && named[i].0 == named[j].0;
            assert(views[i].0 == views[j].0);
        }
    }
}

/// Finds the first entry that has the name of an entry before it.
pub fn find_repeat<T: View>(entries: &Vec<(String, T)>) -> (found: Option<usize>)
    ensures
        match found {
            Some(j) => is_first_repeat(entries_view(entries@), j as int),
            None => names_distinct(entries_view(entries@)),
        },
{
    let ghost named = keyed(entries@);
    let mut j: usize = 0;
    while j < entries.len()
        invariant
            j <= entries.len(),
            named == keyed(entries@),
            forall|k: int| 0 <= k < j ==> !repeats_at(named, k),
        decreases entries.len() - j,
    {
        let mut i: usize = 0;
        while i < j
            invariant
                i <= j,
                j < entries.len(),
                named == keyed(entries@),
                forall|k: int| 0 <= k < j ==> !repeats_at(named, k),
                forall|k: int| 0 <= k < i ==> named[k].0 != named[j as int].0,
            decreases j - i,
        {
            if text_eq(entries[i].0.as_str(), entries[j].0.as_str()) {
                proof {
                    assert(named[i as int].0 == named[j as int].0);
                    assert(repeats_at(named, j as int));
                    lemma_repeats_by_name(entries@);
                }
                return Some(j);
            }
            i += 1;
        }
        j += 1;
    }
    proof {
        lemma_repeats_by_name(entries@);
    }
    None
}

/// A table of one entry, or of none where there is no text.
pub open spec fn optional_entry(key: Seq<char>, text: Option<Seq<char>>) -> Seq<(Seq<char>, Doc)> {
    match text {
        Some(t) => seq![(key, Doc::Text(t))],
        None => Seq::empty(),
    }
}

/// The table for the configuration of a provider: the endpoint, and after
/// it the key, the command and the model, each where there is one.
pub open spec fn spec_encode_api_config(config: ApiConfigView) -> Doc {
    Doc::Table(
        seq![("url"@, Doc::Text(config.url))] + optional_entry("api_key"@, config.api_key)
            + optional_entry("api_key_command"@, config.api_key_command) + optional_entry(
            "default_model"@,
            config.default_model,
        ),
    )
}

/// The document for the providers: a table with one entry for each, under
/// its name and in the order given.
pub open spec fn spec_encode_api_configs(configs: Seq<(Seq<char>, ApiConfigView)>) -> Doc {
    Doc::Table(spec_api_entries(configs))
}

/// The configuration of a provider that a table stands for, or the name of
/// the first field at fault. The endpoint must be there; the key, the
/// command and the model may be.
pub open spec fn spec_decode_api_config(node: Doc) -> Result<ApiConfigView, Seq<char>> {
    match spec_text_field(node, "url"@) {
        Err(field) => Err(field),
        Ok(url) => match spec_optional_text_field(node, "api_key"@) {
            Err(field) => Err(field),
            Ok(api_key) => match spec_optional_text_field(node, "api_key_command"@) {
                Err(field) => Err(field),
                Ok(api_key_command) => match spec_optional_text_field(node, "default_model"@) {
                    Err(field) => Err(field),
                    Ok(default_model) => Ok(
                        ApiConfigView { url, api_key, api_key_command, default_model },
                    ),
                },
            },
        },
    }
}

/// Reads one named entry of the providers' file.
pub open spec fn api_entry_reader() -> spec_fn((Seq<char>, Doc)) -> Result<
    (Seq<char>, ApiConfigView),
    Seq<char>,
> {
    |entry: (Seq<char>, Doc)|
        match spec_decode_api_config(entry.1) {
            Ok(config) => Ok((entry.0, config)),
            Err(field) => Err(entry_complaint(entry.0, field)),
        }
}

/// The providers that a document stands for, in the order of its entries,
/// or the complaint: about the first entry at fault, else about the first
/// name that comes a second time. A document that is no table is at fault
/// as a whole.
pub open spec fn spec_decode_api_configs(document: Doc) -> Result<
    Seq<(Seq<char>, ApiConfigView)>,
    Seq<char>,
> {
    match document {
        Doc::Table(entries) => match decode_all(entries, api_entry_reader()) {
            Err(complaint) => Err(complaint),
            Ok(configs) => with_distinct_names(configs),
        },
        _ => Err(Seq::empty()),
    }
}

/// The table for a message of a prompt: the role, then the content.
pub open spec fn spec_encode_message(message: MessageView) -> Doc {
    Doc::Table(seq![("role"@, Doc::Text(message.role)), ("content"@, Doc::Text(message.content))])
}

/// The tables for the messages of a prompt, in order.
pub open spec fn spec_encode_messages(messages: Seq<MessageView>) -> Seq<Doc> {
    messages.map_values(|m: MessageView| spec_encode_message(m))
}

/// A table of one entry, or of none where there is no number.
pub open spec fn optional_number(key: Seq<char>, number: Option<Seq<char>>) -> Seq<
    (Seq<char>, Doc),
> {
    match number {
        Some(n) => seq![(key, Doc::Number(n))],
        None => Seq::empty(),
    }
}

/// The table for a prompt: the provider's name, the model and the
/// temperature where there is one, and the messages.
pub open spec fn spec_encode_prompt(prompt: PromptView) -> Doc {
    Doc::Table(
        seq![("api"@, Doc::Text(prompt.api.spec_name()))] + optional_entry("model"@, prompt.model)
            + optional_number("temperature"@, prompt.temperature) + seq![
            ("messages"@, Doc::List(spec_encode_messages(prompt.messages))),
        ],
    )
}

/// The document for the prompts: a table with one entry for each, under
/// its name and in the order given.
pub open spec fn spec_encode_prompts(prompts: Seq<(Seq<char>, PromptView)>) -> Doc {
    Doc::Table(spec_prompt_entries(prompts))
}

/// The message of a prompt that a table stands for, or the name of the
/// first field at fault. The role must be one that a provider accepts.
pub open spec fn spec_decode_prompt_message(node: Doc) -> Result<MessageView, Seq<char>> {
    match spec_text_field(node, "role"@) {
        Err(field) => Err(field),
        Ok(role) => if !is_known_role(role) {
            Err("role"@)
        } else {
            match spec_text_field(node, "content"@) {
                Err(field) => Err(field),
                Ok(content) => Ok(MessageView { role, content }),
            }
        },
    }
}

/// Reads one item of the list of messages.
pub open spec fn message_reader() -> spec_fn(Doc) -> Result<MessageView, Seq<char>> {
    |node: Doc| spec_decode_prompt_message(node)
}

/// The temperature that a table holds, if it holds one: a decimal number.
pub open spec fn spec_temperature_field(node: Doc) -> Result<Option<Seq<char>>, Seq<char>> {
    match node.spec_get("temperature"@) {
        None => Ok(None),
        Some(Doc::Number(number)) => if is_decimal(number) {
            Ok(Some(number))
        } else {
            Err("temperature"@)
        },
        _ => Err("temperature"@),
    }
}

/// The prompt that a table stands for, or the name of the first field at
/// fault. The provider and the messages must be there; the model and the
/// temperature may be.
pub open spec fn spec_decode_prompt(node: Doc) -> Result<PromptView, Seq<char>> {
    match spec_text_field(node, "api"@) {
        Err(field) => Err(field),
        Ok(name) => match Api::spec_from_name(name) {
            None => Err("api"@),
            Some(api) => match spec_optional_text_field(node, "model"@) {
                Err(field) => Err(field),
                Ok(model) => match spec_temperature_field(node) {
                    Err(field) => Err(field),
                    Ok(temperature) => match node.spec_get("messages"@) {
                        Some(Doc::List(items)) => match decode_all(items, message_reader()) {
                            Err(field) => Err(field),
                            Ok(messages) => Ok(PromptView { api, model, messages, temperature }),
                        },
                        _ => Err("messages"@),
                    },
                },
            },
        },
    }
}

/// Reads one named entry of the prompts' file.
pub open spec fn prompt_entry_reader() -> spec_fn((Seq<char>, Doc)) -> Result<
    (Seq<char>, PromptView),
    Seq<char>,
> {
    |entry: (Seq<char>, Doc)|
        match spec_decode_prompt(entry.1) {
            Ok(prompt) => Ok((entry.0, prompt)),
            Err(field) => Err(entry_complaint(entry.0, field)),
        }
}

/// The prompts that a document stands for, in the order of its entries, or
/// the complaint: about the first entry at fault, else about the first name
/// that comes a second time.
pub open spec fn spec_decode_prompts(document: Doc) -> Result<
    Seq<(Seq<char>, PromptView)>,
    Seq<char>,
> {
    match document {
        Doc::Table(entries) => match decode_all(entries, prompt_entry_reader()) {
            Err(complaint) => Err(complaint),
            Ok(prompts) => with_distinct_names(prompts),
        },
        _ => Err(Seq::empty()),
    }
}

/// What the text of the providers' file stands for.
pub open spec fn spec_load_api_configs(text: Seq<char>) -> Result<
    Seq<(Seq<char>, ApiConfigView)>,
    ErrorView,
> {
    match toml_document(text) {
        Err(message) => Err(ErrorView::ConfigParseError { detail: message }),
        Ok(document) => match spec_decode_api_configs(document) {
            Err(complaint) => Err(ErrorView::ConfigParseError { detail: complaint }),
            Ok(configs) => Ok(configs),
        },
    }
}

/// What the text of the prompts' file stands for.
pub open spec fn spec_load_prompts(text: Seq<char>) -> Result<
    Seq<(Seq<char>, PromptView)>,
    ErrorView,
> {
    match toml_document(text) {
        Err(message) => Err(ErrorView::ConfigParseError { detail: message }),
        Ok(document) => match spec_decode_prompts(document) {
            Err(complaint) => Err(ErrorView::ConfigParseError { detail: complaint }),
            Ok(prompts) => Ok(prompts),
        },
    }
}

/// The text of the file for a document that was made to be written.
/// Nothing is written that would not be read back: where the document
/// cannot be read, the reader's complaint is the error; where it cannot be
/// written as TOML, the error has no detail.
pub open spec fn spec_written<V>(
    document: Doc,
    read_back: Result<Seq<(Seq<char>, V)>, Seq<char>>,
) -> Result<Seq<char>, ErrorView> {
    match read_back {
        Err(complaint) => Err(ErrorView::ConfigParseError { detail: complaint }),
        Ok(_) => match toml_text(document) {
            Some(text) => Ok(text),
            None => Err(ErrorView::ConfigParseError { detail: Seq::empty() }),
        },
    }
}

/// The text of the providers' file for `configs`.
pub open spec fn spec_serialize_api_configs(configs: Seq<(Seq<char>, ApiConfigView)>) -> Result<
    Seq<char>,
    ErrorView,
> {
    let document = spec_encode_api_configs(configs);
    spec_written(document, spec_decode_api_configs(document))
}

/// The text of the prompts' file for `prompts`.
pub open spec fn spec_serialize_prompts(prompts: Seq<(Seq<char>, PromptView)>) -> Result<
    Seq<char>,
    ErrorView,
> {
    let document = spec_encode_prompts(prompts);
    spec_written(document, spec_decode_prompts(document))
}

/// Every message has a role that a provider accepts.
pub open spec fn roles_known(messages: Seq<MessageView>) -> bool {
    forall|i: int| 0 <= i < messages.len() ==> is_known_role(#[trigger] messages[i].role)
}

/// The prompt can be written down and read back: every message has a role
/// that a provider accepts, and the temperature, where there is one, is a
/// decimal number.
pub open spec fn prompt_well_formed(prompt: PromptView) -> bool {
    &&& roles_known(prompt.messages)
    &&& prompt.temperature matches Some(number) ==> is_decimal(number)
}

/// Every prompt can be written down and read back.
pub open spec fn prompts_well_formed(prompts: Seq<(Seq<char>, PromptView)>) -> bool {
    forall|i: int| 0 <= i < prompts.len() ==> prompt_well_formed(#[trigger] prompts[i].1)
}

/// The names of the fields of a provider's configuration differ.
proof fn lemma_api_fields_differ()
    ensures
        "url"@ != "api_key"@,
        "url"@ != "api_key_command"@,
        "url"@ != "default_model"@,
        "api_key"@ != "api_key_command"@,
        "api_key"@ != "default_model"@,
        "api_key_command"@ != "default_model"@,
{
    reveal_strlit("url");
    reveal_strlit("api_key");
    reveal_strlit("api_key_command");
    reveal_strlit("default_model");
    assert("url"@.len() == 3);
    assert("api_key"@.len() == 7);
    assert("api_key_command"@.len() == 15);
    assert("default_model"@.len() == 13);
}

/// The names of the fields of a prompt and of a message differ.
proof fn lemma_prompt_fields_differ()
    ensures
        "api"@ != "model"@,
        "api"@ != "temperature"@,
        "api"@ != "messages"@,
        "model"@ != "temperature"@,
        "model"@ != "messages"@,
        "temperature"@ != "messages"@,
        "role"@ != "content"@,
{
    reveal_strlit("api");
    reveal_strlit("model");
    reveal_strlit("temperature");
    reveal_strlit("messages");
    reveal_strlit("role");
    reveal_strlit("content");
    assert("api"@.len() == 3);
    assert("model"@.len() == 5);
    assert("temperature"@.len() == 11);
    assert("messages"@.len() == 8);
    assert("role"@.len() == 4);
    assert("content"@.len() == 7);
}

/// What a table holds under each key once an entry has been added.
proof fn lemma_lookups_after_push(entries: Seq<(Seq<char>, Doc)>, entry: (Seq<char>, Doc))
    ensures
        forall|k: Seq<char>| #[trigger]
            has_key(entries.push(entry), k) == (has_key(entries, k) || entry.0 == k),
        forall|k: Seq<char>| #[trigger]
            spec_lookup(entries.push(entry), k) == (if has_key(entries, k) {
                spec_lookup(entries, k)
            } else if entry.0 == k {
                Some(entry.1)
            } else {
                None
            }),
{
    assert forall|k: Seq<char>| #[trigger]
        has_key(entries.push(entry), k) == (has_key(entries, k) || entry.0 == k) by {
        lemma_lookup_push(entries, entry, k);
    }
    assert forall|k: Seq<char>| #[trigger]
        spec_lookup(entries.push(entry), k) == (if has_key(entries, k) {
            spec_lookup(entries, k)
        } else if entry.0 == k {
            Some(entry.1)
        } else {
            None
        }) by {
        lemma_lookup_push(entries, entry, k);
    }
}

/// What a table holds under each key once at most one entry has been
/// added.
proof fn lemma_lookups_after_extend(entries: Seq<(Seq<char>, Doc)>, extra: Seq<(Seq<char>, Doc)>)
    requires
        extra.len() <= 1,
    ensures
        forall|k: Seq<char>| #[trigger]
            has_key(entries + extra, k) == (has_key(entries, k) || (extra.len() == 1
                && extra[0].0 == k)),
        forall|k: Seq<char>| #[trigger]
            spec_lookup(entries + extra, k) == (if has_key(entries, k) {
                spec_lookup(entries, k)
            } else if extra.len() == 1 && extra[0].0 == k {
                Some(extra[0].1)
            } else {
                None
            }),
{
    if extra.len() == 1 {
        assert(entries + extra =~= entries.push(extra[0]));
        lemma_lookups_after_push(entries, extra[0]);
    } else {
        assert(entries + extra =~= entries);
    }
}

/// The table of a provider's configuration reads back as the
/// configuration.
pub proof fn lemma_api_config_round_trip(config: ApiConfigView)
    ensures
        spec_decode_api_config(spec_encode_api_config(config)) == Ok::<ApiConfigView, Seq<char>>(
            config,
        ),
{
    lemma_api_fields_differ();
    let none = Seq::<(Seq<char>, Doc)>::empty();
    let first = ("url"@, Doc::Text(config.url));
    let e1 = seq![first];
    let e2 = e1 + optional_entry("api_key"@, config.api_key);
    let e3 = e2 + optional_entry("api_key_command"@, config.api_key_command);
    let e4 = e3 + optional_entry("default_model"@, config.default_model);
    assert(e1 =~= none.push(first));
    assert(forall|k: Seq<char>| !has_key(none, k));
    lemma_lookups_after_push(none, first);
    lemma_lookups_after_extend(e1, optional_entry("api_key"@, config.api_key));
    lemma_lookups_after_extend(e2, optional_entry("api_key_command"@, config.api_key_command));
    lemma_lookups_after_extend(e3, optional_entry("default_model"@, config.default_model));
    assert(spec_encode_api_config(config) == Doc::Table(e4));
    assert(spec_lookup(e4, "url"@) == Some(Doc::Text(config.url)));
    assert(spec_optional_text_field(Doc::Table(e4), "api_key"@) == Ok::<
        Option<Seq<char>>,
        Seq<char>,
    >(config.api_key));
    assert(spec_optional_text_field(Doc::Table(e4), "api_key_command"@) == Ok::<
        Option<Seq<char>>,
        Seq<char>,
    >(config.api_key_command));
    assert(spec_optional_text_field(Doc::Table(e4), "default_model"@) == Ok::<
        Option<Seq<char>>,
        Seq<char>,
    >(config.default_model));
}

/// The document of the providers reads back as the providers, unless a
/// name comes a second time: then the reader complains of that name.
pub proof fn lemma_api_configs_round_trip(configs: Seq<(Seq<char>, ApiConfigView)>)
    ensures
        spec_decode_api_configs(spec_encode_api_configs(configs)) == with_distinct_names(configs),
{
    let entries = spec_api_entries(configs);
    assert forall|i: int| 0 <= i < entries.len() implies api_entry_reader()(entries[i]) == Ok::<
        (Seq<char>, ApiConfigView),
        Seq<char>,
    >(configs[i]) by {
        lemma_api_config_round_trip(configs[i].1);
    }
    lemma_decode_all_ok(entries, api_entry_reader(), configs);
}

/// The table of a message reads back as the message where its role is one
/// that a provider accepts, and not at all where it is not.
pub proof fn lemma_message_round_trip(message: MessageView)
    ensures
        spec_decode_prompt_message(spec_encode_message(message)) == (if is_known_role(
            message.role,
        ) {
            Ok::<MessageView, Seq<char>>(message)
        } else {
            Err("role"@)
        }),
{
    lemma_prompt_fields_differ();
    let none = Seq::<(Seq<char>, Doc)>::empty();
    let role = ("role"@, Doc::Text(message.role));
    let content = ("content"@, Doc::Text(message.content));
    let e1 = none.push(role);
    let e2 = e1.push(content);
    assert(seq![role, content] =~= e2);
    assert(forall|k: Seq<char>| !has_key(none, k));
    lemma_lookups_after_push(none, role);
    lemma_lookups_after_push(e1, content);
    assert(spec_lookup(e2, "role"@) == Some(Doc::Text(message.role)));
    assert(spec_lookup(e2, "content"@) == Some(Doc::Text(message.content)));
}

/// The list of the messages reads back as the messages where every role is
/// one that a provider accepts, and not at all where one is not.
pub proof fn lemma_messages_round_trip(messages: Seq<MessageView>)
    ensures
        roles_known(messages) ==> decode_all(spec_encode_messages(messages), message_reader())
            == Ok::<Seq<MessageView>, Seq<char>>(messages),
        !roles_known(messages) ==> decode_all(spec_encode_messages(messages), message_reader())
            == Err::<Seq<MessageView>, Seq<char>>("role"@),
{
    let items = spec_encode_messages(messages);
    assert forall|i: int| 0 <= i < items.len() implies message_reader()(items[i]) == (
    if is_known_role(messages[i].role) {
        Ok::<MessageView, Seq<char>>(messages[i])
    } else {
        Err("role"@)
    }) by {
        lemma_message_round_trip(messages[i]);
    }
    if roles_known(messages) {
        lemma_decode_all_ok(items, message_reader(), messages);
    } else {
        if decode_all(items, message_reader()) is Ok {
            lemma_decode_all_each(items, message_reader());
            let bad = choose|i: int| 0 <= i < messages.len() && !is_known_role(messages[i].role);
            assert(message_reader()(items[bad]) is Ok);
        }
        lemma_decode_all_same_complaint(items, message_reader(), "role"@);
    }
}

/// Where every item that cannot be read gives the same complaint, a list
/// that cannot be read gives that complaint.
proof fn lemma_decode_all_same_complaint<A, V>(
    items: Seq<A>,
    read: spec_fn(A) -> Result<V, Seq<char>>,
    complaint: Seq<char>,
)
    requires
        forall|i: int|
            0 <= i < items.len() && (#[trigger] read(items[i])) is Err ==> read(items[i]) == Err::<
                V,
                Seq<char>,
            >(complaint),
    ensures
        decode_all(items, read) is Err ==> decode_all(items, read) == Err::<Seq<V>, Seq<char>>(
            complaint,
        ),
    decreases items.len(),
{
    if items.len() > 0 {
        assert forall|i: int|
            0 <= i < items.drop_last().len() && (#[trigger] read(items.drop_last()[i]))
                is Err implies read(items.drop_last()[i]) == Err::<V, Seq<char>>(complaint) by {
            assert(items.drop_last()[i] == items[i]);
        }
        lemma_decode_all_same_complaint(items.drop_last(), read, complaint);
        assert(items.last() == items[items.len() - 1]);
    }
}

/// The table of a prompt reads back as the prompt where the prompt is well
/// formed, and not at all where it is not.
pub proof fn lemma_prompt_round_trip(prompt: PromptView)
    ensures
        prompt_well_formed(prompt) ==> spec_decode_prompt(spec_encode_prompt(prompt)) == Ok::<
            PromptView,
            Seq<char>,
        >(prompt),
        !prompt_well_formed(prompt) ==> spec_decode_prompt(spec_encode_prompt(prompt)) is Err,
{
    lemma_prompt_fields_differ();
    lemma_name_round_trip(prompt.api);
    lemma_messages_round_trip(prompt.messages);
    let none = Seq::<(Seq<char>, Doc)>::empty();
    let api = ("api"@, Doc::Text(prompt.api.spec_name()));
    let messages = ("messages"@, Doc::List(spec_encode_messages(prompt.messages)));
    let e1 = seq![api];
    let e2 = e1 + optional_entry("model"@, prompt.model);
    let e3 = e2 + optional_number("temperature"@, prompt.temperature);
    let e4 = e3 + seq![messages];
    assert(e1 =~= none.push(api));
    assert(forall|k: Seq<char>| !has_key(none, k));
    lemma_lookups_after_push(none, api);
    lemma_lookups_after_extend(e1, optional_entry("model"@, prompt.model));
    lemma_lookups_after_extend(e2, optional_number("temperature"@, prompt.temperature));
    lemma_lookups_after_extend(e3, seq![messages]);
    assert(spec_encode_prompt(prompt) == Doc::Table(e4));
    assert(spec_lookup(e4, "api"@) == Some(Doc::Text(prompt.api.spec_name())));
    assert(spec_optional_text_field(Doc::Table(e4), "model"@) == Ok::<
        Option<Seq<char>>,
        Seq<char>,
    >(prompt.model));
    assert(spec_lookup(e4, "temperature"@) == match prompt.temperature {
        Some(number) => Some(Doc::Number(number)),
        None => None,
    });
    assert(spec_lookup(e4, "messages"@) == Some(messages.1));
}

/// The document of the prompts reads back as the prompts where every
/// prompt is well formed, unless a name comes a second time: then the
/// reader complains of that name. Where a prompt is not well formed, the
/// document is not read at all.
pub proof fn lemma_prompts_round_trip(prompts: Seq<(Seq<char>, PromptView)>)
    ensures
        prompts_well_formed(prompts) ==> spec_decode_prompts(spec_encode_prompts(prompts))
            == with_distinct_names(prompts),
        !prompts_well_formed(prompts) ==> spec_decode_prompts(spec_encode_prompts(prompts)) is Err,
{
    let entries = spec_prompt_entries(prompts);
    assert forall|i: int| 0 <= i < entries.len() implies (prompt_well_formed(prompts[i].1)
        ==> prompt_entry_reader()(entries[i]) == Ok::<(Seq<char>, PromptView), Seq<char>>(
        prompts[i],
    )) && (!prompt_well_formed(prompts[i].1) ==> prompt_entry_reader()(entries[i]) is Err) by {
        lemma_prompt_round_trip(prompts[i].1);
    }
    if prompts_well_formed(prompts) {
        lemma_decode_all_ok(entries, prompt_entry_reader(), prompts);
    } else {
        if decode_all(entries, prompt_entry_reader()) is Ok {
            lemma_decode_all_each(entries, prompt_entry_reader());
            let bad = choose|i: int| 0 <= i < prompts.len() && !prompt_well_formed(prompts[i].1);
            assert(prompt_entry_reader()(entries[bad]) is Ok);
        }
    }
}

/// Providers are written exactly when no two have the same name and the
/// TOML writer can write their document; the text is then what the writer
/// makes of the document. Two of the same name are refused with that name.
pub proof fn lemma_written_api_configs(configs: Seq<(Seq<char>, ApiConfigView)>)
    ensures
        spec_serialize_api_configs(configs) is Ok <==> names_distinct(configs) && toml_text(
            spec_encode_api_configs(configs),
        ) is Some,
        spec_serialize_api_configs(configs) matches Ok(text) ==> toml_text(
            spec_encode_api_configs(configs),
        ) == Some(text),
        !names_distinct(configs) ==> spec_serialize_api_configs(configs) == Err::<
            Seq<char>,
            ErrorView,
        >(ErrorView::ConfigParseError { detail: with_distinct_names(configs)->Err_0 }),
{
    lemma_api_configs_round_trip(configs);
}

/// Prompts are written exactly when every prompt is well formed, no two
/// have the same name and the TOML writer can write their document; the
/// text is then what the writer makes of the document.
pub proof fn lemma_written_prompts(prompts: Seq<(Seq<char>, PromptView)>)
    ensures
        spec_serialize_prompts(prompts) is Ok <==> prompts_well_formed(prompts) && names_distinct(
            prompts,
        ) && toml_text(spec_encode_prompts(prompts)) is Some,
        spec_serialize_prompts(prompts) matches Ok(text) ==> toml_text(
            spec_encode_prompts(prompts),
        ) == Some(text),
{
    lemma_prompts_round_trip(prompts);
}

/// Adds a text under `key` where there is one to add.
fn push_optional_text(entries: &mut Vec<(String, Node)>, key: &str, text: &Option<String>)
    ensures
        table_view(final(entries)@) == table_view(old(entries)@) + optional_entry(
            key@,
            text.deep_view(),
        ),
{
    match text {
        Some(value) => {
            push_entry(entries, key, Node::Text(value.clone()));
        },
        None => {},
    }
    proof {
        assert(table_view(entries@) =~= table_view(old(entries)@) + optional_entry(
            key@,
            text.deep_view(),
        ));
    }
}

/// Writes the configuration of a provider as a table.
pub fn encode_api_config(config: &ApiConfig) -> (node: Node)
    ensures
        node@ == spec_encode_api_config(config@),
{
    let mut entries: Vec<(String, Node)> = Vec::new();
    push_entry(&mut entries, "url", Node::Text(config.url.clone()));
    push_optional_text(&mut entries, "api_key", &config.api_key);
    push_optional_text(&mut entries, "api_key_command", &config.api_key_command);
    push_optional_text(&mut entries, "default_model", &config.default_model);
    proof {
        lemma_table_view(entries);
        assert(table_view(entries@) =~= spec_encode_api_config(config@)->Table_0);
    }
    Node::Table(entries)
}

/// Reads the configuration of a provider from a table.
pub fn decode_api_config(node: &Node) -> (config: Result<ApiConfig, String>)
    ensures
        match config {
            Ok(c) => spec_decode_api_config(node@) == Ok::<ApiConfigView, Seq<char>>(c@),
            Err(field) => spec_decode_api_config(node@) == Err::<ApiConfigView, Seq<char>>(field@),
        },
{
    let url = match text_field(node, "url") {
        Ok(url) => url,
        Err(field) => {
            return Err(field);
        },
    };
    let api_key = match optional_text_field(node, "api_key") {
        Ok(key) => key,
        Err(field) => {
            return Err(field);
        },
    };
    let api_key_command = match optional_text_field(node, "api_key_command") {
        Ok(command) => command,
        Err(field) => {
            return Err(field);
        },
    };
    let default_model = match optional_text_field(node, "default_model") {
        Ok(model) => model,
        Err(field) => {
            return Err(field);
        },
    };
    Ok(ApiConfig { url, api_key, api_key_command, default_model })
}

/// Puts the name of an entry before the complaint about it.
fn complain(name: &String, complaint: &String) -> (detail: String)
    ensures
        detail@ == entry_complaint(name@, complaint@),
{
    let mut detail = name.clone();
    detail.append(".");
    detail.append(complaint.as_str());
    detail
}

/// Lets named entries through where no two have the same name.
fn refuse_repeats<T: View>(entries: Vec<(String, T)>) -> (checked: Result<
    Vec<(String, T)>,
    String,
>)
    ensures
        match checked {
            Ok(es) => es == entries && with_distinct_names(entries_view(entries@)) == Ok::<
                Seq<(Seq<char>, T::V)>,
                Seq<char>,
            >(entries_view(entries@)),
            Err(name) => with_distinct_names(entries_view(entries@)) == Err::<
                Seq<(Seq<char>, T::V)>,
                Seq<char>,
            >(name@),
        },
{
    match find_repeat(&entries) {
        Some(j) => {
            proof {
                lemma_first_repeat_is(entries_view(entries@), j as int);
            }
            Err(entries[j].0.clone())
        },
        None => Ok(entries),
    }
}

/// Reads the providers from the document that their file stands for.
pub fn decode_api_configs(document: &Node) -> (configs: Result<Vec<(String, ApiConfig)>, String>)
    ensures
        match configs {
            Ok(cs) => spec_decode_api_configs(document@) == Ok::<
                Seq<(Seq<char>, ApiConfigView)>,
                Seq<char>,
            >(entries_view(cs@)) && names_distinct(entries_view(cs@)),
            Err(complaint) => spec_decode_api_configs(document@) == Err::<
                Seq<(Seq<char>, ApiConfigView)>,
                Seq<char>,
            >(complaint@),
        },
{
    let entries = match document {
        Node::Table(entries) => entries,
        _ => {
            return Err(String::new());
        },
    };
    proof {
        lemma_table_view(*entries);
    }
    let ghost table = table_view(entries@);
    let mut configs: Vec<(String, ApiConfig)> = Vec::new();
    let mut i: usize = 0;
    proof {
        assert(entries_view(configs@) =~= Seq::<(Seq<char>, ApiConfigView)>::empty());
    }
    while i < entries.len()
        invariant
            i <= entries.len(),
            table == table_view(entries@),
            document@ == Doc::Table(table),
            decode_all(table.take(i as int), api_entry_reader()) == Ok::<
                Seq<(Seq<char>, ApiConfigView)>,
                Seq<char>,
            >(entries_view(configs@)),
        decreases entries.len() - i,
    {
        let ghost before = entries_view(configs@);
        proof {
            lemma_decode_all_next(table, api_entry_reader(), i as int);
        }
        match decode_api_config(&entries[i].1) {
            Err(field) => {
                let detail = complain(&entries[i].0, &field);
                proof {
                    lemma_decode_all_error_stays(table, api_entry_reader(), i + 1, detail@);
                }
                return Err(detail);
            },
            Ok(config) => {
                let ghost view = (entries@[i as int].0@, config@);
                configs.push((entries[i].0.clone(), config));
                proof {
                    assert(entries_view(configs@) =~= before.push(view));
                }
            },
        }
        i += 1;
    }
    proof {
        assert(table.take(i as int) =~= table);
    }
    refuse_repeats(configs)
}

/// The entries of the providers' document.
pub open spec fn spec_api_entries(configs: Seq<(Seq<char>, ApiConfigView)>) -> Seq<
    (Seq<char>, Doc),
> {
    configs.map_values(|e: (Seq<char>, ApiConfigView)| (e.0, spec_encode_api_config(e.1)))
}

/// Writes the providers as the document of their file.
pub fn encode_api_configs(configs: &Vec<(String, ApiConfig)>) -> (document: Node)
    ensures
        document@ == spec_encode_api_configs(entries_view(configs@)),
{
    let ghost target = spec_api_entries(entries_view(configs@));
    let mut entries: Vec<(String, Node)> = Vec::new();
    let mut i: usize = 0;
    proof {
        assert(table_view(entries@) =~= target.take(0));
    }
    while i < configs.len()
        invariant
            i <= configs.len(),
            target == spec_api_entries(entries_view(configs@)),
            table_view(entries@) == target.take(i as int),
        decreases configs.len() - i,
    {
        let ghost before = table_view(entries@);
        let node = encode_api_config(&configs[i].1);
        let ghost entry = (configs@[i as int].0@, node@);
        entries.push((configs[i].0.clone(), node));
        proof {
            assert(table_view(entries@) =~= before.push(entry));
            assert(target.take(i + 1) =~= target.take(i as int).push(target[i as int]));
        }
        i += 1;
    }
    proof {
        assert(target.take(i as int) =~= target);
        lemma_table_view(entries);
    }
    Node::Table(entries)
}

/// Reads the providers from the text of their file.
pub fn load_api_configs(text: &str) -> (configs: Result<Vec<(String, ApiConfig)>, Error>)
    ensures
        match configs {
            Ok(cs) => spec_load_api_configs(text@) == Ok::<
                Seq<(Seq<char>, ApiConfigView)>,
                ErrorView,
            >(entries_view(cs@)) && names_distinct(entries_view(cs@)),
            Err(e) => spec_load_api_configs(text@) == Err::<
                Seq<(Seq<char>, ApiConfigView)>,
                ErrorView,
            >(e@),
        },
{
    match parse_toml(text) {
        Err(message) => Err(Error::ConfigParseError { detail: message }),
        Ok(document) => match decode_api_configs(&document) {
            Err(complaint) => Err(Error::ConfigParseError { detail: complaint }),
            Ok(configs) => Ok(configs),
        },
    }
}

/// Writes the providers as the text of their file. Nothing is written that
/// would not be read back: providers of which two have the same name are
/// refused with that name. What is left to the TOML writer is whether it
/// can write the document.
pub fn serialize_api_configs(configs: &Vec<(String, ApiConfig)>) -> (text: Result<String, Error>)
    ensures
        view_result(text) == spec_serialize_api_configs(entries_view(configs@)),
{
    let document = encode_api_configs(configs);
    match decode_api_configs(&document) {
        Err(complaint) => Err(Error::ConfigParseError { detail: complaint }),
        Ok(_) => match print_toml(&document) {
            Some(text) => Ok(text),
            None => Err(Error::ConfigParseError { detail: String::new() }),
        },
    }
}

/// Writes a message of a prompt as a table.
pub fn encode_message(message: &Message) -> (node: Node)
    ensures
        node@ == spec_encode_message(message@),
{
    let mut entries: Vec<(String, Node)> = Vec::new();
    push_entry(&mut entries, "role", Node::Text(message.role.clone()));
    push_entry(&mut entries, "content", Node::Text(message.content.clone()));
    proof {
        lemma_table_view(entries);
        assert(table_view(entries@) =~= spec_encode_message(message@)->Table_0);
    }
    Node::Table(entries)
}

/// Reads a message of a prompt from a table.
pub fn decode_prompt_message(node: &Node) -> (message: Result<Message, String>)
    ensures
        match message {
            Ok(m) => spec_decode_prompt_message(node@) == Ok::<MessageView, Seq<char>>(m@),
            Err(field) => spec_decode_prompt_message(node@) == Err::<MessageView, Seq<char>>(
                field@,
            ),
        },
{
    let role = match text_field(node, "role") {
        Ok(role) => role,
        Err(field) => {
            return Err(field);
        },
    };
    if !role_is_known(role.as_str()) {
        return Err(String::from_str("role"));
    }
    let content = match text_field(node, "content") {
        Ok(content) => content,
        Err(field) => {
            return Err(field);
        },
    };
    Ok(Message { role, content })
}

/// Reads the messages of a prompt from a list.
pub fn decode_messages(items: &Vec<Node>) -> (messages: Result<Vec<Message>, String>)
    ensures
        match messages {
            Ok(ms) => decode_all(list_view(items@), message_reader()) == Ok::<
                Seq<MessageView>,
                Seq<char>,
            >(ms.deep_view()),
            Err(field) => decode_all(list_view(items@), message_reader()) == Err::<
                Seq<MessageView>,
                Seq<char>,
            >(field@),
        },
{
    let ghost list = list_view(items@);
    let mut messages: Vec<Message> = Vec::new();
    let mut i: usize = 0;
    proof {
        assert(messages.deep_view() =~= Seq::<MessageView>::empty());
    }
    while i < items.len()
        invariant
            i <= items.len(),
            list == list_view(items@),
            decode_all(list.take(i as int), message_reader()) == Ok::<
                Seq<MessageView>,
                Seq<char>,
            >(messages.deep_view()),
        decreases items.len() - i,
    {
        let ghost before = messages.deep_view();
        proof {
            lemma_decode_all_next(list, message_reader(), i as int);
        }
        match decode_prompt_message(&items[i]) {
            Err(field) => {
                proof {
                    lemma_decode_all_error_stays(list, message_reader(), i + 1, field@);
                }
                return Err(field);
            },
            Ok(message) => {
                let ghost view = message@;
                messages.push(message);
                proof {
                    assert(messages.deep_view() =~= before.push(view));
                }
            },
        }
        i += 1;
    }
    proof {
        assert(list.take(i as int) =~= list);
    }
    Ok(messages)
}

/// Writes the messages of a prompt as a list.
pub fn encode_messages(messages: &Vec<Message>) -> (items: Vec<Node>)
    ensures
        list_view(items@) == spec_encode_messages(messages.deep_view()),
{
    let ghost target = spec_encode_messages(messages.deep_view());
    let mut items: Vec<Node> = Vec::new();
    let mut i: usize = 0;
    proof {
        assert(list_view(items@) =~= target.take(0));
    }
    while i < messages.len()
        invariant
            i <= messages.len(),
            target == spec_encode_messages(messages.deep_view()),
            list_view(items@) == target.take(i as int),
        decreases messages.len() - i,
    {
        let ghost before = list_view(items@);
        let node = encode_message(&messages[i]);
        let ghost view = node@;
        items.push(node);
        proof {
            assert(list_view(items@) =~= before.push(view));
            assert(target.take(i + 1) =~= target.take(i as int).push(target[i as int]));
        }
        i += 1;
    }
    proof {
        assert(target.take(i as int) =~= target);
    }
    items
}

/// Reads the temperature that a table may hold.
fn temperature_field(node: &Node) -> (field: Result<Option<Temperature>, String>)
    ensures
        match field {
            Ok(t) => spec_temperature_field(node@) == Ok::<Option<Seq<char>>, Seq<char>>(
                t.deep_view(),
            ),
            Err(name) => spec_temperature_field(node@) == Err::<Option<Seq<char>>, Seq<char>>(
                name@,
            ),
        },
{
    match node.get("temperature") {
        None => Ok(None),
        Some(Node::Number(number)) => match Temperature::parse(number.as_str()) {
            Some(t) => Ok(Some(t)),
            None => Err(String::from_str("temperature")),
        },
        _ => Err(String::from_str("temperature")),
    }
}

/// Reads a prompt from a table.
pub fn decode_prompt(node: &Node) -> (prompt: Result<Prompt, String>)
    ensures
        match prompt {
            Ok(p) => spec_decode_prompt(node@) == Ok::<PromptView, Seq<char>>(p@),
            Err(field) => spec_decode_prompt(node@) == Err::<PromptView, Seq<char>>(field@),
        },
{
    let name = match text_field(node, "api") {
        Ok(name) => name,
        Err(field) => {
            return Err(field);
        },
    };
    let api = match Api::from_name(name.as_str()) {
        Some(api) => api,
        None => {
            return Err(String::from_str("api"));
        },
    };
    let model = match optional_text_field(node, "model") {
        Ok(model) => model,
        Err(field) => {
            return Err(field);
        },
    };
    let temperature = match temperature_field(node) {
        Ok(temperature) => temperature,
        Err(field) => {
            return Err(field);
        },
    };
    let messages = match node.get("messages") {
        Some(Node::List(items)) => {
            proof {
                lemma_list_view(*items);
            }
            match decode_messages(items) {
                Ok(messages) => messages,
                Err(field) => {
                    return Err(field);
                },
            }
        },
        _ => {
            return Err(String::from_str("messages"));
        },
    };
    Ok(Prompt { api, model, messages, temperature })
}

/// Writes a prompt as a table.
pub fn encode_prompt(prompt: &Prompt) -> (node: Node)
    ensures
        node@ == spec_encode_prompt(prompt@),
{
    let mut entries: Vec<(String, Node)> = Vec::new();
    push_entry(&mut entries, "api", Node::Text(prompt.api.to_string()));
    push_optional_text(&mut entries, "model", &prompt.model);
    let ghost before = table_view(entries@);
    match &prompt.temperature {
        Some(t) => {
            push_entry(&mut entries, "temperature", Node::Number(String::from_str(t.as_str())));
        },
        None => {},
    }
    proof {
        assert(table_view(entries@) =~= before + optional_number(
            "temperature"@,
            prompt@.temperature,
        ));
    }
    let items = encode_messages(&prompt.messages);
    proof {
        lemma_list_view(items);
    }
    push_entry(&mut entries, "messages", Node::List(items));
    proof {
        lemma_table_view(entries);
        assert(table_view(entries@) =~= spec_encode_prompt(prompt@)->Table_0);
    }
    Node::Table(entries)
}

/// Reads the prompts from the document that their file stands for.
pub fn decode_prompts(document: &Node) -> (prompts: Result<Vec<(String, Prompt)>, String>)
    ensures
        match prompts {
            Ok(ps) => spec_decode_prompts(document@) == Ok::<
                Seq<(Seq<char>, PromptView)>,
                Seq<char>,
            >(entries_view(ps@)) && names_distinct(entries_view(ps@)),
            Err(complaint) => spec_decode_prompts(document@) == Err::<
                Seq<(Seq<char>, PromptView)>,
                Seq<char>,
            >(complaint@),
        },
{
    let entries = match document {
        Node::Table(entries) => entries,
        _ => {
            return Err(String::new());
        },
    };
    proof {
        lemma_table_view(*entries);
    }
    let ghost table = table_view(entries@);
    let mut prompts: Vec<(String, Prompt)> = Vec::new();
    let mut i: usize = 0;
    proof {
        assert(entries_view(prompts@) =~= Seq::<(Seq<char>, PromptView)>::empty());
    }
    while i < entries.len()
        invariant
            i <= entries.len(),
            table == table_view(entries@),
            document@ == Doc::Table(table),
            decode_all(table.take(i as int), prompt_entry_reader()) == Ok::<
                Seq<(Seq<char>, PromptView)>,
                Seq<char>,
            >(entries_view(prompts@)),
        decreases entries.len() - i,
    {
        let ghost before = entries_view(prompts@);
        proof {
            lemma_decode_all_next(table, prompt_entry_reader(), i as int);
        }
        match decode_prompt(&entries[i].1) {
            Err(field) => {
                let detail = complain(&entries[i].0, &field);
                proof {
                    lemma_decode_all_error_stays(table, prompt_entry_reader(), i + 1, detail@);
                }
                return Err(detail);
            },
            Ok(prompt) => {
                let ghost view = (entries@[i as int].0@, prompt@);
                prompts.push((entries[i].0.clone(), prompt));
                proof {
                    assert(entries_view(prompts@) =~= before.push(view));
                }
            },
        }
        i += 1;
    }
    proof {
        assert(table.take(i as int) =~= table);
    }
    refuse_repeats(prompts)
}

/// The entries of the prompts' document.
pub open spec fn spec_prompt_entries(prompts: Seq<(Seq<char>, PromptView)>) -> Seq<
    (Seq<char>, Doc),
> {
    prompts.map_values(|e: (Seq<char>, PromptView)| (e.0, spec_encode_prompt(e.1)))
}

/// Writes the prompts as the document of their file.
pub fn encode_prompts(prompts: &Vec<(String, Prompt)>) -> (document: Node)
    ensures
        document@ == spec_encode_prompts(entries_view(prompts@)),
{
    let ghost target = spec_prompt_entries(entries_view(prompts@));
    let mut entries: Vec<(String, Node)> = Vec::new();
    let mut i: usize = 0;
    proof {
        assert(table_view(entries@) =~= target.take(0));
    }
    while i < prompts.len()
        invariant
            i <= prompts.len(),
            target == spec_prompt_entries(entries_view(prompts@)),
            table_view(entries@) == target.take(i as int),
        decreases prompts.len() - i,
    {
        let ghost before = table_view(entries@);
        let node = encode_prompt(&prompts[i].1);
        let ghost entry = (prompts@[i as int].0@, node@);
        entries.push((prompts[i].0.clone(), node));
        proof {
            assert(table_view(entries@) =~= before.push(entry));
            assert(target.take(i + 1) =~= target.take(i as int).push(target[i as int]));
        }
        i += 1;
    }
    proof {
        assert(target.take(i as int) =~= target);
        lemma_table_view(entries);
    }
    Node::Table(entries)
}

/// Reads the prompts from the text of their file.
pub fn load_prompts(text: &str) -> (prompts: Result<Vec<(String, Prompt)>, Error>)
    ensures
        match prompts {
            Ok(ps) => spec_load_prompts(text@) == Ok::<Seq<(Seq<char>, PromptView)>, ErrorView>(
                entries_view(ps@),
            ) && names_distinct(entries_view(ps@)),
            Err(e) => spec_load_prompts(text@) == Err::<Seq<(Seq<char>, PromptView)>, ErrorView>(
                e@,
            ),
        },
{
    match parse_toml(text) {
        Err(message) => Err(Error::ConfigParseError { detail: message }),
        Ok(document) => match decode_prompts(&document) {
            Err(complaint) => Err(Error::ConfigParseError { detail: complaint }),
            Ok(prompts) => Ok(prompts),
        },
    }
}

/// Writes the prompts as the text of their file. Nothing is written that
/// would not be read back: a message with a role that no provider accepts,
/// or two prompts of the same name, are refused with the reader's
/// complaint. What is left to the TOML writer is whether it can write the
/// document.
pub fn serialize_prompts(prompts: &Vec<(String, Prompt)>) -> (text: Result<String, Error>)
    ensures
        view_result(text) == spec_serialize_prompts(entries_view(prompts@)),
{
    let document = encode_prompts(prompts);
    match decode_prompts(&document) {
        Err(complaint) => Err(Error::ConfigParseError { detail: complaint }),
        Ok(_) => match print_toml(&document) {
            Some(text) => Ok(text),
            None => Err(Error::ConfigParseError { detail: String::new() }),
        },
    }
}

} // verus!
