//! Structured documents: what a configuration file or a provider's answer
//! holds once its text has been read, before any meaning is given to it.

use vstd::prelude::*;
use serde::Deserialize;
use crate::text::all_digits;
use crate::text::char_is_digit;
use crate::text::chars_of;
use crate::text::text_eq;

verus! {

/// A value of a structured document. Numbers and dates are kept as they are
/// written; a table keeps its entries in the order in which they were given.
#[derive(Debug, PartialEq, Eq)]
pub enum Node {
    Null,
    Bool(bool),
    Number(String),
    Date(String),
    Text(String),
    List(Vec<Node>),
    Table(Vec<(String, Node)>),
}

/// What a `Node` holds, as mathematical values.
pub ghost enum Doc {
    Null,
    Bool(bool),
    Number(Seq<char>),
    Date(Seq<char>),
    Text(Seq<char>),
    List(Seq<Doc>),
    Table(Seq<(Seq<char>, Doc)>),
}

impl View for Node {
    type V = Doc;

    open spec fn view(&self) -> Doc
        decreases self,
    {
        match self {
            Node::Null => Doc::Null,
            Node::Bool(b) => Doc::Bool(*b),
            Node::Number(number) => Doc::Number(number@),
            Node::Date(date) => Doc::Date(date@),
            Node::Text(text) => Doc::Text(text@),
            Node::List(items) => Doc::List(
                Seq::new(
                    items@.len(),
                    |i: int|
                        if 0 <= i < items@.len() {
                            items@[i]@
                        } else {
                            Doc::Null
                        },
                ),
            ),
            Node::Table(entries) => Doc::Table(
                Seq::new(
                    entries@.len(),
                    |i: int|
                        (
                            entries@[i].0@,
                            if 0 <= i < entries@.len() {
                                entries@[i].1@
                            } else {
                                Doc::Null
                            },
                        ),
                ),
            ),
        }
    }
}

/// The items of a list, each as mathematical values.
pub open spec fn list_view(items: Seq<Node>) -> Seq<Doc> {
    items.map_values(|item: Node| item@)
}

/// The entries of a table, each as mathematical values.
pub open spec fn table_view(entries: Seq<(String, Node)>) -> Seq<(Seq<char>, Doc)> {
    entries.map_values(|entry: (String, Node)| (entry.0@, entry.1@))
}

/// Named entries with their names as mathematical values.
pub open spec fn keyed<T>(entries: Seq<(String, T)>) -> Seq<(Seq<char>, T)> {
    entries.map_values(|entry: (String, T)| (entry.0@, entry.1))
}

/// A list holds what its items hold.
pub proof fn lemma_list_view(items: Vec<Node>)
    ensures
        Node::List(items)@ == Doc::List(list_view(items@)),
{
    assert(Node::List(items)@->List_0 =~= list_view(items@));
}

/// A table holds what its entries hold.
pub proof fn lemma_table_view(entries: Vec<(String, Node)>)
    ensures
        Node::Table(entries)@ == Doc::Table(table_view(entries@)),
{
    let held = Node::Table(entries)@->Table_0;
    assert forall|i: int| 0 <= i < entries@.len() implies held[i] == table_view(entries@)[i] by {
        // The value of an entry is a smaller tree than the table.
        assert(decreases_to!(Node::Table(entries) => entries));
        assert(decreases_to!(entries => entries[i]));
        assert(decreases_to!(entries[i] => entries[i].1));
    }
    assert(held =~= table_view(entries@));
}

/// Entry `i` of `entries` has the key `key`.
pub open spec fn key_at<T>(entries: Seq<(Seq<char>, T)>, key: Seq<char>, i: int) -> bool {
    0 <= i < entries.len() && entries[i].0 == key
}

/// Entry `i` is the first of `entries` with the key `key`.
pub open spec fn is_first_key<T>(entries: Seq<(Seq<char>, T)>, key: Seq<char>, i: int) -> bool {
    &&& key_at(entries, key, i)
    &&& forall|j: int| 0 <= j < i ==> !key_at(entries, key, j)
}

/// Some entry of `entries` has the key `key`.
pub open spec fn has_key<T>(entries: Seq<(Seq<char>, T)>, key: Seq<char>) -> bool {
    exists|i: int| key_at(entries, key, i)
}

/// What `entries` holds under `key`: the value of the first entry with that
/// key.
pub open spec fn spec_lookup<T>(entries: Seq<(Seq<char>, T)>, key: Seq<char>) -> Option<T> {
    if has_key(entries, key) {
        Some(entries[choose|i: int| is_first_key(entries, key, i)].1)
    } else {
        None
    }
}

/// The first entry with a key is the one that `spec_lookup` gives.
pub proof fn lemma_lookup_first<T>(entries: Seq<(Seq<char>, T)>, key: Seq<char>, i: int)
    requires
        is_first_key(entries, key, i),
    ensures
        spec_lookup(entries, key) == Some(entries[i].1),
{
    // Two first entries cannot differ: the later one would have the
    // earlier one before it.
    let k = choose|k: int| is_first_key(entries, key, k);
    assert(is_first_key(entries, key, k));
    assert(k == i);
}

/// Among the entries that have a key there is a first one.
proof fn lemma_first_key_exists<T>(entries: Seq<(Seq<char>, T)>, key: Seq<char>, i: int)
    requires
        key_at(entries, key, i),
    ensures
        exists|k: int| is_first_key(entries, key, k),
    decreases i,
{
    if exists|j: int| 0 <= j < i && key_at(entries, key, j) {
        let j = choose|j: int| 0 <= j < i && key_at(entries, key, j);
        lemma_first_key_exists(entries, key, j);
    } else {
        assert(is_first_key(entries, key, i));
    }
}

/// An entry added at the end is found under its key unless an earlier entry
/// has that key; what was found before is still found.
pub proof fn lemma_lookup_push<T>(
    entries: Seq<(Seq<char>, T)>,
    entry: (Seq<char>, T),
    key: Seq<char>,
)
    ensures
        has_key(entries.push(entry), key) == (has_key(entries, key) || entry.0 == key),
        spec_lookup(entries.push(entry), key) == if has_key(entries, key) {
            spec_lookup(entries, key)
        } else if entry.0 == key {
            Some(entry.1)
        } else {
            None
        },
{
    let longer = entries.push(entry);
    if has_key(entries, key) {
        let w = choose|i: int| key_at(entries, key, i);
        lemma_first_key_exists(entries, key, w);
        let k = choose|k: int| is_first_key(entries, key, k);
        assert(key_at(longer, key, k));
        assert forall|j: int| 0 <= j < k implies !key_at(longer, key, j) by {
            assert(!key_at(entries, key, j));
        }
        lemma_lookup_first(longer, key, k);
        lemma_lookup_first(entries, key, k);
    } else if entry.0 == key {
        let n = entries.len() as int;
        assert(key_at(longer, key, n));
        assert forall|j: int| 0 <= j < n implies !key_at(longer, key, j) by {
            assert(!key_at(entries, key, j));
        }
        lemma_lookup_first(longer, key, n);
    } else {
        assert forall|j: int| !key_at(longer, key, j) by {
            if 0 <= j < entries.len() {
                assert(!key_at(entries, key, j));
            }
        }
    }
}

/// Finds the first entry with the key `key`.
pub fn find_key<T>(entries: &Vec<(String, T)>, key: &str) -> (found: Option<usize>)
    ensures
        match found {
            Some(i) => is_first_key(keyed(entries@), key@, i as int),
            None => !has_key(keyed(entries@), key@),
        },
{
    let mut i: usize = 0;
    while i < entries.len()
        invariant
            i <= entries.len(),
            forall|j: int| 0 <= j < i ==> !key_at(keyed(entries@), key@, j),
        decreases entries.len() - i,
    {
        if text_eq(entries[i].0.as_str(), key) {
            return Some(i);
        }
        i += 1;
    }
    None
}

/// Finds what `entries` holds under `key`.
pub fn lookup<'a, T>(entries: &'a Vec<(String, T)>, key: &str) -> (found: Option<&'a T>)
    ensures
        match found {
            Some(value) => spec_lookup(keyed(entries@), key@) == Some(*value),
            None => spec_lookup(keyed(entries@), key@) is None,
        },
{
    match find_key(entries, key) {
        Some(i) => {
            proof {
                lemma_lookup_first(keyed(entries@), key@, i as int);
            }
            Some(&entries[i].1)
        },
        None => None,
    }
}

impl Doc {
    /// What a table holds under `key`; nothing where the document is no
    /// table.
    pub open spec fn spec_get(self, key: Seq<char>) -> Option<Doc> {
        match self {
            Doc::Table(entries) => spec_lookup(entries, key),
            _ => None,
        }
    }
}

impl Node {
    /// Finds what a table holds under `key`.
    pub fn get(&self, key: &str) -> (found: Option<&Node>)
        ensures
            match found {
                Some(value) => self@.spec_get(key@) == Some(value@),
                None => self@.spec_get(key@) is None,
            },
    {
        match self {
            Node::Table(entries) => {
                proof {
                    lemma_table_view(*entries);
                    assert forall|j: int|
                        key_at(table_view(entries@), key@, j) == key_at(
                            keyed(entries@),
                            key@,
                            j,
                        ) by {}
                }
                match find_key(entries, key) {
                    Some(i) => {
                        proof {
                            lemma_lookup_first(table_view(entries@), key@, i as int);
                        }
                        Some(&entries[i].1)
                    },
                    None => None,
                }
            },
            _ => None,
        }
    }
}

/// Adds an entry at the end of a table under construction.
pub fn push_entry(entries: &mut Vec<(String, Node)>, key: &str, node: Node)
    ensures
        table_view(final(entries)@) == table_view(old(entries)@).push((key@, node@)),
{
    entries.push((String::from_str(key), node));
    proof {
        assert(table_view(entries@) =~= table_view(old(entries)@).push((key@, node@)));
    }
}

/// The values that a list stands for when each item is read with `read`,
/// or the complaint about the first item that cannot be read.
pub open spec fn decode_all<A, V>(
    items: Seq<A>,
    read: spec_fn(A) -> Result<V, Seq<char>>,
) -> Result<Seq<V>, Seq<char>>
    decreases items.len(),
{
    if items.len() == 0 {
        Ok(Seq::empty())
    } else {
        match decode_all(items.drop_last(), read) {
            Err(complaint) => Err(complaint),
            Ok(values) => match read(items.last()) {
                Err(complaint) => Err(complaint),
                Ok(value) => Ok(values.push(value)),
            },
        }
    }
}

/// Reading one item more goes on from what the items before it gave.
pub proof fn lemma_decode_all_next<A, V>(
    items: Seq<A>,
    read: spec_fn(A) -> Result<V, Seq<char>>,
    i: int,
)
    requires
        0 <= i < items.len(),
    ensures
        decode_all(items.take(i + 1), read) == match decode_all(items.take(i), read) {
            Err(complaint) => Err::<Seq<V>, Seq<char>>(complaint),
            Ok(values) => match read(items[i]) {
                Err(complaint) => Err(complaint),
                Ok(value) => Ok(values.push(value)),
            },
        },
{
    assert(items.take(i + 1).drop_last() =~= items.take(i));
}

/// Once an item cannot be read, the list cannot, however it goes on.
pub proof fn lemma_decode_all_error_stays<A, V>(
    items: Seq<A>,
    read: spec_fn(A) -> Result<V, Seq<char>>,
    k: int,
    complaint: Seq<char>,
)
    requires
        0 <= k <= items.len(),
        decode_all(items.take(k), read) == Err::<Seq<V>, Seq<char>>(complaint),
    ensures
        decode_all(items, read) == Err::<Seq<V>, Seq<char>>(complaint),
    decreases items.len() - k,
{
    if k < items.len() {
        lemma_decode_all_next(items, read, k);
        lemma_decode_all_error_stays(items, read, k + 1, complaint);
    } else {
        assert(items.take(k) =~= items);
    }
}

/// A list whose every item can be read stands for what its items give.
pub proof fn lemma_decode_all_ok<A, V>(
    items: Seq<A>,
    read: spec_fn(A) -> Result<V, Seq<char>>,
    values: Seq<V>,
)
    requires
        values.len() == items.len(),
        forall|i: int| 0 <= i < items.len() ==> read(items[i]) == Ok::<V, Seq<char>>(values[i]),
    ensures
        decode_all(items, read) == Ok::<Seq<V>, Seq<char>>(values),
    decreases items.len(),
{
    if items.len() > 0 {
        lemma_decode_all_ok(items.drop_last(), read, values.drop_last());
        assert(values.drop_last().push(values.last()) =~= values);
    } else {
        assert(values =~= Seq::<V>::empty());
    }
}

/// A list that can be read has only items that can be read, and stands
/// for what they give, in order.
pub proof fn lemma_decode_all_each<A, V>(
    items: Seq<A>,
    read: spec_fn(A) -> Result<V, Seq<char>>,
)
    requires
        decode_all(items, read) is Ok,
    ensures
        decode_all(items, read)->Ok_0.len() == items.len(),
        forall|i: int|
            0 <= i < items.len() ==> (#[trigger] read(items[i])) == Ok::<V, Seq<char>>(
                decode_all(items, read)->Ok_0[i],
            ),
    decreases items.len(),
{
    if items.len() > 0 {
        lemma_decode_all_each(items.drop_last(), read);
        assert forall|i: int| 0 <= i < items.len() implies (#[trigger] read(items[i])) == Ok::<
            V,
            Seq<char>,
        >(decode_all(items, read)->Ok_0[i]) by {
            if i < items.len() - 1 {
                assert(items.drop_last()[i] == items[i]);
            }
        }
    }
}

/// The number that a digit stands for.
pub open spec fn digit_value(c: char) -> nat {
    (c as u32 - '0' as u32) as nat
}

/// The number that a run of decimal digits stands for.
pub open spec fn natural_value(s: Seq<char>) -> nat
    decreases s.len(),
{
    if s.len() == 0 {
        0
    } else {
        natural_value(s.drop_last()) * 10 + digit_value(s.last())
    }
}

/// The number that `s` stands for, where `s` is a run of decimal digits that
/// stands for a number up to `max`.
pub open spec fn spec_parse_natural(s: Seq<char>, max: u64) -> Option<u64> {
    if s.len() > 0 && all_digits(s) && natural_value(s) <= max {
        Some(natural_value(s) as u64)
    } else {
        None
    }
}

/// A run of digits stands for no less than any of its beginnings.
proof fn lemma_natural_value_grows(s: Seq<char>, i: int)
    requires
        0 <= i <= s.len(),
    ensures
        natural_value(s.take(i)) <= natural_value(s),
    decreases s.len() - i,
{
    if i < s.len() {
        assert(s.take(i + 1).drop_last() =~= s.take(i));
        lemma_natural_value_grows(s, i + 1);
    } else {
        assert(s.take(i) =~= s);
    }
}

/// Reads a natural number that is written in decimal digits and is no
/// greater than `max`.
pub fn parse_natural(text: &str, max: u64) -> (value: Option<u64>)
    ensures
        value == spec_parse_natural(text@, max),
{
    let chars = chars_of(text);
    if chars.len() == 0 {
        return None;
    }
    let mut value: u64 = 0;
    let mut i: usize = 0;
    while i < chars.len()
        invariant
            i <= chars.len(),
            chars@ == text@,
            value <= max,
            value == natural_value(chars@.take(i as int)),
            all_digits(chars@.take(i as int)),
        decreases chars.len() - i,
    {
        let c = chars[i];
        if !char_is_digit(c) {
            return None;
        }
        let digit: u64 = (c as u32 - '0' as u32) as u64;
        proof {
            assert(chars@.take(i + 1).drop_last() =~= chars@.take(i as int));
            lemma_natural_value_grows(chars@, i + 1);
        }
        if digit > max || value > (max - digit) / 10 {
            return None;
        }
        value = value * 10 + digit;
        i += 1;
    }
    proof {
        assert(chars@.take(i as int) =~= chars@);
    }
    Some(value)
}

/// The text that a table holds under `key`, or the key as the complaint.
pub open spec fn spec_text_field(node: Doc, key: Seq<char>) -> Result<Seq<char>, Seq<char>> {
    match node.spec_get(key) {
        Some(Doc::Text(text)) => Ok(text),
        _ => Err(key),
    }
}

/// The text that a table holds under `key`, where it holds anything there:
/// an absent entry and a null both stand for no text.
pub open spec fn spec_optional_text_field(node: Doc, key: Seq<char>) -> Result<
    Option<Seq<char>>,
    Seq<char>,
> {
    match node.spec_get(key) {
        None => Ok(None),
        Some(Doc::Null) => Ok(None),
        Some(Doc::Text(text)) => Ok(Some(text)),
        _ => Err(key),
    }
}

/// The natural number up to `max` that a table holds under `key`, or the
/// key as the complaint.
pub open spec fn spec_number_field(node: Doc, key: Seq<char>, max: u64) -> Result<
    u64,
    Seq<char>,
> {
    match node.spec_get(key) {
        Some(Doc::Number(digits)) => match spec_parse_natural(digits, max) {
            Some(value) => Ok(value),
            None => Err(key),
        },
        _ => Err(key),
    }
}

/// Reads the text that a table holds under `key`.
pub fn text_field(node: &Node, key: &str) -> (field: Result<String, String>)
    ensures
        match field {
            Ok(text) => spec_text_field(node@, key@) == Ok::<Seq<char>, Seq<char>>(text@),
            Err(name) => spec_text_field(node@, key@) == Err::<Seq<char>, Seq<char>>(name@),
        },
{
    match node.get(key) {
        Some(Node::Text(text)) => Ok(text.clone()),
        _ => Err(String::from_str(key)),
    }
}

/// Reads the text that a table may hold under `key`.
pub fn optional_text_field(node: &Node, key: &str) -> (field: Result<Option<String>, String>)
    ensures
        match field {
            Ok(text) => spec_optional_text_field(node@, key@) == Ok::<
                Option<Seq<char>>,
                Seq<char>,
            >(text.deep_view()),
            Err(name) => spec_optional_text_field(node@, key@) == Err::<
                Option<Seq<char>>,
                Seq<char>,
            >(name@),
        },
{
    match node.get(key) {
        None => Ok(None),
        Some(Node::Null) => Ok(None),
        Some(Node::Text(text)) => Ok(Some(text.clone())),
        _ => Err(String::from_str(key)),
    }
}

/// Reads the natural number up to `max` that a table holds under `key`.
pub fn number_field(node: &Node, key: &str, max: u64) -> (field: Result<u64, String>)
    ensures
        match field {
            Ok(value) => spec_number_field(node@, key@, max) == Ok::<u64, Seq<char>>(value),
            Err(name) => spec_number_field(node@, key@, max) == Err::<u64, Seq<char>>(name@),
        },
{
    match node.get(key) {
        Some(Node::Number(digits)) => match parse_natural(digits.as_str(), max) {
            Some(value) => Ok(value),
            None => Err(String::from_str(key)),
        },
        _ => Err(String::from_str(key)),
    }
}

/// `serde_json::Value`, a JSON value as `serde_json` holds it. Nothing of
/// its inside is known here: it is turned into a `Node` at once.
#[verifier::external_type_specification]
#[verifier::external_body]
pub struct ExJsonValue(serde_json::Value);

/// `toml::Value`, a TOML value as `toml` holds it. Nothing of its inside is
/// known here: it is turned into a `Node`, or made from one, at once.
#[verifier::external_type_specification]
#[verifier::external_body]
pub struct ExTomlValue(toml::Value);

/// The document that a JSON text stands for; nothing where the text is not
/// JSON.
pub uninterp spec fn json_document(text: Seq<char>) -> Option<Doc>;

/// The document that a TOML text stands for, or the parser's complaint.
pub uninterp spec fn toml_document(text: Seq<char>) -> Result<Doc, Seq<char>>;

/// The TOML text for a document; nothing where TOML cannot express it.
pub uninterp spec fn toml_text(document: Doc) -> Option<Seq<char>>;

/// How a character stands in a JSON string: the quote and the backslash
/// behind a backslash, the control characters below U+0020 by their short
/// name where they have one and by their number in four hexadecimal digits
/// where they have none, and every other character as itself.
pub open spec fn json_escape(c: char) -> Seq<char> {
    if c == '"' {
        seq!['\\', '"']
    } else if c == '\\' {
        seq!['\\', '\\']
    } else if c == '\u{8}' {
        seq!['\\', 'b']
    } else if c == '\t' {
        seq!['\\', 't']
    } else if c == '\n' {
        seq!['\\', 'n']
    } else if c == '\u{c}' {
        seq!['\\', 'f']
    } else if c == '\r' {
        seq!['\\', 'r']
    } else if (c as u32) < 0x20 {
        seq![
            '\\',
            'u',
            '0',
            '0',
            "0123456789abcdef"@[(c as u32 / 16) as int],
            "0123456789abcdef"@[(c as u32 % 16) as int],
        ]
    } else {
        seq![c]
    }
}

/// The characters of `text` as they stand in a JSON string.
pub open spec fn json_escaped(text: Seq<char>) -> Seq<char>
    decreases text.len(),
{
    if text.len() == 0 {
        Seq::empty()
    } else {
        json_escaped(text.drop_last()) + json_escape(text.last())
    }
}

/// The JSON string literal for `text`: the escaped text between quotes.
pub open spec fn json_string_literal(text: Seq<char>) -> Seq<char> {
    seq!['"'] + json_escaped(text) + seq!['"']
}

/// A character that stands in a JSON string as itself.
pub open spec fn is_plain(c: char) -> bool {
    c != '"' && c != '\\' && (c as u32) >= 0x20
}

/// Text that holds only characters that stand as themselves is its own
/// escaped form: its literal is the text between quotes.
pub proof fn lemma_plain_text_literal(text: Seq<char>)
    requires
        forall|i: int| 0 <= i < text.len() ==> is_plain(#[trigger] text[i]),
    ensures
        json_escaped(text) == text,
        json_string_literal(text) == seq!['"'] + text + seq!['"'],
    decreases text.len(),
{
    if text.len() > 0 {
        lemma_plain_text_literal(text.drop_last());
        assert(is_plain(text[text.len() - 1]));
        assert(json_escape(text.last()) =~= seq![text.last()]);
        assert(text.drop_last() + seq![text.last()] =~= text);
    } else {
        assert(json_escaped(text) =~= text);
    }
}

/// Turns a `serde_json::Value` into a `Node`, variant by variant: numbers
/// through `Number`'s `Display`, objects in the order in which
/// `serde_json::Map` walks them.
///
/// Trusted; nothing is claimed of the result.
#[verifier::external_body]
fn node_of_json(value: serde_json::Value) -> Node {
    match value {
        serde_json::Value::Null => Node::Null,
        serde_json::Value::Bool(b) => Node::Bool(b),
        serde_json::Value::Number(n) => Node::Number(n.to_string()),
        serde_json::Value::String(s) => Node::Text(s),
        serde_json::Value::Array(items) => Node::List(
            items.into_iter().map(node_of_json).collect(),
        ),
        serde_json::Value::Object(fields) => Node::Table(
            fields.into_iter().map(|(k, v)| (k, node_of_json(v))).collect(),
        ),
    }
}

/// Reads a JSON text with `serde_json::from_str`.
///
/// Trusted: the claim is only that the outcome depends on the text alone.
#[verifier::external_body]
pub(crate) fn parse_json(text: &str) -> (document: Option<Node>)
    ensures
        match document {
            Some(node) => json_document(text@) == Some(node@),
            None => json_document(text@) is None,
        },
{
    serde_json::from_str::<serde_json::Value>(text).ok().map(node_of_json)
}

/// Writes `text` as a JSON string literal with `serde_json::to_string`.
///
/// Trusted: the literal is the text between quotes, escaped as
/// `serde_json` escapes a string: by its table of the characters below
/// U+0020, the quote and the backslash. Writing a `str` into memory gives
/// `serde_json` no reason to fail.
#[verifier::external_body]
pub(crate) fn json_quote(text: &str) -> (literal: String)
    ensures
        literal@ == json_string_literal(text@),
{
    match serde_json::to_string(text) {
        Ok(literal) => literal,
        Err(_) => String::new(),
    }
}

/// Turns a `toml::Value` into a `Node`, variant by variant: integers,
/// floats and dates through their `Display`.
///
/// Trusted; nothing is claimed of the result.
#[verifier::external_body]
fn node_of_toml(value: toml::Value) -> Node {
    match value {
        toml::Value::String(s) => Node::Text(s),
        toml::Value::Integer(i) => Node::Number(i.to_string()),
        toml::Value::Float(f) => Node::Number(f.to_string()),
        toml::Value::Boolean(b) => Node::Bool(b),
        toml::Value::Datetime(d) => Node::Date(d.to_string()),
        toml::Value::Array(items) => Node::List(items.into_iter().map(node_of_toml).collect()),
        toml::Value::Table(entries) => Node::Table(
            entries.into_iter().map(|(k, v)| (k, node_of_toml(v))).collect(),
        ),
    }
}

/// Reads a TOML text with `toml::from_str`.
///
/// Trusted: the claim is only that the outcome, the parser's message
/// included, depends on the text alone.
#[verifier::external_body]
pub(crate) fn parse_toml(text: &str) -> (document: Result<Node, String>)
    ensures
        match document {
            Ok(node) => toml_document(text@) == Ok::<Doc, Seq<char>>(node@),
            Err(message) => toml_document(text@) == Err::<Doc, Seq<char>>(message@),
        },
{
    match toml::from_str::<toml::Value>(text) {
        Ok(value) => Ok(node_of_toml(value)),
        Err(e) => Err(e.to_string()),
    }
}

/// Turns a `Node` into a `toml::Value`, variant by variant: a number or a
/// date through `toml::de::ValueDeserializer`, which reads one value as it
/// is written. TOML has no null.
///
/// Trusted; nothing is claimed of the result.
#[verifier::external_body]
fn toml_of_node(node: &Node) -> Option<toml::Value> {
    Some(match node {
        Node::Null => return None,
        Node::Bool(b) => toml::Value::Boolean(*b),
        Node::Number(n) | Node::Date(n) => toml::Value::deserialize(
            toml::de::ValueDeserializer::new(n),
        ).ok()?,
        Node::Text(s) => toml::Value::String(s.clone()),
        Node::List(items) => toml::Value::Array(
            items.iter().map(toml_of_node).collect::<Option<_>>()?,
        ),
        Node::Table(entries) => toml::Value::Table(
            entries.iter().map(|(k, v)| Some((k.clone(), toml_of_node(v)?))).collect::<Option<_>>()?,
        ),
    })
}

/// Writes a document as TOML with `toml::to_string`.
///
/// Trusted: the claim is only that the outcome depends on what the
/// document holds, and on nothing else.
#[verifier::external_body]
pub(crate) fn print_toml(document: &Node) -> (text: Option<String>)
    ensures
        text.deep_view() == toml_text(document@),
{
    toml::to_string(&toml_of_node(document)?).ok()
}

} // verus!
