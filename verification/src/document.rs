//! Reading a YAML document with the `config` crate.
//!
//! `config` reads the text and converts its values; the library decides what
//! to ask for and what an answer amounts to. Before it hands a text over, the
//! library looks at its tokens: `config` builds nested values by recursion and
//! copies a value wherever an alias repeats it, so a text that nests without
//! bound, or that repeats values through aliases, could use up the stack or
//! the memory. Settings are flat. A text that nests deeper than
//! [`MAX_NESTING`], or that holds an alias, is therefore not read at all.
use config::Value;
use std::collections::HashMap;
use vstd::prelude::*;

verus! {

/// How deep the collections of a document may nest, counted in the tokens
/// that open one.
pub const MAX_NESTING: usize = 32;

/// A token of a YAML text, as far as nesting goes.
#[derive(Clone, Copy, Debug, PartialEq, Eq, Structural)]
pub enum YamlToken {
    /// A list in block style begins.
    BlockSequenceStart,
    /// A table in block style begins.
    BlockMappingStart,
    /// A list or a table in block style ends.
    BlockEnd,
    /// `[`: a list in flow style begins.
    FlowSequenceStart,
    /// `]`: a list in flow style ends.
    FlowSequenceEnd,
    /// `{`: a table in flow style begins.
    FlowMappingStart,
    /// `}`: a table in flow style ends.
    FlowMappingEnd,
    /// `*` and a name: a value that was given before stands here again.
    Alias,
    /// Any token that neither opens nor closes a collection nor is an alias.
    Other,
}

/// What `yaml_rust::scanner::Scanner` makes of a text: its tokens in their
/// order, up to the end of the text or to the first place that the scanner
/// cannot read.
pub uninterp spec fn yaml_tokens(text: Seq<char>) -> Seq<YamlToken>;

/// Reads the tokens of a text with `yaml_rust::scanner::Scanner`, the scanner
/// with which `config` reads YAML, and keeps of each token its kind.
///
/// Taken on trust: the result is what `yaml_tokens` names for the text.
#[verifier::external_body]
fn scan_yaml(text: &str) -> (tokens: Vec<YamlToken>)
    ensures
        tokens@ == yaml_tokens(text@),
{
    yaml_rust::scanner::Scanner::new(text.chars()).map(|token| match token.1 {
        yaml_rust::scanner::TokenType::BlockSequenceStart => YamlToken::BlockSequenceStart,
        yaml_rust::scanner::TokenType::BlockMappingStart => YamlToken::BlockMappingStart,
        yaml_rust::scanner::TokenType::BlockEnd => YamlToken::BlockEnd,
        yaml_rust::scanner::TokenType::FlowSequenceStart => YamlToken::FlowSequenceStart,
        yaml_rust::scanner::TokenType::FlowSequenceEnd => YamlToken::FlowSequenceEnd,
        yaml_rust::scanner::TokenType::FlowMappingStart => YamlToken::FlowMappingStart,
        yaml_rust::scanner::TokenType::FlowMappingEnd => YamlToken::FlowMappingEnd,
        yaml_rust::scanner::TokenType::Alias(_) => YamlToken::Alias,
        _ => YamlToken::Other,
    }).collect()
}

impl YamlToken {
    /// Whether the token opens a collection.
    pub open spec fn opens(self) -> bool {
        self is BlockSequenceStart || self is BlockMappingStart || self is FlowSequenceStart
            || self is FlowMappingStart
    }

    /// Whether the token closes a collection.
    pub open spec fn closes(self) -> bool {
        self is BlockEnd || self is FlowSequenceEnd || self is FlowMappingEnd
    }
}

/// How many collections are open after a sequence of tokens. A token that
/// closes a collection where none is open counts for nothing.
pub open spec fn open_after(tokens: Seq<YamlToken>) -> nat
    decreases tokens.len(),
{
    if tokens.len() == 0 {
        0
    } else {
        let before = open_after(tokens.drop_last());
        if tokens.last().opens() {
            before + 1
        } else if tokens.last().closes() && before > 0 {
            (before - 1) as nat
        } else {
            before
        }
    }
}

/// Whether a sequence of tokens is flat: it holds no alias, and at no point
/// more than [`MAX_NESTING`] collections are open.
pub open spec fn flat(tokens: Seq<YamlToken>) -> bool {
    &&& forall|i: int| 0 <= i < tokens.len() ==> !(#[trigger] tokens[i] is Alias)
    &&& forall|n: int|
        0 <= n <= tokens.len() ==> open_after(#[trigger] tokens.take(n)) <= MAX_NESTING
}

/// Tells whether a sequence of tokens is flat.
pub fn is_flat(tokens: &[YamlToken]) -> (answer: bool)
    ensures
        answer == flat(tokens@),
{
    let mut open: usize = 0;
    let mut i: usize = 0;
    while i < tokens.len()
        invariant
            i <= tokens@.len(),
            open == open_after(tokens@.take(i as int)),
            open <= MAX_NESTING,
            forall|j: int| 0 <= j < i ==> !(#[trigger] tokens@[j] is Alias),
            forall|n: int|
                0 <= n <= i ==> open_after(#[trigger] tokens@.take(n)) <= MAX_NESTING,
        decreases tokens@.len() - i,
    {
        let token = tokens[i];
        assert(tokens@.take(i + 1).drop_last() =~= tokens@.take(i as int));
        match token {
            YamlToken::Alias => {
                return false;
            },
            YamlToken::BlockSequenceStart
            | YamlToken::BlockMappingStart
            | YamlToken::FlowSequenceStart
            | YamlToken::FlowMappingStart => {
                if open == MAX_NESTING {
                    return false;
                }
                open += 1;
            },
            YamlToken::BlockEnd | YamlToken::FlowSequenceEnd | YamlToken::FlowMappingEnd => {
                if open > 0 {
                    open -= 1;
                }
            },
            YamlToken::Other => {},
        }
        i += 1;
    }
    true
}

/// `config::Value`: one value of a settings document. The library hands such
/// values from one call into `config` to the next and never looks inside.
#[verifier::external_type_specification]
#[verifier::external_body]
pub struct ExValue(Value);

/// What `config` makes of a text that it reads as YAML: the entries at the top
/// of the document, each under its key, or nothing where the text is not one
/// YAML document. This only names what `config::Format::parse` returns; which
/// entries a given text has is for `config` to say.
pub uninterp spec fn yaml_entries(text: Seq<char>) -> Option<Map<Seq<char>, Value>>;

/// What a table of `config` holds: its values, each under its key.
pub uninterp spec fn table_entries(table: HashMap<String, Value>) -> Map<Seq<char>, Value>;

/// What `config::Value::into_string` makes of a value: a text, or nothing
/// where it refuses the value.
pub uninterp spec fn value_text(value: Value) -> Option<Seq<char>>;

/// What `config::Value::into_int` makes of a value: an integer, or nothing
/// where it refuses the value.
pub uninterp spec fn value_int(value: Value) -> Option<i64>;

/// What `config::Value::into_array` makes of a value: its items in their
/// order, or nothing where the value is no list.
pub uninterp spec fn value_items(value: Value) -> Option<Seq<Value>>;

/// Reads a text as YAML with `config::Format::parse` of
/// `config::FileFormat::Yaml`, which builds the values of the document by
/// recursion: it is called on flat texts only.
///
/// Taken on trust: the table returned holds the entries that `yaml_entries`
/// names for the text, and the call fails just where `yaml_entries` names none.
#[verifier::external_body]
fn parse_yaml(text: &str) -> (table: Option<HashMap<String, Value>>)
    requires
        flat(yaml_tokens(text@)),
    ensures
        match table {
            Some(t) => yaml_entries(text@) == Some(table_entries(t)),
            None => yaml_entries(text@) is None,
        },
{
    config::Format::parse(&config::FileFormat::Yaml, None, text).ok()
}

/// Looks a key up in a table of `config` with `HashMap::get`.
///
/// Taken on trust: the value returned is the one that the table holds under
/// the key, and there is one just where the table has the key.
#[verifier::external_body]
fn table_get<'a>(table: &'a HashMap<String, Value>, key: &str) -> (value: Option<&'a Value>)
    ensures
        match value {
            Some(v) => table_entries(*table).contains_key(key@) && table_entries(*table)[key@]
                == *v,
            None => !table_entries(*table).contains_key(key@),
        },
{
    table.get(key)
}

/// Reads a value as a text with `config::Value::into_string`, which takes a
/// text as it is, writes out a number or a truth value, and refuses the rest.
///
/// Taken on trust: the result is what `value_text` names for the value.
#[verifier::external_body]
fn into_text(value: &Value) -> (text: Option<String>)
    ensures
        text.deep_view() == value_text(*value),
{
    value.clone().into_string().ok()
}

/// Reads a value as an integer with `config::Value::into_int`, which takes a
/// number or a truth value, or a text that spells one, and refuses the rest.
///
/// Taken on trust: the result is what `value_int` names for the value.
#[verifier::external_body]
fn into_int(value: &Value) -> (number: Option<i64>)
    ensures
        number == value_int(*value),
{
    value.clone().into_int().ok()
}

/// Reads a value as a list with `config::Value::into_array`, which hands out
/// the items of a list in their order and refuses every other value.
///
/// Taken on trust: the result is what `value_items` names for the value.
#[verifier::external_body]
fn into_items(value: &Value) -> (items: Option<Vec<Value>>)
    ensures
        match items {
            Some(v) => value_items(*value) == Some(v@),
            None => value_items(*value) is None,
        },
{
    value.clone().into_array().ok()
}

/// What the document holds under one key.
#[derive(Debug, PartialEq, Eq)]
pub enum Reading<T> {
    /// An entry of the type asked for.
    Found(T),
    /// No entry.
    Missing,
    /// An entry of another type.
    Mismatch,
}

impl<T: DeepView> DeepView for Reading<T> {
    type V = Reading<T::V>;

    open spec fn deep_view(&self) -> Reading<T::V> {
        match self {
            Reading::Found(value) => Reading::Found(value.deep_view()),
            Reading::Missing => Reading::Missing,
            Reading::Mismatch => Reading::Mismatch,
        }
    }
}

/// The text under a key.
pub open spec fn read_text(entries: Map<Seq<char>, Value>, key: Seq<char>) -> Reading<Seq<char>> {
    if !entries.contains_key(key) {
        Reading::Missing
    } else {
        match value_text(entries[key]) {
            Some(text) => Reading::Found(text),
            None => Reading::Mismatch,
        }
    }
}

/// The integer under a key.
pub open spec fn read_int(entries: Map<Seq<char>, Value>, key: Seq<char>) -> Reading<i64> {
    if !entries.contains_key(key) {
        Reading::Missing
    } else {
        match value_int(entries[key]) {
            Some(number) => Reading::Found(number),
            None => Reading::Mismatch,
        }
    }
}

/// The items of a list as texts, where each of them reads as one.
pub open spec fn texts_of(items: Seq<Value>) -> Option<Seq<Seq<char>>> {
    if forall|i: int| 0 <= i < items.len() ==> (#[trigger] value_text(items[i])) is Some {
        Some(Seq::new(items.len(), |i: int| value_text(items[i])->0))
    } else {
        None
    }
}

/// The list of texts under a key.
pub open spec fn read_texts(entries: Map<Seq<char>, Value>, key: Seq<char>) -> Reading<
    Seq<Seq<char>>,
> {
    if !entries.contains_key(key) {
        Reading::Missing
    } else {
        match value_items(entries[key]) {
            Some(items) => match texts_of(items) {
                Some(texts) => Reading::Found(texts),
                None => Reading::Mismatch,
            },
            None => Reading::Mismatch,
        }
    }
}

/// Reads the text under a key.
pub(crate) fn text_entry(table: &HashMap<String, Value>, key: &str) -> (found: Reading<String>)
    ensures
        found.deep_view() == read_text(table_entries(*table), key@),
{
    match table_get(table, key) {
        None => Reading::Missing,
        Some(value) => match into_text(value) {
            Some(text) => Reading::Found(text),
            None => Reading::Mismatch,
        },
    }
}

/// Reads the integer under a key.
pub(crate) fn int_entry(table: &HashMap<String, Value>, key: &str) -> (found: Reading<i64>)
    ensures
        found.deep_view() == read_int(table_entries(*table), key@),
{
    match table_get(table, key) {
        None => Reading::Missing,
        Some(value) => match into_int(value) {
            Some(number) => Reading::Found(number),
            None => Reading::Mismatch,
        },
    }
}

/// Reads each item of a list as a text, and gives up at the first that is none.
fn item_texts(items: &Vec<Value>) -> (texts: Option<Vec<String>>)
    ensures
        texts.deep_view() == texts_of(items@),
{
    let mut texts: Vec<String> = Vec::new();
    for i in 0..items.len()
        invariant
            texts@.len() == i,
            forall|j: int|
                0 <= j < i ==> (#[trigger] value_text(items@[j])) == Some(texts@[j]@),
    {
        match into_text(&items[i]) {
            Some(text) => {
                texts.push(text);
            },
            None => {
                return None;
            },
        }
    }
    assert(texts.deep_view() =~= texts_of(items@)->0);
    Some(texts)
}

/// Reads the list of texts under a key.
pub(crate) fn texts_entry(table: &HashMap<String, Value>, key: &str) -> (found: Reading<
    Vec<String>,
>)
    ensures
        found.deep_view() == read_texts(table_entries(*table), key@),
{
    match table_get(table, key) {
        None => Reading::Missing,
        Some(value) => match into_items(value) {
            Some(items) => match item_texts(&items) {
                Some(texts) => Reading::Found(texts),
                None => Reading::Mismatch,
            },
            None => Reading::Mismatch,
        },
    }
}

/// The entries at the top of a document that the library reads: those of a
/// flat text that `config` reads as one YAML document.
pub open spec fn document_entries(text: Seq<char>) -> Option<Map<Seq<char>, Value>> {
    if flat(yaml_tokens(text)) {
        yaml_entries(text)
    } else {
        None
    }
}

/// Reads a text as a YAML document, if it is flat.
pub(crate) fn read_document(text: &str) -> (table: Option<HashMap<String, Value>>)
    ensures
        match table {
            Some(t) => document_entries(text@) == Some(table_entries(t)),
            None => document_entries(text@) is None,
        },
{
    let tokens = scan_yaml(text);
    if is_flat(tokens.as_slice()) {
        parse_yaml(text)
    } else {
        None
    }
}

} // verus!
