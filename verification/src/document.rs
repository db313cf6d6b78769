//! The configuration file as a TOML document.
//!
//! Reading and writing TOML is the `toml` crate's work. This module hands it
//! plain values and takes plain values back: of a document that was read,
//! each top-level key with what it holds; of one to be written, each key with
//! its list of strings. What the keys mean is decided here.

use crate::error::ParseError;
use crate::severity::Severity;
use vstd::prelude::*;

verus! {

/// What a document that was read holds: its top-level keys in the order of the
/// table, each with the elements of the list under it, or `None` where it
/// holds something other than a list. An element is the text of a string, or
/// `None` where it is a value of another kind.
pub type Document = Vec<(String, Option<Vec<Option<String>>>)>;

/// A `Document` as a mathematical value.
pub type DocumentView = Seq<(Seq<char>, Option<Seq<Option<Seq<char>>>>)>;

/// What a document to be written holds: its keys in order, each with the
/// strings of its list.
pub type Lists = Vec<(String, Vec<String>)>;

/// A `Lists` as a mathematical value.
pub type ListsView = Seq<(Seq<char>, Seq<Seq<char>>)>;

/// What `toml::from_str` makes of `text` when it is asked for a table: the
/// table's top-level keys with what they hold, as a `Document` tells it, or
/// `None` where it rejects the text.
pub uninterp spec fn toml_document(text: Seq<char>) -> Option<
    Seq<(Seq<char>, Option<Seq<Option<Seq<char>>>>)>,
>;

/// The text that `toml::to_string_pretty` writes for the table that holds
/// these keys with these lists of strings, or `None` where it fails.
pub uninterp spec fn toml_pretty(lists: Seq<(Seq<char>, Seq<Seq<char>>)>) -> Option<Seq<char>>;

/// Calls `toml::from_str` for a `toml::Table`. The contract names what comes
/// back and claims no more than that the same text always gives the same
/// outcome: an error where the parser rejects the text, and otherwise the
/// table's entries in the table's own order, of each value whether it is an
/// array and of each element whether it is a string.
#[verifier::external_body]
pub(crate) fn parse_table(text: &str) -> (parsed: Result<Document, toml::de::Error>)
    ensures
        match parsed {
            Ok(document) => toml_document(text@) == Some(document.deep_view()),
            Err(_) => toml_document(text@) is None,
        },
{
    let table = toml::from_str::<toml::Table>(text)?;
    Ok(table.into_iter().map(|(key, value)| (key, match value {
        toml::Value::Array(items) => Some(items.into_iter().map(|item| match item {
            toml::Value::String(text) => Some(text),
            _ => None,
        }).collect()),
        _ => None,
    })).collect())
}

/// Calls `toml::to_string_pretty` on the `toml::Table` that holds each key of
/// `lists` with its strings as an array. The contract names the text that
/// comes back and claims no more than that the same lists always give the
/// same text, or always fail.
#[verifier::external_body]
pub(crate) fn write_table(lists: &Lists) -> (written: Result<String, toml::ser::Error>)
    ensures
        match written {
            Ok(text) => toml_pretty(lists.deep_view()) == Some(text@),
            Err(_) => toml_pretty(lists.deep_view()) is None,
        },
{
    let table: toml::Table = lists.iter().map(|(key, names)| {
        (key.clone(), toml::Value::from(names.clone()))
    }).collect();
    toml::to_string_pretty(&table)
}

/// What the document holds under `key`: the value of the first entry with
/// that key, or `None` where no entry has it.
pub open spec fn value_at(document: DocumentView, key: Seq<char>) -> Option<
    Option<Seq<Option<Seq<char>>>>,
>
    decreases document.len(),
{
    if document.len() == 0 {
        None
    } else if document[0].0 == key {
        Some(document[0].1)
    } else {
        value_at(document.drop_first(), key)
    }
}

/// Whether every element is a string.
pub open spec fn all_text(elements: Seq<Option<Seq<char>>>) -> bool {
    forall|i: int| 0 <= i < elements.len() ==> (#[trigger] elements[i]) is Some
}

/// The texts of the elements, in order.
pub open spec fn texts(elements: Seq<Option<Seq<char>>>) -> Seq<Seq<char>> {
    Seq::new(elements.len(), |i: int| elements[i]->Some_0)
}

/// The names that the document lists under `key`: none where the key is
/// absent, the strings of the list where it holds a list of strings, and
/// `None` where it holds anything else.
pub open spec fn names_at(document: DocumentView, key: Seq<char>) -> Option<Seq<Seq<char>>> {
    match value_at(document, key) {
        None => Some(Seq::empty()),
        Some(None) => None,
        Some(Some(elements)) => if all_text(elements) {
            Some(texts(elements))
        } else {
            None
        },
    }
}

/// The names that the document lists for `severity`.
///
/// An absent key lists no name. A key that holds something other than a list,
/// or a list with an element that is no string, is an error that names the
/// severity.
pub fn read_names(document: &Document, severity: Severity) -> (names: Result<
    Vec<String>,
    ParseError,
>)
    ensures
        match names {
            Ok(list) => names_at(document.deep_view(), severity.key_text()) == Some(
                list.deep_view(),
            ),
            Err(ParseError::Shape(at)) => at == severity && names_at(
                document.deep_view(),
                severity.key_text(),
            ) is None,
            Err(ParseError::Syntax(_)) => false,
        },
{
    let key = severity.key().to_owned();
    let mut at: usize = 0;
    proof {
        assert(document.deep_view().skip(0) =~= document.deep_view());
    }
    while at < document.len()
        invariant
            at <= document.len(),
            key@ == severity.key_text(),
            value_at(document.deep_view(), key@) == value_at(
                document.deep_view().skip(at as int),
                key@,
            ),
        decreases document.len() - at,
    {
        let ghost rest = document.deep_view().skip(at as int);
        proof {
            assert(rest[0] == document.deep_view()[at as int]);
            assert(rest.drop_first() =~= document.deep_view().skip(at + 1));
        }
        if document[at].0 == key {
            return match &document[at].1 {
                None => Err(ParseError::Shape(severity)),
                Some(elements) => collect_texts(elements, severity),
            };
        }
        at += 1;
    }
    Ok(Vec::new())
}

/// The texts of the elements, or the error of `severity` where one of them is
/// no string.
fn collect_texts(elements: &Vec<Option<String>>, severity: Severity) -> (names: Result<
    Vec<String>,
    ParseError,
>)
    ensures
        match names {
            Ok(list) => all_text(elements.deep_view()) && list.deep_view() == texts(
                elements.deep_view(),
            ),
            Err(ParseError::Shape(at)) => at == severity && !all_text(elements.deep_view()),
            Err(ParseError::Syntax(_)) => false,
        },
{
    let mut list: Vec<String> = Vec::new();
    let mut i: usize = 0;
    while i < elements.len()
        invariant
            i <= elements.len(),
            list@.len() == i,
            forall|k: int| 0 <= k < i ==> (#[trigger] elements.deep_view()[k]) == Some(list@[k]@),
        decreases elements.len() - i,
    {
        match &elements[i] {
            None => {
                assert(elements.deep_view()[i as int] is None);
                return Err(ParseError::Shape(severity));
            },
            Some(text) => {
                assert(elements.deep_view()[i as int] == Some(text@));
                list.push(text.clone());
            },
        }
        i += 1;
    }
    proof {
        assert(list.deep_view() =~= texts(elements.deep_view()));
    }
    Ok(list)
}

} // verus!
