//! TOML documents as values of the library, and the three operations on
//! TOML text that the configuration needs: parse, render, replace a section.

use vstd::prelude::*;
use crate::text::str_eq;

verus! {

/// A TOML value.
#[derive(Debug, PartialEq, Eq)]
pub enum TomlValue {
    Text(String),
    Integer(i64),
    /// A float, as TOML writes it.
    Float(String),
    Boolean(bool),
    /// A date or time, as TOML writes it.
    Datetime(String),
    Array(Vec<TomlValue>),
    /// A table: its keys with their values, in order.
    Table(Vec<(String, TomlValue)>),
}

#[verifier::external_type_specification]
#[verifier::external_body]
pub struct ExTomlCrateValue(toml::Value);

/// Why a section could not be put into a document.
#[derive(Debug, PartialEq, Eq)]
pub enum SpliceError {
    /// The document is not valid TOML.
    Document(String),
    /// The section is not valid TOML.
    Section(String),
}

/// The document that `toml::from_str` reads from a text, or the message of
/// its error.
pub uninterp spec fn parsed_toml(content: Seq<char>) -> Result<TomlValue, String>;

/// The text that `toml::to_string` writes for a value, or the message of the
/// error: its own, or that of the parser of a float or date in the value.
pub uninterp spec fn rendered_toml(value: TomlValue) -> Result<Seq<char>, Seq<char>>;

/// The message of the error with which `toml_edit` refuses a text as a
/// document, if it refuses it.
pub uninterp spec fn document_error(text: Seq<char>) -> Option<Seq<char>>;

/// The text of the document `existing` after `toml_edit` has set its entry
/// `section` to the document `body`, everything else kept as it was
/// written.
pub uninterp spec fn spliced_toml(existing: Seq<char>, section: Seq<char>, body: Seq<char>) -> Result<
    Seq<char>,
    SpliceError,
>;

/// Copies a `toml::Value` into a value of the library, variant by variant.
#[verifier::external_body]
fn value_from_toml(v: &toml::Value) -> TomlValue {
    match v {
        toml::Value::String(s) => TomlValue::Text(s.clone()),
        toml::Value::Integer(i) => TomlValue::Integer(*i),
        toml::Value::Float(x) => TomlValue::Float(x.to_string()),
        toml::Value::Boolean(b) => TomlValue::Boolean(*b),
        toml::Value::Datetime(d) => TomlValue::Datetime(d.to_string()),
        toml::Value::Array(a) => TomlValue::Array(a.iter().map(value_from_toml).collect()),
        toml::Value::Table(t) => TomlValue::Table(
            t.iter().map(|(k, v)| (k.clone(), value_from_toml(v))).collect(),
        ),
    }
}

/// `str::parse` as a float, for `toml::Value::Float`: the float that the
/// text writes, or the message of the parser's error.
#[verifier::external_body]
fn float_to_toml(text: &str) -> Result<toml::Value, String> {
    text.parse().map(toml::Value::Float).map_err(|e: std::num::ParseFloatError| e.to_string())
}

/// The parser of `toml::value::Datetime`: the date that the text writes, or
/// the message of the parser's error.
#[verifier::external_body]
fn datetime_to_toml(text: &str) -> Result<toml::Value, String> {
    text.parse().map(toml::Value::Datetime).map_err(
        |e: toml::value::DatetimeParseError| e.to_string(),
    )
}

/// Copies the entries of a table into a `toml::Value::Table`, in order. It
/// fails where the copy of a value fails.
#[verifier::external_body]
fn table_to_toml(entries: &Vec<(String, TomlValue)>) -> Result<toml::Value, String> {
    entries.iter().map(|(k, v)| value_to_toml(v).map(|v| (k.clone(), v))).collect::<
        Result<_, _>,
    >().map(toml::Value::Table)
}

/// Copies a value of the library into a `toml::Value`, variant by variant.
/// The text of a float or of a date is read by its parser; where that
/// fails, the copy fails with the parser's message.
#[verifier::external_body]
fn value_to_toml(v: &TomlValue) -> Result<toml::Value, String> {
    match v {
        TomlValue::Text(s) => Ok(toml::Value::String(s.clone())),
        TomlValue::Integer(i) => Ok(toml::Value::Integer(*i)),
        TomlValue::Float(x) => float_to_toml(x),
        TomlValue::Boolean(b) => Ok(toml::Value::Boolean(*b)),
        TomlValue::Datetime(d) => datetime_to_toml(d),
        TomlValue::Array(a) => a.iter().map(value_to_toml).collect::<Result<_, _>>().map(
            toml::Value::Array,
        ),
        TomlValue::Table(t) => table_to_toml(t),
    }
}

/// `toml::from_str`: the document that the text denotes, or the message of
/// the parse error.
#[verifier::external_body]
pub(crate) fn parse_toml(content: &str) -> (r: Result<TomlValue, String>)
    ensures
        r == parsed_toml(content@),
{
    match toml::from_str::<toml::Value>(content) {
        Ok(v) => Ok(value_from_toml(&v)),
        Err(e) => Err(e.to_string()),
    }
}

/// `toml::to_string`: the TOML text of a value, or the message of the error
/// (a value that is no table cannot stand as a document, nor one that holds
/// a float or a date whose text cannot be read).
#[verifier::external_body]
pub(crate) fn render_toml(value: &TomlValue) -> (r: Result<String, String>)
    ensures
        match r {
            Ok(text) => rendered_toml(*value) == Ok::<Seq<char>, Seq<char>>(text@),
            Err(e) => rendered_toml(*value) == Err::<Seq<char>, Seq<char>>(e@),
        },
{
    toml::to_string(&value_to_toml(value)?).map_err(|e| e.to_string())
}

/// The parser of `toml_edit::DocumentMut`: the message of its error, or
/// nothing where the text is a document.
#[verifier::external_body]
pub(crate) fn check_document(text: &str) -> (r: Option<String>)
    ensures
        match r {
            Some(e) => document_error(text@) == Some(e@),
            None => document_error(text@) is None,
        },
{
    text.parse::<toml_edit::DocumentMut>().err().map(|e| e.to_string())
}

/// Assignment to an entry of a `toml_edit::DocumentMut`: the text of
/// `existing` with its entry `section` set to the document `body`. Both
/// texts are parsed first, `existing` before `body`; the error tells which
/// of them failed, and that of `existing` is the one that `check_document`
/// gives.
#[verifier::external_body]
pub(crate) fn splice_section(existing: &str, section: &str, body: &str) -> (r: Result<
    String,
    SpliceError,
>)
    ensures
        match r {
            Ok(text) => spliced_toml(existing@, section@, body@) == Ok::<Seq<char>, SpliceError>(
                text@,
            ),
            Err(e) => spliced_toml(existing@, section@, body@) == Err::<Seq<char>, SpliceError>(e),
        },
        r matches Err(SpliceError::Document(e)) <==> document_error(existing@) is Some,
        r matches Err(SpliceError::Document(e)) ==> document_error(existing@) == Some(e@),
{
    let mut doc = existing.parse::<toml_edit::DocumentMut>().map_err(
        |e| SpliceError::Document(e.to_string()),
    )?;
    let item = body.parse::<toml_edit::DocumentMut>().map_err(
        |e| SpliceError::Section(e.to_string()),
    )?.into_item();
    doc[section] = item;
    Ok(doc.to_string())
}

/// The value under the first entry of a table with the given key.
pub open spec fn entry_of(table: Seq<(String, TomlValue)>, key: Seq<char>, from: int) -> Option<
    TomlValue,
>
    decreases table.len() - from,
{
    if from < 0 || from >= table.len() {
        None
    } else if table[from].0@ == key {
        Some(table[from].1)
    } else {
        entry_of(table, key, from + 1)
    }
}

impl TomlValue {
    /// The value under `key`, where this value is a table that has the key.
    pub open spec fn field(&self, key: Seq<char>) -> Option<TomlValue> {
        match self {
            TomlValue::Table(entries) => entry_of(entries@, key, 0),
            _ => None,
        }
    }

    /// The value under `key`, where this value is a table that has the key.
    pub fn get(&self, key: &str) -> (r: Option<&TomlValue>)
        ensures
            r is Some <==> self.field(key@) is Some,
            r matches Some(v) ==> self.field(key@) == Some(*v),
    {
        match self {
            TomlValue::Table(entries) => {
                let mut i: usize = 0;
                while i < entries.len()
                    invariant
                        i <= entries.len(),
                        *self == TomlValue::Table(*entries),
                        entry_of(entries@, key@, 0) == entry_of(entries@, key@, i as int),
                    decreases entries.len() - i,
                {
                    if str_eq(entries[i].0.as_str(), key) {
                        return Some(&entries[i].1);
                    }
                    i += 1;
                }
                None
            },
            _ => None,
        }
    }

    /// Takes the value under `key` out of this value, where it is a table
    /// that has the key.
    pub fn into_field(self, key: &str) -> (r: Option<TomlValue>)
        ensures
            r == self.field(key@),
    {
        let ghost wanted = self.field(key@);
        match self {
            TomlValue::Table(entries) => {
                let mut entries = entries;
                let ghost all = entries@;
                let mut i: usize = 0;
                while i < entries.len()
                    invariant
                        i <= entries.len(),
                        entries@ == all,
                        wanted == self.field(key@),
                        wanted == entry_of(all, key@, i as int),
                    decreases entries.len() - i,
                {
                    if str_eq(entries[i].0.as_str(), key) {
                        let entry = entries.remove(i);
                        return Some(entry.1);
                    }
                    i += 1;
                }
                None
            },
            _ => None,
        }
    }
}

} // verus!
