//! The extraction policy for the scalar fields of a document: a key that is
//! absent, or whose value has another shape than the field expects, yields
//! the field's zero value and never an error.

use crate::value::{Object, ObjectView, Timestamp, Value, ValueView};
use vstd::prelude::*;

verus! {

/// The text under `key`: the string stored there, or the empty string where
/// the key is absent or holds anything but a string.
pub open spec fn text_at(doc: ObjectView, key: Seq<char>) -> Seq<char> {
    if doc.contains_key(key) && doc[key] is Str {
        doc[key]->Str_0
    } else {
        Seq::empty()
    }
}

/// The timestamp under `key`: the one stored there, or the zero timestamp
/// where the key is absent or holds anything but a timestamp.
pub open spec fn timestamp_at(doc: ObjectView, key: Seq<char>) -> Timestamp {
    if doc.contains_key(key) && doc[key] is Timestamp {
        doc[key]->Timestamp_0
    } else {
        Timestamp::zero()
    }
}

/// The identifier under `key`: the identifier component of the record
/// reference stored there, or the empty string where the key is absent or
/// holds anything but a record reference.
pub open spec fn identifier_at(doc: ObjectView, key: Seq<char>) -> Seq<char> {
    if doc.contains_key(key) && doc[key] is Thing {
        doc[key]->identifier
    } else {
        Seq::empty()
    }
}

/// Reads a string field.
pub fn text_field(source: &Object, key: &str) -> (text: String)
    ensures
        text@ == text_at(source@, key@),
{
    match source.get(key) {
        Some(Value::Str(text)) => text.clone(),
        _ => String::new(),
    }
}

/// Reads a timestamp field.
pub fn timestamp_field(source: &Object, key: &str) -> (instant: Timestamp)
    ensures
        instant == timestamp_at(source@, key@),
{
    match source.get(key) {
        Some(Value::Timestamp(instant)) => *instant,
        _ => Timestamp::default(),
    }
}

/// Reads an identifier field: the identifier of the record reference, with
/// the collection name left out.
pub fn identifier_field(source: &Object, key: &str) -> (identifier: String)
    ensures
        identifier@ == identifier_at(source@, key@),
{
    match source.get(key) {
        Some(Value::Thing(thing)) => thing.identifier.clone(),
        _ => String::new(),
    }
}

} // verus!
