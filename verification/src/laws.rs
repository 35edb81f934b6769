//! What holds of decoding and of validation on every input.

use crate::decode::{identifier_at, text_at, timestamp_at};
use crate::error::Error;
use crate::models::field_model::{
    field_data_of, field_of, FieldDataModel, FieldDataView, FieldModel,
};
use crate::store_page_request::page_failures;
use crate::value::{Object, ObjectView, Timestamp, ValueView};
use vstd::prelude::*;

verus! {

/// A scalar field whose key the document lacks decodes to the zero value of
/// its type: the empty string for a text or an identifier, the zero
/// timestamp for a timestamp.
pub proof fn absent_key_decodes_to_zero(doc: ObjectView, key: Seq<char>)
    requires
        !doc.contains_key(key),
    ensures
        text_at(doc, key) == Seq::<char>::empty(),
        identifier_at(doc, key) == Seq::<char>::empty(),
        timestamp_at(doc, key) == Timestamp::zero(),
{
}

/// A scalar field whose key holds a value of another shape than the field
/// expects decodes to the zero value of its type, as if the key were absent.
pub proof fn mismatched_value_decodes_to_zero(doc: ObjectView, key: Seq<char>)
    requires
        doc.contains_key(key),
    ensures
        !(doc[key] is Str) ==> text_at(doc, key) == Seq::<char>::empty(),
        !(doc[key] is Thing) ==> identifier_at(doc, key) == Seq::<char>::empty(),
        !(doc[key] is Timestamp) ==> timestamp_at(doc, key) == Timestamp::zero(),
{
}

/// A scalar field whose key holds a value of the expected shape decodes to
/// what that value holds; of a record reference, to its identifier and not
/// to its collection.
pub proof fn matching_value_decodes_to_itself(doc: ObjectView, key: Seq<char>)
    requires
        doc.contains_key(key),
    ensures
        doc[key] matches ValueView::Str(text) ==> text_at(doc, key) == text,
        doc[key] matches ValueView::Thing { identifier, .. } ==> identifier_at(doc, key)
            == identifier,
        doc[key] matches ValueView::Timestamp(instant) ==> timestamp_at(doc, key) == instant,
{
}

/// Decoding a field succeeds on every document, and each of its scalar
/// fields whose key is absent, or holds a value of another shape than the
/// field expects, comes out as the zero value of its type.
pub proof fn field_decodes_with_zeros(source: Object, decoded: Result<FieldModel, Error>)
    requires
        call_ensures(FieldModel::decode, (&source,), decoded),
    ensures
        decoded is Ok,
        !source@.contains_key("id"@) || !(source@["id"@] is Thing) ==> decoded->Ok_0@.id
            == Seq::<char>::empty(),
        !source@.contains_key("name"@) || !(source@["name"@] is Str) ==> decoded->Ok_0@.name
            == Seq::<char>::empty(),
        !source@.contains_key("identifier"@) || !(source@["identifier"@] is Str)
            ==> decoded->Ok_0@.identifier == Seq::<char>::empty(),
        !source@.contains_key("field_type"@) || !(source@["field_type"@] is Str)
            ==> decoded->Ok_0@.field_type == Seq::<char>::empty(),
        !source@.contains_key("created_at"@) || !(source@["created_at"@] is Timestamp)
            ==> decoded->Ok_0@.created_at == Timestamp::zero(),
        !source@.contains_key("updated_at"@) || !(source@["updated_at"@] is Timestamp)
            ==> decoded->Ok_0@.updated_at == Timestamp::zero(),
        !source@.contains_key("created_by"@) || !(source@["created_by"@] is Str)
            ==> decoded->Ok_0@.created_by == Seq::<char>::empty(),
        !source@.contains_key("updated_by"@) || !(source@["updated_by"@] is Str)
            ==> decoded->Ok_0@.updated_by == Seq::<char>::empty(),
{
}

/// Decoding a label/value pair succeeds on every document, and a label or
/// a value whose key is absent, or holds anything but a string, comes out
/// as the empty string.
pub proof fn field_data_decodes_with_zeros(
    source: Object,
    decoded: Result<FieldDataModel, Error>,
)
    requires
        call_ensures(FieldDataModel::decode, (&source,), decoded),
    ensures
        decoded is Ok,
        !source@.contains_key("label"@) || !(source@["label"@] is Str) ==> decoded->Ok_0@.label
            == Seq::<char>::empty(),
        !source@.contains_key("value"@) || !(source@["value"@] is Str) ==> decoded->Ok_0@.value
            == Seq::<char>::empty(),
{
}

/// The empty document decodes to the label/value pair with nothing set.
pub proof fn empty_document_decodes_to_default()
    ensures
        field_data_of(Map::empty()) == (FieldDataView { label: Seq::empty(), value: Seq::empty() }),
{
}

/// A document without the key of the label/value pairs, or with anything
/// but an array under it, decodes to an empty sequence of pairs: the
/// sequence is there, and it is empty.
pub proof fn absent_field_data_decodes_to_empty(doc: ObjectView)
    requires
        !doc.contains_key("field_data"@) || !(doc["field_data"@] is Array),
    ensures
        field_of(doc).field_data == Some(Seq::<FieldDataView>::empty()),
{
}

/// An array of label/value pairs decodes element by element: as many pairs
/// as the array has elements, in the same order, an element that is an
/// object to what that object decodes to and any other element to the pair
/// with nothing set.
pub proof fn field_data_decodes_in_order(doc: ObjectView, elements: Seq<ValueView>)
    requires
        doc.contains_key("field_data"@),
        doc["field_data"@] == ValueView::Array(elements),
    ensures
        field_of(doc).field_data is Some,
        field_of(doc).field_data->Some_0.len() == elements.len(),
        forall|i: int|
            0 <= i < elements.len() ==> #[trigger] field_of(doc).field_data->Some_0[i] == (
            match elements[i] {
                ValueView::Object(nested) => field_data_of(nested),
                _ => FieldDataView { label: Seq::empty(), value: Seq::empty() },
            }),
{
}

/// Decoding is deterministic: whatever two decodings of one document
/// return, both succeed and the two fields are equal.
pub proof fn decoding_twice_agrees(
    source: Object,
    first: Result<FieldModel, Error>,
    second: Result<FieldModel, Error>,
)
    requires
        call_ensures(FieldModel::decode, (&source,), first),
        call_ensures(FieldModel::decode, (&source,), second),
    ensures
        first is Ok,
        second is Ok,
        first->Ok_0@ == second->Ok_0@,
{
}

/// The same holds of the label/value pairs: two decodings of one document
/// both succeed with equal pairs.
pub proof fn decoding_field_data_twice_agrees(
    source: Object,
    first: Result<FieldDataModel, Error>,
    second: Result<FieldDataModel, Error>,
)
    requires
        call_ensures(FieldDataModel::decode, (&source,), first),
        call_ensures(FieldDataModel::decode, (&source,), second),
    ensures
        first is Ok,
        second is Ok,
        first->Ok_0@ == second->Ok_0@,
{
}

/// Decoding looks at what a document holds and not at how it was built:
/// two documents with the same entries decode to equal fields.
pub proof fn decoding_depends_on_entries_alone(
    one: Object,
    other: Object,
    first: Result<FieldModel, Error>,
    second: Result<FieldModel, Error>,
)
    requires
        one@ == other@,
        call_ensures(FieldModel::decode, (&one,), first),
        call_ensures(FieldModel::decode, (&other,), second),
    ensures
        first is Ok,
        second is Ok,
        first->Ok_0@ == second->Ok_0@,
{
}

/// The order in which two different keys were written into a document does
/// not change what it decodes to.
pub proof fn decoding_ignores_key_order(
    doc: ObjectView,
    key: Seq<char>,
    value: ValueView,
    later_key: Seq<char>,
    later_value: ValueView,
)
    requires
        key != later_key,
    ensures
        field_of(doc.insert(key, value).insert(later_key, later_value)) == field_of(
            doc.insert(later_key, later_value).insert(key, value),
        ),
        field_data_of(doc.insert(key, value).insert(later_key, later_value)) == field_data_of(
            doc.insert(later_key, later_value).insert(key, value),
        ),
{
    assert(doc.insert(key, value).insert(later_key, later_value) =~= doc.insert(
        later_key,
        later_value,
    ).insert(key, value));
}

/// A page request passes, with no failure under any field, exactly where
/// its name and its identifier each have at least one character.
pub proof fn page_passes_iff_name_and_identifier_given(name: Seq<char>, identifier: Seq<char>)
    ensures
        page_failures(name, identifier).dom().is_empty() <==> name.len() >= 1 && identifier.len()
            >= 1,
{
    if name.len() >= 1 && identifier.len() >= 1 {
        assert(page_failures(name, identifier).dom() =~= Set::<Seq<char>>::empty());
    } else if identifier.len() < 1 {
        assert(page_failures(name, identifier).dom().contains("identifier"@));
    } else {
        assert(page_failures(name, identifier).dom().contains("name"@));
    }
}

/// The failures of a page request, field by field: a missing name is
/// reported under `name` and a missing identifier under `identifier`, each
/// as one failure of the `length` rule with its own message, and no other
/// field is reported.
pub proof fn page_failures_by_field(name: Seq<char>, identifier: Seq<char>)
    ensures
        page_failures(name, identifier).contains_key("name"@) <==> name.len() == 0,
        page_failures(name, identifier).contains_key("identifier"@) <==> identifier.len() == 0,
        name.len() == 0 ==> page_failures(name, identifier)["name"@] == seq![
            ("length"@, Some("The name is a required field."@)),
        ],
        identifier.len() == 0 ==> page_failures(name, identifier)["identifier"@] == seq![
            ("length"@, Some("The identifier is a required field."@)),
        ],
        forall|field: Seq<char>| #[trigger]
            page_failures(name, identifier).contains_key(field) ==> field == "name"@ || field
                == "identifier"@,
{
    reveal_strlit("name");
    reveal_strlit("identifier");
    assert("name"@.len() != "identifier"@.len());
}

} // verus!
