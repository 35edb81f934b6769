//! Form fields and their label/value pairs.

use crate::decode::{
    identifier_at, identifier_field, text_at, text_field, timestamp_at, timestamp_field,
};
use crate::error::Error;
use crate::models::Pagination;
use crate::value::{lemma_array_view, Object, ObjectView, Timestamp, Value, ValueView};
use vstd::prelude::*;
use vstd::std_specs::convert::TryFromSpecImpl;

verus! {

/// A label/value pair nested inside a field.
#[derive(Debug, Clone, PartialEq, Eq)]
pub struct FieldDataModel {
    pub label: String,
    pub value: String,
}

/// The mathematical content of a [`FieldDataModel`].
pub ghost struct FieldDataView {
    pub label: Seq<char>,
    pub value: Seq<char>,
}

impl View for FieldDataModel {
    type V = FieldDataView;

    open spec fn view(&self) -> FieldDataView {
        FieldDataView { label: self.label@, value: self.value@ }
    }
}

impl Default for FieldDataModel {
    fn default() -> (record: FieldDataModel)
        ensures
            record@ == (FieldDataView { label: Seq::empty(), value: Seq::empty() }),
    {
        FieldDataModel { label: String::new(), value: String::new() }
    }
}

/// The label/value pair that a document decodes to.
pub open spec fn field_data_of(doc: ObjectView) -> FieldDataView {
    FieldDataView { label: text_at(doc, "label"@), value: text_at(doc, "value"@) }
}

impl FieldDataModel {
    /// Decodes a label/value pair from a document.
    pub fn decode(source: &Object) -> (decoded: Result<FieldDataModel, Error>)
        ensures
            decoded matches Ok(record) && record@ == field_data_of(source@),
    {
        let label = text_field(source, "label");
        let value = text_field(source, "value");
        Ok(FieldDataModel { label, value })
    }
}

impl TryFrom<Object> for FieldDataModel {
    type Error = Error;

    fn try_from(val: Object) -> (decoded: Result<FieldDataModel, Error>)
        ensures
            decoded matches Ok(record) && record@ == field_data_of(val@),
    {
        FieldDataModel::decode(&val)
    }
}

/// Decoded records are told apart by their views, which the contract of
/// `try_from` speaks of; no record is singled out here.
impl TryFromSpecImpl<Object> for FieldDataModel {
    open spec fn obeys_try_from_spec() -> bool {
        false
    }

    open spec fn try_from_spec(val: Object) -> Result<FieldDataModel, Error> {
        arbitrary()
    }
}

/// The views of a sequence of label/value pairs, in the same order.
pub open spec fn records_view(records: Seq<FieldDataModel>) -> Seq<FieldDataView> {
    records.map_values(|record: FieldDataModel| record@)
}

/// The document that an array element is decoded from: the element itself
/// where it is an object, the empty document in its place where it is not.
pub open spec fn element_doc(element: ValueView) -> ObjectView {
    if element is Object {
        element->Object_0
    } else {
        Map::empty()
    }
}

/// The label/value pairs that a sequence of array elements decodes to: one
/// for each element, in the same order.
pub open spec fn field_data_of_each(elements: Seq<ValueView>) -> Seq<FieldDataView> {
    elements.map_values(|element: ValueView| field_data_of(element_doc(element)))
}

/// The label/value pairs under `key`: those that the array stored there
/// decodes to, or none where the key is absent or holds anything but an
/// array.
pub open spec fn field_data_at(doc: ObjectView, key: Seq<char>) -> Seq<FieldDataView> {
    if doc.contains_key(key) && doc[key] is Array {
        field_data_of_each(doc[key]->Array_0)
    } else {
        Seq::empty()
    }
}

/// Decodes one label/value pair from each element of an array. The first
/// element that fails to decode ends the decoding with its error.
pub fn decode_field_data(elements: &Vec<Value>) -> (decoded: Result<Vec<FieldDataModel>, Error>)
    ensures
        decoded matches Ok(records) && records_view(records@) == field_data_of_each(
            elements@.map_values(|element: Value| element@),
        ),
{
    let mut records: Vec<FieldDataModel> = Vec::new();
    let empty = Object::new();
    let ghost wanted = field_data_of_each(elements@.map_values(|element: Value| element@));
    for i in 0..elements.len()
        invariant
            empty@ == Map::<Seq<char>, ValueView>::empty(),
            wanted == field_data_of_each(elements@.map_values(|element: Value| element@)),
            records_view(records@) == wanted.take(i as int),
    {
        let source = match &elements[i] {
            Value::Object(object) => object,
            _ => &empty,
        };
        let ghost earlier = records@;
        proof {
            assert(source@ == element_doc(elements@[i as int]@));
        }
        match FieldDataModel::decode(source) {
            Ok(record) => {
                records.push(record);
            },
            Err(error) => {
                return Err(error);
            },
        }
        proof {
            assert(records_view(records@) =~= records_view(earlier).push(records@.last()@));
            assert(wanted.take(i + 1) =~= wanted.take(i as int).push(wanted[i as int]));
        }
    }
    proof {
        assert(wanted.take(elements@.len() as int) =~= wanted);
    }
    Ok(records)
}

/// Reads a field that holds an array of label/value pairs.
pub fn field_data_field(source: &Object, key: &str) -> (decoded: Result<Vec<FieldDataModel>, Error>)
    ensures
        decoded matches Ok(records) && records_view(records@) == field_data_at(source@, key@),
{
    match source.get(key) {
        Some(Value::Array(elements)) => {
            proof {
                lemma_array_view(*elements);
            }
            decode_field_data(elements)
        },
        _ => {
            let records: Vec<FieldDataModel> = Vec::new();
            proof {
                assert(records_view(records@) =~= Seq::<FieldDataView>::empty());
            }
            Ok(records)
        },
    }
}

/// A named, typed form field.
#[derive(Debug, Clone, PartialEq, Eq)]
pub struct FieldModel {
    pub id: String,
    pub name: String,
    pub identifier: String,
    pub field_type: String,
    pub field_data: Option<Vec<FieldDataModel>>,
    pub created_at: Timestamp,
    pub updated_at: Timestamp,
    pub created_by: String,
    pub updated_by: String,
}

/// The mathematical content of a [`FieldModel`].
pub ghost struct FieldView {
    pub id: Seq<char>,
    pub name: Seq<char>,
    pub identifier: Seq<char>,
    pub field_type: Seq<char>,
    pub field_data: Option<Seq<FieldDataView>>,
    pub created_at: Timestamp,
    pub updated_at: Timestamp,
    pub created_by: Seq<char>,
    pub updated_by: Seq<char>,
}

impl View for FieldModel {
    type V = FieldView;

    open spec fn view(&self) -> FieldView {
        FieldView {
            id: self.id@,
            name: self.name@,
            identifier: self.identifier@,
            field_type: self.field_type@,
            field_data: match self.field_data {
                Some(records) => Some(records_view(records@)),
                None => None,
            },
            created_at: self.created_at,
            updated_at: self.updated_at,
            created_by: self.created_by@,
            updated_by: self.updated_by@,
        }
    }
}

impl FieldView {
    /// The field with nothing set: empty texts, zero timestamps and no
    /// sequence of label/value pairs.
    pub open spec fn unset() -> FieldView {
        FieldView {
            id: Seq::empty(),
            name: Seq::empty(),
            identifier: Seq::empty(),
            field_type: Seq::empty(),
            field_data: None,
            created_at: Timestamp::zero(),
            updated_at: Timestamp::zero(),
            created_by: Seq::empty(),
            updated_by: Seq::empty(),
        }
    }
}

impl Default for FieldModel {
    fn default() -> (field: FieldModel)
        ensures
            field@ == FieldView::unset(),
    {
        FieldModel {
            id: String::new(),
            name: String::new(),
            identifier: String::new(),
            field_type: String::new(),
            field_data: None,
            created_at: Timestamp::default(),
            updated_at: Timestamp::default(),
            created_by: String::new(),
            updated_by: String::new(),
        }
    }
}

/// The field that a document decodes to.
pub open spec fn field_of(doc: ObjectView) -> FieldView {
    FieldView {
        id: identifier_at(doc, "id"@),
        name: text_at(doc, "name"@),
        identifier: text_at(doc, "identifier"@),
        field_type: text_at(doc, "field_type"@),
        field_data: Some(field_data_at(doc, "field_data"@)),
        created_at: timestamp_at(doc, "created_at"@),
        updated_at: timestamp_at(doc, "updated_at"@),
        created_by: text_at(doc, "created_by"@),
        updated_by: text_at(doc, "updated_by"@),
    }
}

impl FieldModel {
    /// Decodes a field from a document.
    pub fn decode(source: &Object) -> (decoded: Result<FieldModel, Error>)
        ensures
            decoded matches Ok(field) && field@ == field_of(source@),
    {
        let id = identifier_field(source, "id");
        let name = text_field(source, "name");
        let identifier = text_field(source, "identifier");
        let field_type = text_field(source, "field_type");
        let created_at = timestamp_field(source, "created_at");
        let updated_at = timestamp_field(source, "updated_at");
        let created_by = text_field(source, "created_by");
        let updated_by = text_field(source, "updated_by");
        let field_data = match field_data_field(source, "field_data") {
            Ok(records) => records,
            Err(error) => {
                return Err(error);
            },
        };
        Ok(
            FieldModel {
                id,
                name,
                identifier,
                field_type,
                field_data: Some(field_data),
                created_at,
                updated_at,
                created_by,
                updated_by,
            },
        )
    }
}

impl TryFrom<Object> for FieldModel {
    type Error = Error;

    fn try_from(val: Object) -> (decoded: Result<FieldModel, Error>)
        ensures
            decoded matches Ok(field) && field@ == field_of(val@),
    {
        FieldModel::decode(&val)
    }
}

/// Decoded fields are told apart by their views, which the contract of
/// `try_from` speaks of; no field is singled out here.
impl TryFromSpecImpl<Object> for FieldModel {
    open spec fn obeys_try_from_spec() -> bool {
        false
    }

    open spec fn try_from_spec(val: Object) -> Result<FieldModel, Error> {
        arbitrary()
    }
}

/// What a caller hands over to have a field created.
#[derive(Debug, Clone, PartialEq, Eq)]
pub struct CreatableFieldModel {
    pub name: String,
    pub identifier: String,
    pub field_type: String,
    pub field_data: Option<Vec<CreatableFieldDataModel>>,
    pub logged_in_username: String,
}

/// A label/value pair of a field that is to be created.
#[derive(Debug, Clone, Default, PartialEq, Eq)]
pub struct CreatableFieldDataModel {
    pub label: String,
    pub value: String,
}

/// What a caller hands over to have the field `id` updated.
#[derive(Debug, Clone, PartialEq, Eq)]
pub struct UpdatableFieldModel {
    pub id: String,
    pub name: String,
    pub identifier: String,
    pub field_type: String,
    pub field_data: Option<Vec<UpdatableFieldDataModel>>,
    pub logged_in_username: String,
}

/// A label/value pair of a field that is to be updated.
#[derive(Debug, Clone, PartialEq, Eq)]
pub struct UpdatableFieldDataModel {
    pub label: String,
    pub value: String,
}

/// One page of fields and where it stands within the whole result set.
#[derive(Debug, Clone, Default, PartialEq, Eq)]
pub struct FieldPagination {
    pub data: Vec<FieldModel>,
    pub pagination: Pagination,
}

} // verus!
