//! Reading a record out of a JSON value, field by field.

use vstd::prelude::*;

use crate::json::{find_member, Json, JsonValue};

verus! {

/// Why a JSON value is not the record that was asked for.
#[derive(Clone, Debug, PartialEq, Eq)]
pub enum DecodeError {
    /// The value, or one of its fields, is of another JSON type than it should be.
    InvalidType,
    /// An array of this many items, which is not the number of the fields.
    InvalidLength(usize),
    /// An object without this field.
    MissingField(&'static str),
}

/// One field of a record: its name in JSON, and whether it holds a list of strings or a
/// single one.
pub struct Field {
    pub name: &'static str,
    pub list: bool,
}

/// What a field holds.
pub enum FieldData {
    Text(Seq<char>),
    TextList(Seq<Seq<char>>),
}

/// What was read for a field.
pub enum FieldValue {
    Text(String),
    TextList(Vec<String>),
}

impl View for FieldValue {
    type V = FieldData;

    open spec fn view(&self) -> FieldData {
        match *self {
            FieldValue::Text(s) => FieldData::Text(s@),
            FieldValue::TextList(list) => FieldData::TextList(crate::text::texts(list@)),
        }
    }
}

/// What `v` holds for a field, where it is of the field's type.
pub open spec fn field_data(v: Json, list: bool) -> Option<FieldData> {
    match v {
        Json::String(s) => if list {
            None
        } else {
            Some(FieldData::Text(s))
        },
        Json::Array(items) => if list && all_strings(items) {
            Some(FieldData::TextList(Seq::new(items.len(), |i: int| items[i]->String_0)))
        } else {
            None
        },
        _ => None,
    }
}

/// Whether every item is a string.
pub open spec fn all_strings(items: Seq<Json>) -> bool {
    forall|i: int| 0 <= i < items.len() ==> #[trigger] items[i] is String
}

/// Whether `m` has the field, of another type than it should be.
pub open spec fn mistyped(m: Map<Seq<char>, Json>, field: Field) -> bool {
    m.contains_key(field.name@) && field_data(m[field.name@], field.list) is None
}

/// The first of `fields`, from the one numbered `from` on, that `m` does not have.
pub open spec fn first_missing(m: Map<Seq<char>, Json>, fields: Seq<Field>, from: int) -> Option<
    int,
>
    decreases fields.len() - from,
{
    if from < 0 || from >= fields.len() {
        None
    } else if !m.contains_key(fields[from].name@) {
        Some(from)
    } else {
        first_missing(m, fields, from + 1)
    }
}

/// The record with the given fields that an object holds. A field of a wrong type counts
/// before one that is missing; fields of other names do not count.
pub open spec fn object_record(m: Map<Seq<char>, Json>, fields: Seq<Field>) -> Result<
    Seq<FieldData>,
    DecodeError,
> {
    if exists|i: int| 0 <= i < fields.len() && mistyped(m, #[trigger] fields[i]) {
        Err(DecodeError::InvalidType)
    } else {
        match first_missing(m, fields, 0) {
            Some(i) => Err(DecodeError::MissingField(fields[i].name)),
            None => Ok(
                Seq::new(
                    fields.len(),
                    |i: int| field_data(m[fields[i].name@], fields[i].list)->Some_0,
                ),
            ),
        }
    }
}

/// The record with the given fields that an array holds: the fields in their order.
pub open spec fn array_record(items: Seq<Json>, fields: Seq<Field>) -> Result<
    Seq<FieldData>,
    DecodeError,
> {
    if exists|i: int|
        0 <= i < fields.len() && i < items.len() && field_data(
            #[trigger] items[i],
            fields[i].list,
        ) is None {
        Err(DecodeError::InvalidType)
    } else if items.len() != fields.len() {
        Err(DecodeError::InvalidLength(items.len() as usize))
    } else {
        Ok(Seq::new(fields.len(), |i: int| field_data(items[i], fields[i].list)->Some_0))
    }
}

/// The record with the given fields that `v` holds.
pub open spec fn record(v: Json, fields: Seq<Field>) -> Result<Seq<FieldData>, DecodeError> {
    match v {
        Json::Object(m) => object_record(m, fields),
        Json::Array(items) => array_record(items, fields),
        _ => Err(DecodeError::InvalidType),
    }
}

/// Where no field is missing, every field is there.
proof fn none_missing(m: Map<Seq<char>, Json>, fields: Seq<Field>, from: int)
    requires
        0 <= from <= fields.len(),
        first_missing(m, fields, from) is None,
    ensures
        forall|i: int| from <= i < fields.len() ==> m.contains_key((#[trigger] fields[i]).name@),
    decreases fields.len() - from,
{
    if from < fields.len() {
        none_missing(m, fields, from + 1);
    }
}

/// A record has a value for each field, of the field's type.
pub proof fn record_shape(v: Json, fields: Seq<Field>)
    requires
        record(v, fields) is Ok,
    ensures
        record(v, fields)->Ok_0.len() == fields.len(),
        forall|i: int|
            0 <= i < fields.len() ==> (#[trigger] record(v, fields)->Ok_0[i] is TextList)
                == fields[i].list,
{
    match v {
        Json::Object(m) => {
            none_missing(m, fields, 0);
            assert forall|i: int| 0 <= i < fields.len() implies (#[trigger] record(
                v,
                fields,
            )->Ok_0[i] is TextList) == fields[i].list by {
                assert(!mistyped(m, fields[i]));
            }
        },
        Json::Array(items) => {
            assert forall|i: int| 0 <= i < fields.len() implies (#[trigger] record(
                v,
                fields,
            )->Ok_0[i] is TextList) == fields[i].list by {
                assert(field_data(items[i], fields[i].list) is Some);
            }
        },
        _ => {},
    }
}

/// What each of `values` holds.
pub open spec fn data(values: Seq<FieldValue>) -> Seq<FieldData> {
    values.map_values(|v: FieldValue| v@)
}

fn read_field(v: &JsonValue, list: bool) -> (r: Option<FieldValue>)
    ensures
        match r {
            Some(value) => field_data(v@, list) == Some(value@),
            None => field_data(v@, list) is None,
        },
{
    if !list {
        return match v.to_str() {
            Some(s) => Some(FieldValue::Text(s)),
            None => None,
        };
    }
    match v {
        JsonValue::Array(items) => {
            let mut read: Vec<String> = Vec::new();
            let mut i: usize = 0;
            while i < items.len()
                invariant
                    i <= items.len(),
                    v@ == Json::Array(crate::json::items_view(items@)),
                    read@.len() == i,
                    forall|k: int|
                        0 <= k < i ==> Json::String(read@[k]@) == #[trigger] items@[k]@,
                decreases items.len() - i,
            {
                match items[i].to_str() {
                    Some(s) => read.push(s),
                    None => {
                        assert(!(v@->Array_0[i as int] is String));
                        return None;
                    },
                }
                i += 1;
            }
            proof {
                let all = v@->Array_0;
                assert forall|k: int| 0 <= k < all.len() implies #[trigger] all[k] is String by {
                    assert(all[k] == items@[k]@);
                }
                assert(crate::text::texts(read@) =~= Seq::new(all.len(), |i: int| all[i]->String_0)) by {
                    assert forall|k: int| 0 <= k < all.len() implies crate::text::texts(read@)[k]
                        == all[k]->String_0 by {
                        assert(all[k] == items@[k]@);
                    }
                }
            }
            Some(FieldValue::TextList(read))
        },
        _ => None,
    }
}

fn read_object(members: &Vec<(String, JsonValue)>, fields: &Vec<Field>) -> (r: Result<
    Vec<FieldValue>,
    DecodeError,
>)
    ensures
        match object_record(crate::json::members_view(members@), fields@) {
            Ok(d) => r is Ok && data(r->Ok_0@) == d,
            Err(e) => r == Err::<Vec<FieldValue>, DecodeError>(e),
        },
{
    let ghost m = crate::json::members_view(members@);
    let mut values: Vec<FieldValue> = Vec::new();
    let mut missing: Option<usize> = None;
    let mut i: usize = 0;
    while i < fields.len()
        invariant
            i <= fields@.len(),
            m == crate::json::members_view(members@),
            forall|k: int| 0 <= k < i ==> !mistyped(m, #[trigger] fields@[k]),
            match missing {
                Some(k) => k < i && first_missing(m, fields@, 0) == Some(k as int),
                None => {
                    &&& values@.len() == i
                    &&& first_missing(m, fields@, 0) == first_missing(m, fields@, i as int)
                    &&& forall|k: int|
                        0 <= k < i ==> Some((#[trigger] values@[k])@) == field_data(
                            m[fields@[k].name@],
                            fields@[k].list,
                        )
                },
            },
        decreases fields.len() - i,
    {
        let name = fields[i].name.to_string();
        match find_member(members, &name) {
            Some(k) => match read_field(&members[k].1, fields[i].list) {
                Some(value) => {
                    if missing.is_none() {
                        values.push(value);
                    }
                },
                None => {
                    assert(mistyped(m, fields@[i as int]));
                    return Err(DecodeError::InvalidType);
                },
            },
            None => {
                if missing.is_none() {
                    missing = Some(i);
                }
            },
        }
        i += 1;
    }
    match missing {
        Some(k) => Err(DecodeError::MissingField(fields[k].name)),
        None => {
            assert(data(values@) =~= object_record(m, fields@)->Ok_0);
            Ok(values)
        },
    }
}

fn read_array(items: &Vec<JsonValue>, fields: &Vec<Field>) -> (r: Result<
    Vec<FieldValue>,
    DecodeError,
>)
    ensures
        match array_record(crate::json::items_view(items@), fields@) {
            Ok(d) => r is Ok && data(r->Ok_0@) == d,
            Err(e) => r == Err::<Vec<FieldValue>, DecodeError>(e),
        },
{
    let ghost all = crate::json::items_view(items@);
    let mut values: Vec<FieldValue> = Vec::new();
    let mut i: usize = 0;
    while i < fields.len() && i < items.len()
        invariant
            i <= fields@.len(),
            i <= items@.len(),
            all == crate::json::items_view(items@),
            values@.len() == i,
            forall|k: int|
                0 <= k < i ==> Some((#[trigger] values@[k])@) == field_data(all[k], fields@[k].list),
        decreases fields.len() - i,
    {
        match read_field(&items[i], fields[i].list) {
            Some(value) => values.push(value),
            None => {
                assert(field_data(all[i as int], fields@[i as int].list) is None);
                return Err(DecodeError::InvalidType);
            },
        }
        i += 1;
    }
    proof {
        assert forall|k: int| 0 <= k < fields@.len() && k < all.len() implies !(field_data(
            #[trigger] all[k],
            fields@[k].list,
        ) is None) by {
            assert(Some(values@[k]@) == field_data(all[k], fields@[k].list));
        }
    }
    if items.len() != fields.len() {
        return Err(DecodeError::InvalidLength(items.len()));
    }
    assert(data(values@) =~= array_record(all, fields@)->Ok_0);
    Ok(values)
}

/// Reads the record with the given fields out of `v`.
pub(crate) fn read_record(v: &JsonValue, fields: &Vec<Field>) -> (r: Result<Vec<FieldValue>, DecodeError>)
    ensures
        match record(v@, fields@) {
            Ok(d) => r is Ok && data(r->Ok_0@) == d,
            Err(e) => r == Err::<Vec<FieldValue>, DecodeError>(e),
        },
{
    match v {
        JsonValue::Object(members) => read_object(members, fields),
        JsonValue::Array(items) => read_array(items, fields),
        _ => Err(DecodeError::InvalidType),
    }
}

/// Takes the last field off, which is a single string.
pub(crate) fn pop_text(values: &mut Vec<FieldValue>) -> (r: String)
    requires
        old(values)@.len() > 0,
        data(old(values)@).last() is Text,
    ensures
        data(old(values)@).last() == FieldData::Text(r@),
        data(final(values)@) == data(old(values)@).drop_last(),
{
    match values.pop() {
        Some(FieldValue::Text(s)) => {
            assert(data(values@) =~= data(old(values)@).drop_last());
            s
        },
        _ => {
            assert(false);
            String::new()
        },
    }
}

/// Takes the last field off, which is a list of strings.
pub(crate) fn pop_list(values: &mut Vec<FieldValue>) -> (r: Vec<String>)
    requires
        old(values)@.len() > 0,
        data(old(values)@).last() is TextList,
    ensures
        data(old(values)@).last() == FieldData::TextList(crate::text::texts(r@)),
        data(final(values)@) == data(old(values)@).drop_last(),
{
    match values.pop() {
        Some(FieldValue::TextList(list)) => {
            assert(data(values@) =~= data(old(values)@).drop_last());
            list
        },
        _ => {
            assert(false);
            Vec::new()
        },
    }
}

} // verus!
