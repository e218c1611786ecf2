//! What a record that was read has to do with the JSON it was read from.

use vstd::prelude::*;

use crate::decode::{DecodeError, Field, FieldData};
use crate::json::{Json, JsonValue};
use crate::records::{GlobalStat, Status, Version};
use crate::response::{unwrap_result_for_string, CallError, ResponseObject};

verus! {

/// Whether a value is of the JSON type of a field: a string, or an array of strings alone.
pub open spec fn fits(v: Json, list: bool) -> bool {
    if list {
        v is Array && forall|k: int|
            0 <= k < v->Array_0.len() ==> #[trigger] v->Array_0[k] is String
    } else {
        v is String
    }
}

/// Whether `v` is what `d` says: the same string, or the same strings one by one.
pub open spec fn says(v: Json, d: FieldData) -> bool {
    match d {
        FieldData::Text(s) => v == Json::String(s),
        FieldData::TextList(list) => {
            &&& v is Array
            &&& v->Array_0.len() == list.len()
            &&& forall|k: int|
                0 <= k < list.len() ==> #[trigger] v->Array_0[k] == Json::String(list[k])
        },
    }
}

/// Whether `r` is what can be read out of an object for the fields: where all are there and of
/// their types, what their members say; where one that is there is not of its type, that the type
/// is wrong; and else that the first that is not there is missing.
pub open spec fn read_from_object(
    m: Map<Seq<char>, Json>,
    fields: Seq<Field>,
    r: Result<Seq<FieldData>, DecodeError>,
) -> bool {
    match r {
        Ok(d) => {
            &&& d.len() == fields.len()
            &&& forall|i: int|
                0 <= i < fields.len() ==> {
                    &&& m.contains_key((#[trigger] fields[i]).name@)
                    &&& fits(m[fields[i].name@], fields[i].list)
                    &&& says(m[fields[i].name@], d[i])
                }
        },
        Err(DecodeError::InvalidType) => exists|i: int|
            0 <= i < fields.len() && m.contains_key((#[trigger] fields[i]).name@) && !fits(
                m[fields[i].name@],
                fields[i].list,
            ),
        Err(DecodeError::MissingField(name)) => {
            &&& forall|i: int|
                0 <= i < fields.len() && m.contains_key((#[trigger] fields[i]).name@) ==> fits(
                    m[fields[i].name@],
                    fields[i].list,
                )
            &&& exists|i: int|
                0 <= i < fields.len() && (#[trigger] fields[i]).name == name && !m.contains_key(
                    name@,
                ) && forall|k: int| 0 <= k < i ==> m.contains_key((#[trigger] fields[k]).name@)
        },
        Err(DecodeError::InvalidLength(_)) => false,
    }
}

/// Whether `r` is what can be read out of an array for the fields: where there is an item of its
/// type for each and no more, what the items say; where an item in the place of a field is not of
/// its type, that the type is wrong; and else that there are so many items.
pub open spec fn read_from_array(
    items: Seq<Json>,
    fields: Seq<Field>,
    r: Result<Seq<FieldData>, DecodeError>,
) -> bool {
    match r {
        Ok(d) => {
            &&& d.len() == fields.len()
            &&& items.len() == fields.len()
            &&& forall|i: int|
                0 <= i < items.len() ==> fits(#[trigger] items[i], fields[i].list) && says(
                    items[i],
                    d[i],
                )
        },
        Err(DecodeError::InvalidType) => exists|i: int|
            0 <= i < items.len() && i < fields.len() && !fits(#[trigger] items[i], fields[i].list),
        Err(DecodeError::InvalidLength(n)) => {
            &&& items.len() != fields.len()
            &&& items.len() <= usize::MAX ==> n == items.len()
            &&& forall|i: int|
                0 <= i < items.len() && i < fields.len() ==> fits(
                    #[trigger] items[i],
                    fields[i].list,
                )
        },
        Err(DecodeError::MissingField(_)) => false,
    }
}

/// Whether `r` is what can be read out of `v` for the fields.
pub open spec fn read_from(
    v: Json,
    fields: Seq<Field>,
    r: Result<Seq<FieldData>, DecodeError>,
) -> bool {
    match v {
        Json::Object(m) => read_from_object(m, fields, r),
        Json::Array(items) => read_from_array(items, fields, r),
        _ => r == Err::<Seq<FieldData>, DecodeError>(DecodeError::InvalidType),
    }
}

proof fn none_missing(m: Map<Seq<char>, Json>, fields: Seq<Field>, from: int)
    requires
        0 <= from <= fields.len(),
    ensures
        match crate::decode::first_missing(m, fields, from) {
            Some(i) => {
                &&& from <= i < fields.len()
                &&& !m.contains_key(fields[i].name@)
                &&& forall|k: int| from <= k < i ==> m.contains_key((#[trigger] fields[k]).name@)
            },
            None => forall|k: int|
                from <= k < fields.len() ==> m.contains_key((#[trigger] fields[k]).name@),
        },
    decreases fields.len() - from,
{
    if from < fields.len() {
        none_missing(m, fields, from + 1);
    }
}

proof fn datum_says(v: Json, list: bool)
    ensures
        fits(v, list) == (crate::decode::field_data(v, list) is Some),
        fits(v, list) ==> says(v, crate::decode::field_data(v, list)->Some_0),
        fits(v, list) ==> (crate::decode::field_data(v, list)->Some_0 is TextList) == list,
{
}

/// A record is read out of an object exactly where every field is there and of its type, and then
/// each field holds what the member of its name says.
pub proof fn record_of_an_object(m: Map<Seq<char>, Json>, fields: Seq<Field>)
    ensures
        ({
            let r = crate::decode::record(Json::Object(m), fields);
            &&& r is Ok <==> forall|i: int|
                0 <= i < fields.len() ==> m.contains_key((#[trigger] fields[i]).name@) && fits(
                    m[fields[i].name@],
                    fields[i].list,
                )
            &&& r is Ok ==> r->Ok_0.len() == fields.len()
            &&& r is Ok ==> forall|i: int|
                0 <= i < fields.len() ==> says(m[(#[trigger] fields[i]).name@], r->Ok_0[i])
        }),
{
    none_missing(m, fields, 0);
    assert forall|i: int| 0 <= i < fields.len() implies fits(
        m[(#[trigger] fields[i]).name@],
        fields[i].list,
    ) == (crate::decode::field_data(m[fields[i].name@], fields[i].list) is Some) by {
        datum_says(m[fields[i].name@], fields[i].list);
    }
    let r = crate::decode::record(Json::Object(m), fields);
    if r is Ok {
        assert forall|i: int| 0 <= i < fields.len() implies m.contains_key(
            (#[trigger] fields[i]).name@,
        ) && fits(m[fields[i].name@], fields[i].list) && says(m[fields[i].name@], r->Ok_0[i]) by {
            assert(!crate::decode::mistyped(m, fields[i]));
            datum_says(m[fields[i].name@], fields[i].list);
        }
    } else {
        if forall|i: int|
            0 <= i < fields.len() ==> m.contains_key((#[trigger] fields[i]).name@) && fits(
                m[fields[i].name@],
                fields[i].list,
            ) {
            assert forall|i: int| 0 <= i < fields.len() implies !crate::decode::mistyped(
                m,
                #[trigger] fields[i],
            ) by {}
            assert(false);
        }
    }
}

/// Why no record is read out of an object: some field that is there is not of its type; or else
/// the first field that is not there is missing.
pub proof fn error_of_an_object(m: Map<Seq<char>, Json>, fields: Seq<Field>)
    requires
        crate::decode::record(Json::Object(m), fields) is Err,
    ensures
        match crate::decode::record(Json::Object(m), fields)->Err_0 {
            DecodeError::InvalidType => exists|i: int|
                0 <= i < fields.len() && m.contains_key((#[trigger] fields[i]).name@) && !fits(
                    m[fields[i].name@],
                    fields[i].list,
                ),
            DecodeError::MissingField(name) => {
                &&& forall|i: int|
                    0 <= i < fields.len() && m.contains_key((#[trigger] fields[i]).name@) ==> fits(
                        m[fields[i].name@],
                        fields[i].list,
                    )
                &&& exists|i: int|
                    0 <= i < fields.len() && (#[trigger] fields[i]).name == name
                        && !m.contains_key(name@) && forall|k: int|
                        0 <= k < i ==> m.contains_key((#[trigger] fields[k]).name@)
            },
            DecodeError::InvalidLength(_) => false,
        },
{
    none_missing(m, fields, 0);
    let e = crate::decode::record(Json::Object(m), fields)->Err_0;
    if exists|i: int| 0 <= i < fields.len() && crate::decode::mistyped(m, #[trigger] fields[i]) {
        let i = choose|i: int|
            0 <= i < fields.len() && crate::decode::mistyped(m, #[trigger] fields[i]);
        datum_says(m[fields[i].name@], fields[i].list);
        assert(m.contains_key(fields[i].name@));
    } else {
        assert forall|i: int|
            0 <= i < fields.len() && m.contains_key(
                (#[trigger] fields[i]).name@,
            ) implies fits(m[fields[i].name@], fields[i].list) by {
            assert(!crate::decode::mistyped(m, fields[i]));
            datum_says(m[fields[i].name@], fields[i].list);
        }
        let i = crate::decode::first_missing(m, fields, 0)->Some_0;
        assert(fields[i].name == e->MissingField_0);
    }
}

/// A record is read out of an array exactly where the array has an item of its type for each field
/// and no more, and then each field holds what the item in its place says.
pub proof fn record_of_an_array(items: Seq<Json>, fields: Seq<Field>)
    ensures
        ({
            let r = crate::decode::record(Json::Array(items), fields);
            &&& r is Ok <==> items.len() == fields.len() && forall|i: int|
                0 <= i < items.len() ==> fits(#[trigger] items[i], fields[i].list)
            &&& r is Ok ==> r->Ok_0.len() == fields.len()
            &&& r is Ok ==> forall|i: int|
                0 <= i < fields.len() ==> says(#[trigger] items[i], r->Ok_0[i])
            &&& r matches Err(e) ==> match e {
                DecodeError::InvalidType => exists|i: int|
                    0 <= i < items.len() && i < fields.len() && !fits(
                        #[trigger] items[i],
                        fields[i].list,
                    ),
                DecodeError::InvalidLength(n) => {
                    &&& items.len() != fields.len()
                    &&& items.len() <= usize::MAX ==> n == items.len()
                    &&& forall|i: int|
                        0 <= i < items.len() && i < fields.len() ==> fits(
                            #[trigger] items[i],
                            fields[i].list,
                        )
                },
                DecodeError::MissingField(_) => false,
            }
        }),
{
    let r = crate::decode::record(Json::Array(items), fields);
    assert forall|i: int| 0 <= i < items.len() && i < fields.len() implies fits(
        #[trigger] items[i],
        fields[i].list,
    ) == (crate::decode::field_data(items[i], fields[i].list) is Some) by {
        datum_says(items[i], fields[i].list);
    }
    if r is Ok {
        assert forall|i: int| 0 <= i < fields.len() implies says(
            #[trigger] items[i],
            r->Ok_0[i],
        ) by {
            assert(crate::decode::field_data(items[i], fields[i].list) is Some);
            datum_says(items[i], fields[i].list);
        }
    } else if exists|i: int|
        0 <= i < fields.len() && i < items.len() && crate::decode::field_data(
            #[trigger] items[i],
            fields[i].list,
        ) is None {
        let i = choose|i: int|
            0 <= i < fields.len() && i < items.len() && crate::decode::field_data(
                #[trigger] items[i],
                fields[i].list,
            ) is None;
        assert(!fits(items[i], fields[i].list));
    }
}

/// What is neither an object nor an array is no record.
pub proof fn no_record_elsewhere(v: Json, fields: Seq<Field>)
    requires
        !(v is Object),
        !(v is Array),
    ensures
        crate::decode::record(v, fields) == Err::<Seq<FieldData>, DecodeError>(
            DecodeError::InvalidType,
        ),
{
}

/// A status is read out of an object exactly where the members of its nine names are strings, and
/// then each of its fields is, character for character, the member of its name.
pub proof fn status_of_an_object(m: Map<Seq<char>, Json>, status: Status)
    ensures
        crate::decode::record(Json::Object(m), crate::records::status_fields()) is Ok <==> {
            &&& m.contains_key("gid"@) && m["gid"@] is String
            &&& m.contains_key("status"@) && m["status"@] is String
            &&& m.contains_key("totalLength"@) && m["totalLength"@] is String
            &&& m.contains_key("completedLength"@) && m["completedLength"@] is String
            &&& m.contains_key("uploadLength"@) && m["uploadLength"@] is String
            &&& m.contains_key("bitfield"@) && m["bitfield"@] is String
            &&& m.contains_key("downloadSpeed"@) && m["downloadSpeed"@] is String
            &&& m.contains_key("uploadSpeed"@) && m["uploadSpeed"@] is String
            &&& m.contains_key("infoHash"@) && m["infoHash"@] is String
        },
        crate::decode::record(Json::Object(m), crate::records::status_fields()) == Ok::<
            Seq<FieldData>,
            DecodeError,
        >(status.data()) ==> {
            &&& m["gid"@] == Json::String(status.gid@)
            &&& m["status"@] == Json::String(status.status@)
            &&& m["totalLength"@] == Json::String(status.total_length@)
            &&& m["completedLength"@] == Json::String(status.completed_length@)
            &&& m["uploadLength"@] == Json::String(status.upload_length@)
            &&& m["bitfield"@] == Json::String(status.bitfield@)
            &&& m["downloadSpeed"@] == Json::String(status.download_speed@)
            &&& m["uploadSpeed"@] == Json::String(status.upload_speed@)
            &&& m["infoHash"@] == Json::String(status.info_hash@)
        },
{
    let fields = crate::records::status_fields();
    record_of_an_object(m, fields);
    assert(fields[0].name == "gid" && fields[1].name == "status" && fields[2].name == "totalLength"
        && fields[3].name == "completedLength" && fields[4].name == "uploadLength"
        && fields[5].name == "bitfield" && fields[6].name == "downloadSpeed" && fields[7].name
        == "uploadSpeed" && fields[8].name == "infoHash");
}

/// The overall statistics are read out of an object exactly where the members of their six names
/// are strings, and then each field is, character for character, the member of its name.
pub proof fn global_stat_of_an_object(m: Map<Seq<char>, Json>, stat: GlobalStat)
    ensures
        crate::decode::record(Json::Object(m), crate::records::global_stat_fields()) is Ok <==> {
            &&& m.contains_key("downloadSpeed"@) && m["downloadSpeed"@] is String
            &&& m.contains_key("uploadSpeed"@) && m["uploadSpeed"@] is String
            &&& m.contains_key("numActive"@) && m["numActive"@] is String
            &&& m.contains_key("numWaiting"@) && m["numWaiting"@] is String
            &&& m.contains_key("numStopped"@) && m["numStopped"@] is String
            &&& m.contains_key("numStoppedTotal"@) && m["numStoppedTotal"@] is String
        },
        crate::decode::record(Json::Object(m), crate::records::global_stat_fields()) == Ok::<
            Seq<FieldData>,
            DecodeError,
        >(stat.data()) ==> {
            &&& m["downloadSpeed"@] == Json::String(stat.download_speed@)
            &&& m["uploadSpeed"@] == Json::String(stat.upload_speed@)
            &&& m["numActive"@] == Json::String(stat.num_active@)
            &&& m["numWaiting"@] == Json::String(stat.num_waiting@)
            &&& m["numStopped"@] == Json::String(stat.num_stopped@)
            &&& m["numStoppedTotal"@] == Json::String(stat.num_stopped_total@)
        },
{
    let fields = crate::records::global_stat_fields();
    record_of_an_object(m, fields);
    assert(fields[0].name == "downloadSpeed" && fields[1].name == "uploadSpeed" && fields[2].name
        == "numActive" && fields[3].name == "numWaiting" && fields[4].name == "numStopped"
        && fields[5].name == "numStoppedTotal");
}

/// A version is read out of an object exactly where the member `version` is a string and the
/// member `enabledFeatures` an array of strings; then the version is that string, and the features
/// are those strings, as many and in the same order.
pub proof fn version_of_an_object(m: Map<Seq<char>, Json>, version: Version)
    ensures
        crate::decode::record(Json::Object(m), crate::records::version_fields()) is Ok <==> {
            &&& m.contains_key("version"@) && m["version"@] is String
            &&& m.contains_key("enabledFeatures"@) && m["enabledFeatures"@] is Array
            &&& forall|i: int|
                0 <= i < m["enabledFeatures"@]->Array_0.len()
                    ==> #[trigger] m["enabledFeatures"@]->Array_0[i] is String
        },
        crate::decode::record(Json::Object(m), crate::records::version_fields()) == Ok::<
            Seq<FieldData>,
            DecodeError,
        >(version.data()) ==> {
            &&& m["version"@] == Json::String(version.version@)
            &&& m["enabledFeatures"@]->Array_0.len() == version.enabled_features@.len()
            &&& forall|i: int|
                0 <= i < version.enabled_features@.len()
                    ==> #[trigger] m["enabledFeatures"@]->Array_0[i] == Json::String(
                    version.enabled_features@[i]@,
                )
        },
{
    let fields = crate::records::version_fields();
    record_of_an_object(m, fields);
    assert(fields[0].name == "version" && fields[1].name == "enabledFeatures");
    assert(!fields[0].list && fields[1].list);
    let r = crate::decode::record(Json::Object(m), fields);
    if r is Ok {
        assert(fits(m["version"@], false));
        assert(fits(m["enabledFeatures"@], true));
        if r == Ok::<Seq<FieldData>, DecodeError>(version.data()) {
            assert(says(m["version"@], r->Ok_0[0]));
            assert(says(m["enabledFeatures"@], r->Ok_0[1]));
        }
    } else {
        assert(!(fits(m["version"@], false) && m.contains_key("version"@) && fits(
            m["enabledFeatures"@],
            true,
        ) && m.contains_key("enabledFeatures"@)));
    }
}

/// A status that is read out of an array has the nine strings of the array for its fields, in the
/// order in which aria2 documents them.
pub proof fn status_of_an_array(items: Seq<Json>, status: Status)
    requires
        crate::decode::record(Json::Array(items), crate::records::status_fields()) == Ok::<
            Seq<FieldData>,
            DecodeError,
        >(status.data()),
    ensures
        items == seq![
            Json::String(status.gid@),
            Json::String(status.status@),
            Json::String(status.total_length@),
            Json::String(status.completed_length@),
            Json::String(status.upload_length@),
            Json::String(status.bitfield@),
            Json::String(status.download_speed@),
            Json::String(status.upload_speed@),
            Json::String(status.info_hash@),
        ],
{
    record_of_an_array(items, crate::records::status_fields());
    let d = status.data();
    assert(says(items[0], d[0]) && says(items[1], d[1]) && says(items[2], d[2]) && says(
        items[3],
        d[3],
    ) && says(items[4], d[4]) && says(items[5], d[5]) && says(items[6], d[6]) && says(
        items[7],
        d[7],
    ) && says(items[8], d[8]));
}

/// Statistics that are read out of an array have the six strings of the array for their fields.
pub proof fn global_stat_of_an_array(items: Seq<Json>, stat: GlobalStat)
    requires
        crate::decode::record(Json::Array(items), crate::records::global_stat_fields()) == Ok::<
            Seq<FieldData>,
            DecodeError,
        >(stat.data()),
    ensures
        items == seq![
            Json::String(stat.download_speed@),
            Json::String(stat.upload_speed@),
            Json::String(stat.num_active@),
            Json::String(stat.num_waiting@),
            Json::String(stat.num_stopped@),
            Json::String(stat.num_stopped_total@),
        ],
{
    record_of_an_array(items, crate::records::global_stat_fields());
    let d = stat.data();
    assert(says(items[0], d[0]) && says(items[1], d[1]) && says(items[2], d[2]) && says(
        items[3],
        d[3],
    ) && says(items[4], d[4]) && says(items[5], d[5]));
}

/// A version that is read out of an array has its first item for the version and the strings of
/// its second for the features.
pub proof fn version_of_an_array(items: Seq<Json>, version: Version)
    requires
        crate::decode::record(Json::Array(items), crate::records::version_fields()) == Ok::<
            Seq<FieldData>,
            DecodeError,
        >(version.data()),
    ensures
        items.len() == 2,
        items[0] == Json::String(version.version@),
        items[1] is Array,
        items[1]->Array_0.len() == version.enabled_features@.len(),
        forall|i: int|
            0 <= i < version.enabled_features@.len() ==> #[trigger] items[1]->Array_0[i]
                == Json::String(version.enabled_features@[i]@),
{
    record_of_an_array(items, crate::records::version_fields());
    let d = version.data();
    assert(says(items[0], d[0]) && says(items[1], d[1]));
}

/// What is read out of a value for some fields is all that can be read, and nothing else.
pub proof fn record_is_read_from_its_value(v: Json, fields: Seq<Field>)
    ensures
        read_from(v, fields, crate::decode::record(v, fields)),
{
    let r = crate::decode::record(v, fields);
    match v {
        Json::Object(m) => {
            record_of_an_object(m, fields);
            if r is Err {
                error_of_an_object(m, fields);
            }
        },
        Json::Array(items) => {
            record_of_an_array(items, fields);
        },
        _ => {
            no_record_elsewhere(v, fields);
        },
    }
}

/// A status as what was read for its fields.
pub open spec fn status_read(r: Result<Status, DecodeError>) -> Result<
    Seq<FieldData>,
    DecodeError,
> {
    match r {
        Ok(status) => Ok(
            seq![
                FieldData::Text(status.gid@),
                FieldData::Text(status.status@),
                FieldData::Text(status.total_length@),
                FieldData::Text(status.completed_length@),
                FieldData::Text(status.upload_length@),
                FieldData::Text(status.bitfield@),
                FieldData::Text(status.download_speed@),
                FieldData::Text(status.upload_speed@),
                FieldData::Text(status.info_hash@),
            ],
        ),
        Err(e) => Err(e),
    }
}

/// The overall statistics as what was read for their fields.
pub open spec fn global_stat_read(r: Result<GlobalStat, DecodeError>) -> Result<
    Seq<FieldData>,
    DecodeError,
> {
    match r {
        Ok(stat) => Ok(
            seq![
                FieldData::Text(stat.download_speed@),
                FieldData::Text(stat.upload_speed@),
                FieldData::Text(stat.num_active@),
                FieldData::Text(stat.num_waiting@),
                FieldData::Text(stat.num_stopped@),
                FieldData::Text(stat.num_stopped_total@),
            ],
        ),
        Err(e) => Err(e),
    }
}

/// A version as what was read for its fields.
pub open spec fn version_read(r: Result<Version, DecodeError>) -> Result<
    Seq<FieldData>,
    DecodeError,
> {
    match r {
        Ok(version) => Ok(
            seq![
                FieldData::Text(version.version@),
                FieldData::TextList(
                    Seq::new(
                        version.enabled_features@.len(),
                        |i: int| version.enabled_features@[i]@,
                    ),
                ),
            ],
        ),
        Err(e) => Err(e),
    }
}

/// A status is read out of a value as its nine members, or items, say, each whole; and where one
/// is missing or not a string, the error tells which of these it was.
pub proof fn status_is_what_the_value_says(v: JsonValue, r: Result<Status, DecodeError>)
    requires
        call_ensures(Status::from_json, (&v,), r),
    ensures
        read_from(
            v@,
            seq![
                Field { name: "gid", list: false },
                Field { name: "status", list: false },
                Field { name: "totalLength", list: false },
                Field { name: "completedLength", list: false },
                Field { name: "uploadLength", list: false },
                Field { name: "bitfield", list: false },
                Field { name: "downloadSpeed", list: false },
                Field { name: "uploadSpeed", list: false },
                Field { name: "infoHash", list: false },
            ],
            status_read(r),
        ),
        v@ matches Json::Object(m) ==> r matches Ok(status) ==> {
            &&& m["gid"@] == Json::String(status.gid@)
            &&& m["status"@] == Json::String(status.status@)
            &&& m["totalLength"@] == Json::String(status.total_length@)
            &&& m["completedLength"@] == Json::String(status.completed_length@)
            &&& m["uploadLength"@] == Json::String(status.upload_length@)
            &&& m["bitfield"@] == Json::String(status.bitfield@)
            &&& m["downloadSpeed"@] == Json::String(status.download_speed@)
            &&& m["uploadSpeed"@] == Json::String(status.upload_speed@)
            &&& m["infoHash"@] == Json::String(status.info_hash@)
        },
{
    record_is_read_from_its_value(v@, crate::records::status_fields());
    if let Ok(status) = r {
        if let Json::Object(m) = v@ {
            status_of_an_object(m, status);
        }
    }
}

/// A status is read out of every object whose nine members are strings.
pub proof fn status_is_read_from_strings(v: JsonValue, r: Result<Status, DecodeError>)
    requires
        call_ensures(Status::from_json, (&v,), r),
        v@ is Object,
    ensures
        r is Ok <==> {
            let m = v@->Object_0;
            &&& m.contains_key("gid"@) && m["gid"@] is String
            &&& m.contains_key("status"@) && m["status"@] is String
            &&& m.contains_key("totalLength"@) && m["totalLength"@] is String
            &&& m.contains_key("completedLength"@) && m["completedLength"@] is String
            &&& m.contains_key("uploadLength"@) && m["uploadLength"@] is String
            &&& m.contains_key("bitfield"@) && m["bitfield"@] is String
            &&& m.contains_key("downloadSpeed"@) && m["downloadSpeed"@] is String
            &&& m.contains_key("uploadSpeed"@) && m["uploadSpeed"@] is String
            &&& m.contains_key("infoHash"@) && m["infoHash"@] is String
        },
{
    status_of_an_object(v@->Object_0, r->Ok_0);
}

/// The overall statistics are read out of a value as their six members, or items, say, each whole;
/// and where one is missing or not a string, the error tells which of these it was.
pub proof fn global_stat_is_what_the_value_says(v: JsonValue, r: Result<GlobalStat, DecodeError>)
    requires
        call_ensures(GlobalStat::from_json, (&v,), r),
    ensures
        read_from(
            v@,
            seq![
                Field { name: "downloadSpeed", list: false },
                Field { name: "uploadSpeed", list: false },
                Field { name: "numActive", list: false },
                Field { name: "numWaiting", list: false },
                Field { name: "numStopped", list: false },
                Field { name: "numStoppedTotal", list: false },
            ],
            global_stat_read(r),
        ),
        v@ matches Json::Object(m) ==> r matches Ok(stat) ==> {
            &&& m["downloadSpeed"@] == Json::String(stat.download_speed@)
            &&& m["uploadSpeed"@] == Json::String(stat.upload_speed@)
            &&& m["numActive"@] == Json::String(stat.num_active@)
            &&& m["numWaiting"@] == Json::String(stat.num_waiting@)
            &&& m["numStopped"@] == Json::String(stat.num_stopped@)
            &&& m["numStoppedTotal"@] == Json::String(stat.num_stopped_total@)
        },
{
    record_is_read_from_its_value(v@, crate::records::global_stat_fields());
    if let Ok(stat) = r {
        if let Json::Object(m) = v@ {
            global_stat_of_an_object(m, stat);
        }
    }
}

/// A version is read out of a value as its two members, or items, say: the version whole, and of
/// the features as many as there are strings, each whole and in its place. Where one is missing or
/// of another type, the error tells which of these it was.
pub proof fn version_is_what_the_value_says(v: JsonValue, r: Result<Version, DecodeError>)
    requires
        call_ensures(Version::from_json, (&v,), r),
    ensures
        read_from(
            v@,
            seq![
                Field { name: "version", list: false },
                Field { name: "enabledFeatures", list: true },
            ],
            version_read(r),
        ),
        v@ matches Json::Object(m) ==> r matches Ok(version) ==> {
            &&& m["version"@] == Json::String(version.version@)
            &&& m["enabledFeatures"@] is Array
            &&& m["enabledFeatures"@]->Array_0.len() == version.enabled_features@.len()
            &&& forall|i: int|
                0 <= i < version.enabled_features@.len()
                    ==> #[trigger] m["enabledFeatures"@]->Array_0[i] == Json::String(
                    version.enabled_features@[i]@,
                )
        },
{
    record_is_read_from_its_value(v@, crate::records::version_fields());
    if let Ok(version) = r {
        assert(crate::text::texts(version.enabled_features@) =~= Seq::new(
            version.enabled_features@.len(),
            |i: int| version.enabled_features@[i]@,
        ));
        assert(version_read(r)->Ok_0 =~= version.data());
        if let Json::Object(m) = v@ {
            version_of_an_object(m, version);
        }
    }
}

/// What a call that should return a status makes of a response: its result read as a status where
/// there is one, whatever else is in the response; and else its error, whole.
pub proof fn status_comes_from_the_result(res: ResponseObject, r: Result<Status, CallError>)
    requires
        res.answered(),
        call_ensures(Status::from_response, (res,), r),
    ensures
        res.result matches Some(v) ==> match r {
            Ok(status) => read_from(
                v@,
                crate::records::status_fields(),
                status_read(Ok(status)),
            ),
            Err(CallError::Decode(e)) => read_from(
                v@,
                crate::records::status_fields(),
                Err(e),
            ),
            _ => false,
        },
        res.result is None ==> res.error is Some && r == Err::<Status, CallError>(
            CallError::Rpc(res.error->Some_0),
        ),
{
    if let Some(v) = res.result {
        record_is_read_from_its_value(v@, crate::records::status_fields());
    }
}

/// What a call that should return the overall statistics makes of a response: its result read as
/// them where there is one, whatever else is in the response; and else its error, whole.
pub proof fn global_stat_comes_from_the_result(
    res: ResponseObject,
    r: Result<GlobalStat, CallError>,
)
    requires
        res.answered(),
        call_ensures(GlobalStat::from_response, (res,), r),
    ensures
        res.result matches Some(v) ==> match r {
            Ok(stat) => read_from(
                v@,
                crate::records::global_stat_fields(),
                global_stat_read(Ok(stat)),
            ),
            Err(CallError::Decode(e)) => read_from(
                v@,
                crate::records::global_stat_fields(),
                Err(e),
            ),
            _ => false,
        },
        res.result is None ==> res.error is Some && r == Err::<GlobalStat, CallError>(
            CallError::Rpc(res.error->Some_0),
        ),
{
    if let Some(v) = res.result {
        record_is_read_from_its_value(v@, crate::records::global_stat_fields());
    }
}

/// What a call that should return a version makes of a response: its result read as a version
/// where there is one, whatever else is in the response; and else its error, whole.
pub proof fn version_comes_from_the_result(res: ResponseObject, r: Result<Version, CallError>)
    requires
        res.answered(),
        call_ensures(Version::from_response, (res,), r),
    ensures
        res.result matches Some(v) ==> match r {
            Ok(version) => read_from(
                v@,
                crate::records::version_fields(),
                version_read(Ok(version)),
            ),
            Err(CallError::Decode(e)) => read_from(
                v@,
                crate::records::version_fields(),
                Err(e),
            ),
            _ => false,
        },
        res.result is None ==> res.error is Some && r == Err::<Version, CallError>(
            CallError::Rpc(res.error->Some_0),
        ),
{
    if let Some(v) = res.result {
        record_is_read_from_its_value(v@, crate::records::version_fields());
        if let Ok(version) = r {
            assert(crate::text::texts(version.enabled_features@) =~= Seq::new(
                version.enabled_features@.len(),
                |i: int| version.enabled_features@[i]@,
            ));
            assert(version_read(Ok(version))->Ok_0 =~= version.data());
        }
    }
}

/// What a call that should return a string makes of a response: its result where that is a string,
/// whole, and where it is not, that its type is wrong; and its error, whole, where there is no
/// result.
pub proof fn string_comes_from_the_result(res: ResponseObject, r: Result<String, CallError>)
    requires
        res.answered(),
        call_ensures(unwrap_result_for_string, (res,), r),
    ensures
        res.result matches Some(v) ==> match r {
            Ok(s) => v@ == Json::String(s@),
            Err(CallError::Decode(e)) => !(v@ is String) && e is InvalidType,
            _ => false,
        },
        res.result is None ==> res.error is Some && r == Err::<String, CallError>(
            CallError::Rpc(res.error->Some_0),
        ),
{
}

/// A response is answered by a result or by an error, and by nothing else.
pub proof fn answer_is_result_or_error(res: ResponseObject, r: bool)
    requires
        call_ensures(ResponseObject::is_answered, (&res,), r),
    ensures
        r <==> !(res.result is None && res.error is None),
        res.answered() == r,
{
}

} // verus!
