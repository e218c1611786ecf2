//! What the values of the library stand for: nothing of them is lost in their views.

use vstd::prelude::*;

use crate::decode::{FieldData, FieldValue};
use crate::json::{Json, JsonValue};
use crate::request::RequestObject;

verus! {

/// A JSON value stands for what it is made from: a string for its characters, an array for as many
/// values as it has items, each for its item.
pub proof fn json_value_stands_for_its_parts(v: JsonValue)
    ensures
        v matches JsonValue::Null ==> v@ == Json::Null,
        v matches JsonValue::Bool(b) ==> v@ == Json::Bool(b),
        v matches JsonValue::Number(n) ==> v@ == Json::Number(n),
        v matches JsonValue::String(s) ==> v@ == Json::String(s@),
        v matches JsonValue::Array(items) ==> {
            &&& v@ is Array
            &&& v@->Array_0.len() == items@.len()
            &&& forall|i: int| 0 <= i < items@.len() ==> #[trigger] v@->Array_0[i] == items@[i]@
        },
        v is Object ==> v@ is Object,
{
}

/// An object has the names of its members and no others.
pub proof fn members_give_the_names(members: Seq<(String, JsonValue)>, name: Seq<char>)
    ensures
        crate::json::members_view(members).contains_key(name) <==> exists|i: int|
            0 <= i < members.len() && (#[trigger] members[i]).0@ == name,
    decreases members.len(),
{
    if members.len() > 0 {
        let n = members.len() - 1;
        let front = members.subrange(0, n);
        members_give_the_names(front, name);
        if crate::json::members_view(front).contains_key(name) {
            let i = choose|i: int| 0 <= i < front.len() && (#[trigger] front[i]).0@ == name;
            assert(members[i].0@ == name);
        }
        if exists|i: int| 0 <= i < members.len() && (#[trigger] members[i]).0@ == name {
            let i = choose|i: int| 0 <= i < members.len() && (#[trigger] members[i]).0@ == name;
            if i < n {
                assert(front[i].0@ == name);
            }
        }
        assert(members[n].0@ == name ==> crate::json::members_view(members).contains_key(name));
    }
}

/// Of the members of one name the last counts: the object has its value under that name.
pub proof fn last_member_counts(members: Seq<(String, JsonValue)>, i: int)
    requires
        0 <= i < members.len(),
        forall|k: int| i < k < members.len() ==> (#[trigger] members[k]).0@ != members[i].0@,
    ensures
        crate::json::members_view(members)[members[i].0@] == members[i].1@,
    decreases members.len(),
{
    let n = members.len() - 1;
    if i < n {
        let front = members.subrange(0, n);
        assert(front[i] == members[i]);
        assert forall|k: int| i < k < front.len() implies (#[trigger] front[k]).0@
            != front[i].0@ by {
            assert(front[k] == members[k]);
        }
        last_member_counts(front, i);
        assert(members[n].0@ != members[i].0@);
    }
}

/// An optional string stands for its characters, and a list of strings for as many texts as it has
/// strings, each for its string.
pub proof fn strings_stand_for_their_characters(s: Option<String>, list: Seq<String>)
    ensures
        s matches Some(t) ==> crate::text::optional_text(s) == Some(t@),
        s is None ==> crate::text::optional_text(s) is None,
        crate::text::texts(list).len() == list.len(),
        forall|i: int| 0 <= i < list.len() ==> #[trigger] crate::text::texts(list)[i] == list[i]@,
{
}

/// A field that was read stands for its string, or for its strings one by one.
pub proof fn fields_stand_for_their_strings(values: Seq<FieldValue>)
    ensures
        crate::decode::data(values).len() == values.len(),
        forall|i: int|
            0 <= i < values.len() ==> match #[trigger] values[i] {
                FieldValue::Text(s) => crate::decode::data(values)[i] == FieldData::Text(s@),
                FieldValue::TextList(list) => {
                    &&& crate::decode::data(values)[i] is TextList
                    &&& crate::decode::data(values)[i]->TextList_0.len() == list@.len()
                    &&& forall|k: int|
                        0 <= k < list@.len() ==> #[trigger] crate::decode::data(
                            values,
                        )[i]->TextList_0[k] == list@[k]@
                },
            },
{
}

/// A request says what its fields hold.
pub proof fn request_says_its_fields(req: RequestObject)
    ensures
        req@.jsonrpc == req.jsonrpc@,
        req@.method == req.method@,
        req@.params == req.params@,
        req.id matches Some(id) ==> req@.id == Some(id@),
        req.id is None ==> req@.id is None,
{
}

} // verus!
