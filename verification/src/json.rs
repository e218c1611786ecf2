//! JSON values, and what `serde_json` makes of them.

use vstd::prelude::*;

verus! {

/// What a JSON value is.
pub enum Json {
    Null,
    Bool(bool),
    Number(serde_json::Number),
    String(Seq<char>),
    Array(Seq<Json>),
    Object(Map<Seq<char>, Json>),
}

/// A JSON value.
pub enum JsonValue {
    Null,
    Bool(bool),
    Number(serde_json::Number),
    String(String),
    Array(Vec<JsonValue>),
    /// The members in any order. Of two members with one name the later counts.
    Object(Vec<(String, JsonValue)>),
}

impl View for JsonValue {
    type V = Json;

    open spec fn view(&self) -> Json {
        json_view(*self)
    }
}

/// The value that `v` stands for.
pub open spec fn json_view(v: JsonValue) -> Json
    decreases v,
{
    match v {
        JsonValue::Null => Json::Null,
        JsonValue::Bool(b) => Json::Bool(b),
        JsonValue::Number(n) => Json::Number(n),
        JsonValue::String(s) => Json::String(s@),
        JsonValue::Array(items) => Json::Array(items_view(items@)),
        JsonValue::Object(members) => Json::Object(members_view(members@)),
    }
}

/// The values that `items` stand for, one by one.
pub open spec fn items_view(items: Seq<JsonValue>) -> Seq<Json>
    decreases items,
{
    Seq::new(
        items.len(),
        |i: int| if 0 <= i < items.len() { json_view(items[i]) } else { Json::Null },
    )
}

/// The object that `members` make up: a later member replaces an earlier one of its name.
pub open spec fn members_view(members: Seq<(String, JsonValue)>) -> Map<Seq<char>, Json>
    decreases members,
{
    if members.len() == 0 {
        Map::empty()
    } else {
        members_view(members.subrange(0, members.len() - 1)).insert(
            members[members.len() - 1].0@,
            json_view(members[members.len() - 1].1),
        )
    }
}

impl Clone for JsonValue {
    fn clone(&self) -> (r: Self)
        ensures
            r@ == self@,
    {
        copy_value(self)
    }
}

fn copy_value(v: &JsonValue) -> (r: JsonValue)
    ensures
        r@ == v@,
    decreases *v,
{
    match v {
        JsonValue::Null => JsonValue::Null,
        JsonValue::Bool(b) => JsonValue::Bool(*b),
        JsonValue::Number(n) => JsonValue::Number(n.clone()),
        JsonValue::String(s) => JsonValue::String(s.clone()),
        JsonValue::Array(items) => JsonValue::Array(copy_items(items)),
        JsonValue::Object(members) => JsonValue::Object(copy_members(members)),
    }
}

fn copy_items(items: &Vec<JsonValue>) -> (r: Vec<JsonValue>)
    ensures
        items_view(r@) == items_view(items@),
    decreases items@,
{
    let mut copies: Vec<JsonValue> = Vec::new();
    let mut i: usize = 0;
    while i < items.len()
        invariant
            i <= items.len(),
            copies@.len() == i,
            forall|k: int| 0 <= k < i ==> json_view(copies@[k]) == json_view(#[trigger] items@[k]),
        decreases items.len() - i,
    {
        copies.push(copy_value(&items[i]));
        i += 1;
    }
    assert(items_view(copies@) =~= items_view(items@));
    copies
}

fn copy_members(members: &Vec<(String, JsonValue)>) -> (r: Vec<(String, JsonValue)>)
    ensures
        members_view(r@) == members_view(members@),
    decreases members@,
{
    let mut copies: Vec<(String, JsonValue)> = Vec::new();
    let mut i: usize = 0;
    while i < members.len()
        invariant
            i <= members.len(),
            copies@.len() == i,
            members_view(copies@) == members_view(members@.subrange(0, i as int)),
        decreases members.len() - i,
    {
        let ghost before = copies@;
        copies.push((members[i].0.clone(), copy_value(&members[i].1)));
        assert(copies@.subrange(0, copies@.len() - 1) =~= before);
        assert(members@.subrange(0, i + 1).subrange(0, i as int) =~= members@.subrange(0, i as int));
        i += 1;
    }
    assert(members@.subrange(0, i as int) =~= members@);
    copies
}

/// The place of the member that counts under `name`: the last one of that name.
pub(crate) fn find_member(members: &Vec<(String, JsonValue)>, name: &String) -> (r: Option<usize>)
    ensures
        match r {
            Some(k) => k < members@.len() && members_view(members@).contains_key(name@)
                && members_view(members@)[name@] == members@[k as int].1@,
            None => !members_view(members@).contains_key(name@),
        },
{
    let mut n: usize = members.len();
    assert(members@.subrange(0, n as int) =~= members@);
    while n > 0
        invariant
            n <= members@.len(),
            members_view(members@).contains_key(name@) == members_view(
                members@.subrange(0, n as int),
            ).contains_key(name@),
            members_view(members@)[name@] == members_view(members@.subrange(0, n as int))[name@],
        decreases n,
    {
        assert(members@.subrange(0, n as int).subrange(0, n - 1) =~= members@.subrange(0, n - 1));
        if members[n - 1].0 == *name {
            return Some(n - 1);
        }
        n -= 1;
    }
    None
}

/// `serde_json::Value`, whose insides stay hidden: `json_of` says what it holds.
#[verifier::external_type_specification]
#[verifier::external_body]
pub struct ExValue(serde_json::Value);

/// `serde_json::Number`, which is only carried about.
#[verifier::external_type_specification]
#[verifier::external_body]
pub struct ExNumber(serde_json::Number);

/// `serde_json::Map`, whose insides stay hidden: `entries_of` says what it holds.
#[verifier::external_type_specification]
#[verifier::external_body]
#[verifier::reject_recursive_types(K)]
#[verifier::reject_recursive_types(V)]
pub struct ExJsonMap<K, V>(serde_json::Map<K, V>);

/// `serde_json::Error`, which is only told apart from success.
#[verifier::external_type_specification]
#[verifier::external_body]
pub struct ExJsonError(serde_json::Error);

/// The JSON value that a `serde_json::Value` holds.
pub uninterp spec fn json_of(v: serde_json::Value) -> Json;

/// The members that a `serde_json::Map` holds.
pub uninterp spec fn entries_of(m: serde_json::Map<String, serde_json::Value>) -> Map<
    Seq<char>,
    Json,
>;

/// `<serde_json::Number as Clone>::clone` gives back the same number.
pub assume_specification[ <serde_json::Number as Clone>::clone ](n: &serde_json::Number) -> (r:
    serde_json::Number)
    ensures
        r == *n,
;

/// `serde_json::Value::Null` holds null.
#[verifier::external_body]
fn null_value() -> (r: serde_json::Value)
    ensures
        json_of(r) == Json::Null,
{
    serde_json::Value::Null
}

/// `serde_json::Value::Bool` holds the truth value it is made from.
#[verifier::external_body]
fn bool_value(b: bool) -> (r: serde_json::Value)
    ensures
        json_of(r) == Json::Bool(b),
{
    serde_json::Value::Bool(b)
}

/// `serde_json::Value::Number` holds the number it is made from.
#[verifier::external_body]
fn number_value(n: serde_json::Number) -> (r: serde_json::Value)
    ensures
        json_of(r) == Json::Number(n),
{
    serde_json::Value::Number(n)
}

/// `serde_json::Value::String` holds the text it is made from.
#[verifier::external_body]
fn string_value(s: String) -> (r: serde_json::Value)
    ensures
        json_of(r) == Json::String(s@),
{
    serde_json::Value::String(s)
}

/// `serde_json::Value::Array` holds the values it is made from, in their order.
#[verifier::external_body]
fn array_value(items: Vec<serde_json::Value>) -> (r: serde_json::Value)
    ensures
        json_of(r) == Json::Array(items@.map_values(|v: serde_json::Value| json_of(v))),
{
    serde_json::Value::Array(items)
}

/// `serde_json::Value::Object` holds the members of the map it is made from.
#[verifier::external_body]
fn object_value(members: serde_json::Map<String, serde_json::Value>) -> (r: serde_json::Value)
    ensures
        json_of(r) == Json::Object(entries_of(members)),
{
    serde_json::Value::Object(members)
}

/// `serde_json::Map::new` makes a map without members.
#[verifier::external_body]
fn new_map() -> (r: serde_json::Map<String, serde_json::Value>)
    ensures
        entries_of(r) == (Map::<Seq<char>, Json>::empty()),
{
    serde_json::Map::new()
}

/// `serde_json::Map::insert` adds a member, in place of one that had its name.
#[verifier::external_body]
fn insert_member(
    members: &mut serde_json::Map<String, serde_json::Value>,
    name: String,
    value: serde_json::Value,
)
    ensures
        entries_of(*final(members)) == entries_of(*old(members)).insert(name@, json_of(value)),
{
    members.insert(name, value);
}

/// The `serde_json` value that holds what `v` stands for.
fn to_value(v: &JsonValue) -> (r: serde_json::Value)
    ensures
        json_of(r) == v@,
    decreases *v,
{
    match v {
        JsonValue::Null => null_value(),
        JsonValue::Bool(b) => bool_value(*b),
        JsonValue::Number(n) => number_value(n.clone()),
        JsonValue::String(s) => string_value(s.clone()),
        JsonValue::Array(items) => {
            let values = to_values(items);
            assert(values@.map_values(|v: serde_json::Value| json_of(v)) =~= items_view(items@));
            array_value(values)
        },
        JsonValue::Object(members) => object_value(to_map(members)),
    }
}

fn to_values(items: &Vec<JsonValue>) -> (r: Vec<serde_json::Value>)
    ensures
        r@.len() == items@.len(),
        forall|k: int| 0 <= k < items@.len() ==> json_of(#[trigger] r@[k]) == items@[k]@,
    decreases items@,
{
    let mut values: Vec<serde_json::Value> = Vec::new();
    let mut i: usize = 0;
    while i < items.len()
        invariant
            i <= items.len(),
            values@.len() == i,
            forall|k: int| 0 <= k < i ==> json_of(#[trigger] values@[k]) == items@[k]@,
        decreases items.len() - i,
    {
        values.push(to_value(&items[i]));
        i += 1;
    }
    values
}

fn to_map(members: &Vec<(String, JsonValue)>) -> (r: serde_json::Map<String, serde_json::Value>)
    ensures
        entries_of(r) == members_view(members@),
    decreases members@,
{
    let mut map = new_map();
    let mut i: usize = 0;
    while i < members.len()
        invariant
            i <= members.len(),
            entries_of(map) == members_view(members@.subrange(0, i as int)),
        decreases members.len() - i,
    {
        insert_member(&mut map, members[i].0.clone(), to_value(&members[i].1));
        assert(members@.subrange(0, i + 1).subrange(0, i as int) =~= members@.subrange(0, i as int));
        i += 1;
    }
    assert(members@.subrange(0, i as int) =~= members@);
    map
}

/// The text that `serde_json::to_string` writes for a number or an object.
pub uninterp spec fn json_text(v: Json) -> Seq<char>;

/// The text that `{:?}` shows for a `serde_json::Value` that is a number or an object.
pub uninterp spec fn json_debug(v: Json) -> Seq<char>;

/// The hexadecimal digit `d`.
pub open spec fn hex_digit(d: nat) -> char {
    if d < 10 {
        (48 + d) as char
    } else {
        (87 + d) as char
    }
}

/// A character in a JSON string: the quote, the backslash and the control characters are escaped.
pub open spec fn escaped_char(c: char) -> Seq<char> {
    if c == '"' {
        seq!['\\', '"']
    } else if c == '\\' {
        seq!['\\', '\\']
    } else if c as nat == 8 {
        seq!['\\', 'b']
    } else if c as nat == 9 {
        seq!['\\', 't']
    } else if c as nat == 10 {
        seq!['\\', 'n']
    } else if c as nat == 12 {
        seq!['\\', 'f']
    } else if c as nat == 13 {
        seq!['\\', 'r']
    } else if (c as nat) < 32 {
        seq!['\\', 'u', '0', '0', hex_digit(c as nat / 16), hex_digit(c as nat % 16)]
    } else {
        seq![c]
    }
}

/// The characters of `s`, each as it stands in a JSON string.
pub open spec fn escaped(s: Seq<char>) -> Seq<char>
    decreases s.len(),
{
    if s.len() == 0 {
        Seq::empty()
    } else {
        escaped(s.drop_last()) + escaped_char(s.last())
    }
}

/// Whether JSON writes `s` between quotes as it stands: no quote, no backslash, no control
/// character.
pub open spec fn plain(s: Seq<char>) -> bool {
    forall|i: int| 0 <= i < s.len() ==> #[trigger] s[i] >= ' ' && s[i] != '"' && s[i] != '\\'
}

/// A plain string has nothing to escape.
pub proof fn plain_is_not_escaped(s: Seq<char>)
    requires
        plain(s),
    ensures
        escaped(s) == s,
    decreases s.len(),
{
    if s.len() > 0 {
        let front = s.drop_last();
        assert forall|i: int| 0 <= i < front.len() implies #[trigger] front[i] >= ' ' && front[i]
            != '"' && front[i] != '\\' by {
            assert(front[i] == s[i]);
        }
        plain_is_not_escaped(front);
        assert(s.last() == s[s.len() - 1]);
        assert(escaped(s) =~= s);
    }
}

/// The text of a value as compact JSON: strings between quotes, with escapes; the items of an
/// array between brackets with a comma between each two; no blanks.
pub open spec fn json_written(v: Json) -> Seq<char>
    decreases v,
{
    match v {
        Json::Null => "null"@,
        Json::Bool(b) => if b {
            "true"@
        } else {
            "false"@
        },
        Json::String(s) => crate::text::quoted(escaped(s)),
        Json::Array(items) => seq!['['] + written_items(items) + seq![']'],
        _ => json_text(v),
    }
}

/// The texts of `items` with a comma between each two.
pub open spec fn written_items(items: Seq<Json>) -> Seq<char>
    decreases items,
{
    if items.len() == 0 {
        Seq::empty()
    } else if items.len() == 1 {
        json_written(items[0])
    } else {
        written_items(items.subrange(0, items.len() - 1)) + seq![','] + json_written(
            items[items.len() - 1],
        )
    }
}

/// `serde_json::to_string` writes a `serde_json::Value` as compact JSON and does not fail on
/// one: its texts go to memory and the names in its objects are strings. What it writes is
/// `json_written`. The text of a number or an object is only named, `json_text`: how it goes is
/// left unsaid. It is the same for the same value because a map walks its members by name.
#[verifier::external_body]
fn value_text(v: &serde_json::Value) -> (r: Result<String, serde_json::Error>)
    ensures
        r is Ok,
        r->Ok_0@ == json_written(json_of(*v)),
        json_of(*v) is Number || json_of(*v) is Object ==> r->Ok_0@ == json_text(json_of(*v)),
{
    serde_json::to_string(v)
}

/// The text that `{:?}` shows for a `serde_json::Value`: the name of the kind of value, and the
/// value between brackets.
pub open spec fn json_shown(v: Json) -> Seq<char>
    decreases v,
{
    match v {
        Json::Null => "Null"@,
        Json::Bool(b) => if b {
            "Bool(true)"@
        } else {
            "Bool(false)"@
        },
        Json::String(s) => "String("@ + crate::text::shown_str(s) + ")"@,
        Json::Array(items) => "Array "@ + crate::text::shown_list(shown_items(items)),
        _ => json_debug(v),
    }
}

/// The texts that `{:?}` shows for `items`.
pub open spec fn shown_items(items: Seq<Json>) -> Seq<Seq<char>>
    decreases items,
{
    Seq::new(
        items.len(),
        |i: int| if 0 <= i < items.len() { json_shown(items[i]) } else { Seq::empty() },
    )
}

/// The `Debug` text of a `serde_json::Value` is `json_shown` of what it holds. The text of a
/// number or an object is only named, `json_debug`: how it goes is left unsaid.
#[verifier::external_body]
fn value_debug(v: &serde_json::Value) -> (r: String)
    ensures
        r@ == json_shown(json_of(*v)),
        json_of(*v) is Number || json_of(*v) is Object ==> r@ == json_debug(json_of(*v)),
{
    format!("{:?}", v)
}

/// `serde_json::from_value::<String>` succeeds on a string, and gives its text, and fails on
/// every other value.
#[verifier::external_body]
fn string_from_value(v: serde_json::Value) -> (r: Result<String, serde_json::Error>)
    ensures
        match json_of(v) {
            Json::String(s) => r is Ok && r->Ok_0@ == s,
            _ => r is Err,
        },
{
    serde_json::from_value::<String>(v)
}

impl JsonValue {
    /// The value as compact JSON.
    pub fn to_text(&self) -> (r: String)
        ensures
            r@ == json_written(self@),
    {
        value_text(&to_value(self)).unwrap()
    }

    /// The value as `{:?}` shows a `serde_json::Value`.
    pub fn to_debug(&self) -> (r: String)
        ensures
            r@ == json_shown(self@),
    {
        value_debug(&to_value(self))
    }

    /// The text of the value, where it is a string.
    pub fn to_str(&self) -> (r: Option<String>)
        ensures
            match self@ {
                Json::String(s) => r is Some && r->Some_0@ == s,
                _ => r is None,
            },
    {
        match string_from_value(to_value(self)) {
            Ok(s) => Some(s),
            Err(_) => None,
        }
    }
}

} // verus!
