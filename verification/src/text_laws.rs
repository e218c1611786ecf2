//! What the texts of the library tell: nothing that they are made from is lost in them.

use vstd::prelude::*;

use crate::json::{Json, JsonValue};
use crate::records::{show_version, GlobalStat, Status, Version};
use crate::request::{frame, show_request, RequestObject};
use crate::response::{
    show_error, show_response, show_response_debug, ErrorObject, ResponseObject,
};
use crate::text::{show_list, show_optional};

verus! {

/// The first `n` pieces one after another.
pub open spec fn joined_first(pieces: Seq<Seq<char>>, n: int) -> Seq<char>
    decreases n,
{
    if n <= 0 {
        Seq::empty()
    } else {
        joined_first(pieces, n - 1) + pieces[n - 1]
    }
}

/// The pieces one after another.
pub open spec fn joined(pieces: Seq<Seq<char>>) -> Seq<char> {
    joined_first(pieces, pieces.len() as int)
}

/// Every piece stands whole in the pieces joined, right after the pieces before it.
pub proof fn piece_stands_whole(pieces: Seq<Seq<char>>, i: int, n: int)
    requires
        0 <= i < n <= pieces.len(),
    ensures
        ({
            let at = joined_first(pieces, i).len() as int;
            &&& at + pieces[i].len() <= joined_first(pieces, n).len()
            &&& joined_first(pieces, n).subrange(at, at + pieces[i].len()) == pieces[i]
        }),
    decreases n,
{
    let at = joined_first(pieces, i).len() as int;
    let whole = joined_first(pieces, n);
    if i < n - 1 {
        piece_stands_whole(pieces, i, n - 1);
        assert(whole.subrange(at, at + pieces[i].len()) =~= joined_first(pieces, n - 1).subrange(
            at,
            at + pieces[i].len(),
        ));
    } else {
        assert(whole.subrange(at, at + pieces[i].len()) =~= pieces[i]);
    }
}

/// The number that the decimal digits of `s` say.
pub open spec fn numeral_value(s: Seq<char>) -> int
    decreases s.len(),
{
    if s.len() == 0 {
        0
    } else {
        10 * numeral_value(s.drop_last()) + (s.last() as int - '0' as int)
    }
}

/// A numeral says its number, in digits alone, and without a leading zero.
pub proof fn numeral_reads_back(n: nat)
    ensures
        numeral_value(crate::text::decimal(n)) == n,
        crate::text::decimal(n).len() > 0,
        forall|i: int|
            0 <= i < crate::text::decimal(n).len() ==> '0' <= #[trigger] crate::text::decimal(n)[i]
                <= '9',
        n > 0 ==> crate::text::decimal(n)[0] != '0',
        n == 0 ==> crate::text::decimal(n).len() == 1,
    decreases n,
{
    crate::text::decimal_is_digits(n);
    let s = crate::text::decimal(n);
    if n < 10 {
        assert(s.drop_last() =~= Seq::empty());
        assert(numeral_value(s.drop_last()) == 0);
    } else {
        numeral_reads_back(n / 10);
        assert(s.drop_last() =~= crate::text::decimal(n / 10));
        assert(s[0] == crate::text::decimal(n / 10)[0]);
    }
}

/// The numeral of a number that is not negative is its digits alone, and that of a negative number
/// a minus sign and the numeral of the number without it.
pub proof fn signed_numeral_reads_back(n: int)
    ensures
        n >= 0 ==> crate::call_laws::is_numeral(crate::text::signed_decimal(n), n),
        n < 0 ==> crate::text::signed_decimal(n)[0] == '-',
        n < 0 ==> crate::call_laws::is_numeral(
            crate::text::signed_decimal(n).subrange(
                1,
                crate::text::signed_decimal(n).len() as int,
            ),
            -n,
        ),
{
    let t = crate::text::signed_decimal(n);
    if n < 0 {
        numeral_reads_back((-n) as nat);
        assert(t.subrange(1, t.len() as int) =~= crate::text::decimal((-n) as nat));
    } else {
        numeral_reads_back(n as nat);
    }
}

/// A string that is printable as it stands is shown whole, between a quote and a quote.
pub proof fn printable_string_is_shown_whole(s: Seq<char>)
    requires
        forall|i: int|
            0 <= i < s.len() ==> ' ' <= #[trigger] s[i] <= '~' && s[i] != '"' && s[i] != '\\',
    ensures
        crate::text::shown_str(s).len() == s.len() + 2,
        crate::text::shown_str(s)[0] == '"',
        crate::text::shown_str(s).last() == '"',
        crate::text::shown_str(s).subrange(1, s.len() as int + 1) == s,
{
    assert(crate::text::shown_str(s).subrange(1, s.len() as int + 1) =~= s);
}

/// A list is shown between brackets. One more item adds a comma and a blank, unless it is the
/// first, and the item as it is shown, and changes nothing of what was there.
pub proof fn list_shows_every_item(list: Seq<Seq<char>>, item: Seq<char>)
    ensures
        crate::text::shown_list(Seq::empty()) == seq!['[', ']'],
        crate::text::shown_list(seq![item]) == seq!['['] + item + seq![']'],
        list.len() > 0 ==> crate::text::shown_list(list.push(item)) == crate::text::shown_list(
            list,
        ).drop_last() + seq![',', ' '] + item + seq![']'],
{
    reveal_strlit("[");
    reveal_strlit("]");
    reveal_strlit(", ");
    assert(crate::text::shown_list(Seq::empty()) =~= seq!['[', ']']);
    assert(crate::text::listed(seq![item]) == item);
    assert(crate::text::shown_list(seq![item]) =~= seq!['['] + item + seq![']']);
    if list.len() > 0 {
        assert(list.push(item).drop_last() =~= list);
        assert(crate::text::listed(list.push(item)) == crate::text::listed(list) + ", "@ + item);
        assert(crate::text::shown_list(list.push(item)) =~= crate::text::shown_list(
            list,
        ).drop_last() + seq![',', ' '] + item + seq![']']);
    }
}

/// What is shown of an optional value is `None`, or the value between `Some(` and a bracket.
pub proof fn shown_optional_holds_the_value(shown: Option<String>, r: String)
    requires
        call_ensures(show_optional, (shown,), r),
    ensures
        shown is None ==> r@ == seq!['N', 'o', 'n', 'e'],
        shown matches Some(s) ==> r@ == seq!['S', 'o', 'm', 'e', '('] + s@ + seq![')'],
{
    reveal_strlit("Some(");
    reveal_strlit(")");
    reveal_strlit("None");
    assert("Some("@ =~= seq!['S', 'o', 'm', 'e', '(']);
    assert(")"@ =~= seq![')']);
    assert("None"@ =~= seq!['N', 'o', 'n', 'e']);
}

/// What is shown of a list begins with a bracket and ends with one, and one more item at its end
/// adds itself, whole, after a comma and a blank unless it is the first.
pub proof fn shown_list_holds_every_item(
    list: Vec<String>,
    longer: Vec<String>,
    r: String,
    longer_r: String,
)
    requires
        call_ensures(show_list, (&list,), r),
        call_ensures(show_list, (&longer,), longer_r),
        longer@.len() == list@.len() + 1,
        forall|i: int| 0 <= i < list@.len() ==> (#[trigger] longer@[i])@ == list@[i]@,
    ensures
        list@.len() == 0 ==> r@ == seq!['[', ']'],
        list@.len() == 0 ==> longer_r@ == seq!['['] + longer@.last()@ + seq![']'],
        list@.len() > 0 ==> longer_r@ == r@.drop_last() + seq![',', ' '] + longer@.last()@
            + seq![']'],
{
    let items = crate::text::texts(list@);
    list_shows_every_item(items, longer@.last()@);
    assert(crate::text::texts(longer@) =~= items.push(longer@.last()@));
    if list@.len() == 0 {
        assert(items =~= Seq::empty());
        assert(crate::text::texts(longer@) =~= seq![longer@.last()@]);
    }
}

/// The text of a JSON value, read as JSON, is that value and nothing after it.
pub proof fn json_text_reads_back(v: JsonValue, r: String)
    requires
        call_ensures(JsonValue::to_text, (&v,), r),
        crate::reader::simple(v@),
    ensures
        crate::reader::read_value(r@) == Some((v@, Seq::<char>::empty())),
{
    crate::reader::value_reads_back(v@, Seq::empty());
    assert(crate::json::json_written(v@) + Seq::<char>::empty() =~= crate::json::json_written(v@));
}

/// The text of an array begins with a bracket and ends with one, and one more item at its end adds
/// its own text, whole, after a comma unless it is the first, whatever the items are.
pub proof fn array_text_holds_every_item(items: Seq<Json>, item: Json)
    ensures
        crate::json::json_written(Json::Array(Seq::empty())) == seq!['[', ']'],
        crate::json::json_written(Json::Array(seq![item])) == seq!['[']
            + crate::json::json_written(item) + seq![']'],
        items.len() > 0 ==> crate::json::json_written(Json::Array(items.push(item)))
            == crate::json::json_written(Json::Array(items)).drop_last() + seq![',']
            + crate::json::json_written(item) + seq![']'],
{
    assert(crate::json::json_written(Json::Array(Seq::empty())) =~= seq!['[', ']']);
    assert(crate::json::written_items(seq![item]) == crate::json::json_written(item));
    if items.len() > 0 {
        let longer = items.push(item);
        assert(longer.subrange(0, longer.len() - 1) =~= items);
        assert(crate::json::written_items(longer) == crate::json::written_items(items) + seq![',']
            + crate::json::json_written(item));
        assert(crate::json::json_written(Json::Array(longer)) =~= crate::json::json_written(
            Json::Array(items),
        ).drop_last() + seq![','] + crate::json::json_written(item) + seq![']']);
    }
}

/// A value has a string to give exactly where it is one, and gives it whole.
pub proof fn only_strings_give_their_text(v: JsonValue, r: Option<String>)
    requires
        call_ensures(JsonValue::to_str, (&v,), r),
    ensures
        r is Some <==> v@ is String,
        r matches Some(s) ==> v@ == Json::String(s@),
{
}

/// What `{:?}` shows of a JSON value: the kind of value, and what is in it, whole.
pub proof fn json_debug_shows_the_value(v: JsonValue, r: String)
    requires
        call_ensures(JsonValue::to_debug, (&v,), r),
    ensures
        v@ is Null ==> r@ == "Null"@,
        v@ == Json::Bool(true) ==> r@ == "Bool(true)"@,
        v@ == Json::Bool(false) ==> r@ == "Bool(false)"@,
        v@ matches Json::String(s) ==> r@ == "String("@ + crate::text::shown_str(s) + ")"@,
        v@ matches Json::Array(items) ==> r@ == "Array "@ + crate::text::shown_list(
            Seq::new(items.len(), |i: int| crate::json::json_shown(items[i])),
        ),
{
    if let Json::Array(items) = v@ {
        assert(crate::json::shown_items(items) =~= Seq::new(
            items.len(),
            |i: int| crate::json::json_shown(items[i]),
        ));
    }
}

/// The text of a request is an object of four members, with the texts that are given for them, each
/// whole, in this order and with nothing between.
pub proof fn frame_joins_its_parts(jsonrpc: &str, method: &str, params: &str, id: &str, r: String)
    requires
        call_ensures(frame, (jsonrpc, method, params, id,), r),
    ensures
        r@ == joined(
            seq![
                "{\"jsonrpc\":"@,
                jsonrpc@,
                ",\"method\":"@,
                method@,
                ",\"params\":"@,
                params@,
                ",\"id\":"@,
                id@,
                "}"@,
            ],
        ),
{
    reveal_with_fuel(joined_first, 10);
    assert(Seq::<char>::empty() + "{\"jsonrpc\":"@ =~= "{\"jsonrpc\":"@);
}

/// The text of a request has each of its members in JSON, whole.
pub proof fn request_text_joins_its_parts(req: RequestObject, r: String)
    requires
        call_ensures(RequestObject::to_text, (&req,), r),
    ensures
        r@ == joined(
            seq![
                "{\"jsonrpc\":"@,
                crate::json::json_written(Json::String(req.jsonrpc@)),
                ",\"method\":"@,
                crate::json::json_written(Json::String(req.method@)),
                ",\"params\":"@,
                crate::json::json_written(req.params@),
                ",\"id\":"@,
                match req.id {
                    Some(id) => crate::json::json_written(Json::String(id@)),
                    None => "null"@,
                },
                "}"@,
            ],
        ),
{
    reveal_with_fuel(joined_first, 10);
    assert(Seq::<char>::empty() + "{\"jsonrpc\":"@ =~= "{\"jsonrpc\":"@);
}

/// A request as `{:?}` shows it names each field and shows what is given for it, whole.
pub proof fn shown_request_joins_its_parts(
    jsonrpc: &str,
    method: &str,
    params: &str,
    id: &str,
    r: String,
)
    requires
        call_ensures(show_request, (jsonrpc, method, params, id,), r),
    ensures
        r@ == joined(
            seq![
                "RequestObject { jsonrpc: "@,
                jsonrpc@,
                ", method: "@,
                method@,
                ", params: "@,
                params@,
                ", id: "@,
                id@,
                " }"@,
            ],
        ),
{
    reveal_with_fuel(joined_first, 10);
    assert(Seq::<char>::empty() + "RequestObject { jsonrpc: "@ =~= "RequestObject { jsonrpc: "@);
}

/// A request as `{:?}` shows it shows each of its fields, whole.
pub proof fn request_debug_shows_its_fields(req: RequestObject, r: String)
    requires
        call_ensures(RequestObject::to_debug, (&req,), r),
    ensures
        r@ == joined(
            seq![
                "RequestObject { jsonrpc: "@,
                crate::text::shown_str(req.jsonrpc@),
                ", method: "@,
                crate::text::shown_str(req.method@),
                ", params: "@,
                crate::json::json_shown(req.params@),
                ", id: "@,
                match req.id {
                    Some(s) => crate::text::shown_optional(Some(crate::text::shown_str(s@))),
                    None => crate::text::shown_optional(None),
                },
                " }"@,
            ],
        ),
{
    reveal_with_fuel(joined_first, 10);
    assert(Seq::<char>::empty() + "RequestObject { jsonrpc: "@ =~= "RequestObject { jsonrpc: "@);
}

/// The text of an error has its code, and what is given for its message and its data, whole.
pub proof fn shown_error_joins_its_parts(code: i16, message: &str, data: &str, r: String)
    requires
        call_ensures(show_error, (code, message, data,), r),
    ensures
        r@ == joined(
            seq![
                "code: "@,
                crate::text::signed_decimal(code as int),
                ", message: "@,
                message@,
                ", data: "@,
                data@,
            ],
        ),
{
    reveal_with_fuel(joined_first, 7);
    assert(Seq::<char>::empty() + "code: "@ =~= "code: "@);
}

/// The text of an error shows each of its fields, whole.
pub proof fn error_text_shows_its_fields(e: ErrorObject, r: String)
    requires
        call_ensures(ErrorObject::to_string, (&e,), r),
    ensures
        r@ == joined(
            seq![
                "code: "@,
                crate::text::signed_decimal(e.code as int),
                ", message: "@,
                match e.message {
                    Some(s) => crate::text::shown_optional(Some(crate::text::shown_str(s@))),
                    None => crate::text::shown_optional(None),
                },
                ", data: "@,
                match e.data {
                    Some(s) => crate::text::shown_optional(Some(crate::text::shown_str(s@))),
                    None => crate::text::shown_optional(None),
                },
            ],
        ),
{
    reveal_with_fuel(joined_first, 7);
    assert(Seq::<char>::empty() + "code: "@ =~= "code: "@);
}

/// The text of a response has a line for each field, with what is given for it, whole.
pub proof fn shown_response_joins_its_parts(
    result: &str,
    error: &str,
    jsonrpc: &str,
    id: &str,
    method: &str,
    params: &str,
    r: String,
)
    requires
        call_ensures(show_response, (result, error, jsonrpc, id, method, params,), r),
    ensures
        r@ == joined(
            seq![
                "result: "@,
                result@,
                "\nerror: "@,
                error@,
                "\njsonrpc: "@,
                jsonrpc@,
                "\nid: "@,
                id@,
                "\nmethod: "@,
                method@,
                "\nparams: "@,
                params@,
            ],
        ),
{
    reveal_with_fuel(joined_first, 13);
    assert(Seq::<char>::empty() + "result: "@ =~= "result: "@);
}

/// The text of a response shows each of its fields, whole.
pub proof fn response_text_shows_its_fields(res: ResponseObject, r: String)
    requires
        call_ensures(ResponseObject::to_string, (&res,), r),
    ensures
        r@ == joined(
            seq![
                "result: "@,
                match res.result {
                    Some(v) => crate::text::shown_optional(Some(crate::json::json_shown(v@))),
                    None => crate::text::shown_optional(None),
                },
                "\nerror: "@,
                match res.error {
                    Some(e) => crate::text::shown_optional(
                        Some(joined(seq!["ErrorObject { "@, e.text(), " }"@])),
                    ),
                    None => crate::text::shown_optional(None),
                },
                "\njsonrpc: "@,
                crate::text::shown_str(res.jsonrpc@),
                "\nid: "@,
                match res.id {
                    Some(s) => crate::text::shown_optional(Some(crate::text::shown_str(s@))),
                    None => crate::text::shown_optional(None),
                },
                "\nmethod: "@,
                match res.method {
                    Some(s) => crate::text::shown_optional(Some(crate::text::shown_str(s@))),
                    None => crate::text::shown_optional(None),
                },
                "\nparams: "@,
                match res.params {
                    Some(v) => crate::text::shown_optional(Some(crate::json::json_shown(v@))),
                    None => crate::text::shown_optional(None),
                },
            ],
        ),
{
    reveal_with_fuel(joined_first, 13);
    assert(Seq::<char>::empty() + "result: "@ =~= "result: "@);
}

/// A response as `{:?}` shows it names each field and shows what is given for it, whole.
pub proof fn shown_response_debug_joins_its_parts(
    result: &str,
    error: &str,
    jsonrpc: &str,
    id: &str,
    method: &str,
    params: &str,
    r: String,
)
    requires
        call_ensures(show_response_debug, (result, error, jsonrpc, id, method, params,), r),
    ensures
        r@ == joined(
            seq![
                "ResponseObject { result: "@,
                result@,
                ", error: "@,
                error@,
                ", jsonrpc: "@,
                jsonrpc@,
                ", id: "@,
                id@,
                ", method: "@,
                method@,
                ", params: "@,
                params@,
                " }"@,
            ],
        ),
{
    reveal_with_fuel(joined_first, 14);
    assert(Seq::<char>::empty() + "ResponseObject { result: "@ =~= "ResponseObject { result: "@);
}

/// A response as `{:?}` shows it shows each of its fields, whole.
pub proof fn response_debug_shows_its_fields(res: ResponseObject, r: String)
    requires
        call_ensures(ResponseObject::to_debug, (&res,), r),
    ensures
        r@ == joined(
            seq![
                "ResponseObject { result: "@,
                match res.result {
                    Some(v) => crate::text::shown_optional(Some(crate::json::json_shown(v@))),
                    None => crate::text::shown_optional(None),
                },
                ", error: "@,
                match res.error {
                    Some(e) => crate::text::shown_optional(
                        Some(joined(seq!["ErrorObject { "@, e.text(), " }"@])),
                    ),
                    None => crate::text::shown_optional(None),
                },
                ", jsonrpc: "@,
                crate::text::shown_str(res.jsonrpc@),
                ", id: "@,
                match res.id {
                    Some(s) => crate::text::shown_optional(Some(crate::text::shown_str(s@))),
                    None => crate::text::shown_optional(None),
                },
                ", method: "@,
                match res.method {
                    Some(s) => crate::text::shown_optional(Some(crate::text::shown_str(s@))),
                    None => crate::text::shown_optional(None),
                },
                ", params: "@,
                match res.params {
                    Some(v) => crate::text::shown_optional(Some(crate::json::json_shown(v@))),
                    None => crate::text::shown_optional(None),
                },
                " }"@,
            ],
        ),
{
    reveal_with_fuel(joined_first, 14);
    assert(Seq::<char>::empty() + "ResponseObject { result: "@ =~= "ResponseObject { result: "@);
}

/// The text of a version has a line for the version and one for the features, with what is given
/// for them, whole.
pub proof fn shown_version_joins_its_parts(version: &str, features: &str, r: String)
    requires
        call_ensures(show_version, (version, features,), r),
    ensures
        r@ == joined(
            seq![
                "Version:\n  version: "@,
                version@,
                "\n  enabled features: "@,
                features@,
            ],
        ),
{
    reveal_with_fuel(joined_first, 5);
    assert(Seq::<char>::empty() + "Version:\n  version: "@ =~= "Version:\n  version: "@);
}

/// The text of a version shows the version, whole, and all of its features.
pub proof fn version_text_shows_its_fields(version: Version, r: String)
    requires
        call_ensures(Version::to_string, (&version,), r),
    ensures
        r@ == joined(
            seq![
                "Version:\n  version: "@,
                version.version@,
                "\n  enabled features: "@,
                crate::text::shown_list(
                    Seq::new(
                        version.enabled_features@.len(),
                        |i: int| crate::text::shown_str(version.enabled_features@[i]@),
                    ),
                ),
            ],
        ),
{
    let features = version.enabled_features@;
    assert(crate::text::texts(features).map_values(|s: Seq<char>| crate::text::shown_str(s))
        =~= Seq::new(features.len(), |i: int| crate::text::shown_str(features[i]@)));
    reveal_with_fuel(joined_first, 5);
    assert(Seq::<char>::empty() + "Version:\n  version: "@ =~= "Version:\n  version: "@);
}

/// The text of a status has a line for each field, and each field stands in its line whole.
pub proof fn status_text_shows_its_fields(status: Status, r: String)
    requires
        call_ensures(Status::to_string, (&status,), r),
    ensures
        r@ == joined(
            seq![
                "Status:\n  gid: "@,
                status.gid@,
                "\n  status: "@,
                status.status@,
                "\n  total length: "@,
                status.total_length@,
                "bytes\n  completed length: "@,
                status.completed_length@,
                "bytes\n  upload length: "@,
                status.upload_length@,
                "bytes\n  bitfield: "@,
                status.bitfield@,
                "\n  download speed: "@,
                status.download_speed@,
                "bytes/sec\n  upload speed: "@,
                status.upload_speed@,
                "bytes/sec\n  info_hash: "@,
                status.info_hash@,
            ],
        ),
{
    reveal_with_fuel(joined_first, 19);
    assert(Seq::<char>::empty() + "Status:\n  gid: "@ =~= "Status:\n  gid: "@);
}

/// The text of the statistics has a line for each field, and each field stands in its line whole.
pub proof fn global_stat_text_shows_its_fields(stat: GlobalStat, r: String)
    requires
        call_ensures(GlobalStat::to_string, (&stat,), r),
    ensures
        r@ == joined(
            seq![
                "Global Stat:\n  download speed: "@,
                stat.download_speed@,
                "bytes/sec\n  upload speed: "@,
                stat.upload_speed@,
                "/bytes/sec\n  num active: "@,
                stat.num_active@,
                "\n  num waiting: "@,
                stat.num_waiting@,
                "\n  num stopped: "@,
                stat.num_stopped@,
                "\n  num stopped total: "@,
                stat.num_stopped_total@,
                "\n"@,
            ],
        ),
{
    reveal_with_fuel(joined_first, 14);
    assert(Seq::<char>::empty() + "Global Stat:\n  download speed: "@ =~= "Global Stat:\n  download speed: "@);
}

} // verus!
