//! What a JSON text says, read from its front; and that what the client sends says what it means.

use vstd::prelude::*;

use crate::json::Json;
use crate::request::RequestView;

verus! {

/// The value of a hexadecimal digit.
pub open spec fn hex_value(c: char) -> Option<int> {
    if '0' <= c <= '9' {
        Some(c as int - '0' as int)
    } else if 'a' <= c <= 'f' {
        Some(c as int - 'a' as int + 10)
    } else if 'A' <= c <= 'F' {
        Some(c as int - 'A' as int + 10)
    } else {
        None
    }
}

/// The character whose number the four hexadecimal digits are. Halves of surrogate pairs are not
/// read.
pub open spec fn numbered_char(a: char, b: char, c: char, d: char) -> Option<char> {
    match (hex_value(a), hex_value(b), hex_value(c), hex_value(d)) {
        (Some(a), Some(b), Some(c), Some(d)) => {
            let n = 4096 * a + 256 * b + 16 * c + d;
            if n < 0xd800 {
                Some(n as char)
            } else {
                None
            }
        },
        _ => None,
    }
}

/// The character that a backslash and `c` stand for.
pub open spec fn short_escape(c: char) -> Option<char> {
    if c == '"' || c == '\\' || c == '/' {
        Some(c)
    } else if c == 'b' {
        Some('\u{8}')
    } else if c == 'f' {
        Some('\u{c}')
    } else if c == 'n' {
        Some('\n')
    } else if c == 'r' {
        Some('\r')
    } else if c == 't' {
        Some('\t')
    } else {
        None
    }
}

/// What was read, with `c` before it.
pub open spec fn prepend(c: char, read: Option<(Seq<char>, Seq<char>)>) -> Option<
    (Seq<char>, Seq<char>),
> {
    match read {
        Some((s, rest)) => Some((seq![c] + s, rest)),
        None => None,
    }
}

/// The string that `t` says up to the next quote, and what comes after the quote.
pub open spec fn read_string(t: Seq<char>) -> Option<(Seq<char>, Seq<char>)>
    decreases t.len(),
{
    if t.len() == 0 {
        None
    } else if t[0] == '"' {
        Some((Seq::empty(), t.skip(1)))
    } else if t[0] == '\\' {
        if t.len() >= 6 && t[1] == 'u' {
            match numbered_char(t[2], t[3], t[4], t[5]) {
                Some(c) => prepend(c, read_string(t.skip(6))),
                None => None,
            }
        } else if t.len() >= 2 {
            match short_escape(t[1]) {
                Some(c) => prepend(c, read_string(t.skip(2))),
                None => None,
            }
        } else {
            None
        }
    } else if !(t[0] >= ' ') {
        None
    } else {
        prepend(t[0], read_string(t.skip(1)))
    }
}

/// Whether `t` begins with `word`.
pub open spec fn begins(t: Seq<char>, word: Seq<char>) -> bool {
    t.len() >= word.len() && t.subrange(0, word.len() as int) == word
}

/// The value that `t` begins with, and what comes after it. Blanks and numbers are not read.
pub open spec fn read_value(t: Seq<char>) -> Option<(Json, Seq<char>)>
    decreases t.len(), 0nat,
{
    if t.len() == 0 {
        None
    } else if t[0] == '"' {
        match read_string(t.skip(1)) {
            Some((s, rest)) => Some((Json::String(s), rest)),
            None => None,
        }
    } else if t[0] == '[' {
        if t.len() > 1 && t[1] == ']' {
            Some((Json::Array(Seq::empty()), t.skip(2)))
        } else {
            match read_items(t.skip(1)) {
                Some((items, rest)) => Some((Json::Array(items), rest)),
                None => None,
            }
        }
    } else if t[0] == '{' {
        if t.len() > 1 && t[1] == '}' {
            Some((Json::Object(Map::empty()), t.skip(2)))
        } else {
            match read_members(t.skip(1)) {
                Some((members, rest)) => Some((Json::Object(members), rest)),
                None => None,
            }
        }
    } else if begins(t, seq!['n', 'u', 'l', 'l']) {
        Some((Json::Null, t.skip(4)))
    } else if begins(t, seq!['t', 'r', 'u', 'e']) {
        Some((Json::Bool(true), t.skip(4)))
    } else if begins(t, seq!['f', 'a', 'l', 's', 'e']) {
        Some((Json::Bool(false), t.skip(5)))
    } else {
        None
    }
}

/// The items that `t` says up to the closing bracket, and what comes after it.
pub open spec fn read_items(t: Seq<char>) -> Option<(Seq<Json>, Seq<char>)>
    decreases t.len(), 1nat,
{
    match read_value(t) {
        Some((item, rest)) => if 0 < rest.len() < t.len() && rest[0] == ']' {
            Some((seq![item], rest.skip(1)))
        } else if 0 < rest.len() < t.len() && rest[0] == ',' {
            match read_items(rest.skip(1)) {
                Some((items, more)) => Some((seq![item] + items, more)),
                None => None,
            }
        } else {
            None
        },
        None => None,
    }
}

/// The members that `t` says up to the closing brace, and what comes after it. Of two members
/// with one name the later counts.
pub open spec fn read_members(t: Seq<char>) -> Option<(Map<Seq<char>, Json>, Seq<char>)>
    decreases t.len(), 1nat,
{
    if t.len() == 0 || t[0] != '"' {
        None
    } else {
        match read_string(t.skip(1)) {
            Some((name, after_name)) => if 0 < after_name.len() < t.len() && after_name[0] == ':' {
                match read_value(after_name.skip(1)) {
                    Some((value, rest)) => if 0 < rest.len() < t.len() && rest[0] == '}' {
                        Some((Map::empty().insert(name, value), rest.skip(1)))
                    } else if 0 < rest.len() < t.len() && rest[0] == ',' {
                        match read_members(rest.skip(1)) {
                            Some((members, more)) => Some(
                                (
                                    if members.contains_key(name) {
                                        members
                                    } else {
                                        members.insert(name, value)
                                    },
                                    more,
                                ),
                            ),
                            None => None,
                        }
                    } else {
                        None
                    },
                    None => None,
                }
            } else {
                None
            },
            None => None,
        }
    }
}

/// Whether `v` has neither numbers nor objects in it, as the parameters of every call of the
/// client.
pub open spec fn simple(v: Json) -> bool
    decreases v,
{
    match v {
        Json::Null => true,
        Json::Bool(_) => true,
        Json::String(_) => true,
        Json::Array(items) => forall|i: int| 0 <= i < items.len() ==> simple(#[trigger] items[i]),
        _ => false,
    }
}

/// A character written in a JSON string is read as itself.
proof fn read_escaped_char(c: char, more: Seq<char>)
    ensures
        read_string(crate::json::escaped_char(c) + more) == prepend(c, read_string(more)),
{
    let t = crate::json::escaped_char(c) + more;
    if c == '"' || c == '\\' || c as nat == 8 || c as nat == 9 || c as nat == 10 || c as nat == 12
        || c as nat == 13 {
        assert(t.skip(2) =~= more);
    } else if (c as nat) < 32 {
        assert(t.skip(6) =~= more);
        let n = c as nat;
        assert(16 * (n / 16) + n % 16 == n);
        assert(n / 16 < 2);
        assert(hex_value(t[2]) == Some(0int));
        assert(hex_value(t[3]) == Some(0int));
        assert(hex_value(t[4]) == Some((n / 16) as int));
        assert(hex_value(t[5]) == Some((n % 16) as int));
    } else {
        assert(t.skip(1) =~= more);
    }
}

proof fn escaped_front(s: Seq<char>)
    requires
        s.len() > 0,
    ensures
        crate::json::escaped(s) == crate::json::escaped_char(s[0]) + crate::json::escaped(
            s.skip(1),
        ),
    decreases s.len(),
{
    if s.len() == 1 {
        assert(s.drop_last() =~= Seq::empty());
        assert(s.skip(1) =~= Seq::empty());
        assert(crate::json::escaped(s) =~= crate::json::escaped_char(s[0]) + crate::json::escaped(
            s.skip(1),
        ));
    } else {
        escaped_front(s.drop_last());
        assert(s.drop_last().skip(1) =~= s.skip(1).drop_last());
        assert(crate::json::escaped(s) =~= crate::json::escaped_char(s[0]) + crate::json::escaped(
            s.skip(1),
        ));
    }
}

/// A string between quotes, as it stands in a JSON text, is read as itself, whatever its
/// characters.
pub proof fn string_reads_back(s: Seq<char>, rest: Seq<char>)
    ensures
        read_string(crate::json::escaped(s) + seq!['"'] + rest) == Some((s, rest)),
    decreases s.len(),
{
    let t = crate::json::escaped(s) + seq!['"'] + rest;
    if s.len() == 0 {
        assert(t.skip(1) =~= rest);
        assert(s =~= Seq::empty());
    } else {
        escaped_front(s);
        let more = crate::json::escaped(s.skip(1)) + seq!['"'] + rest;
        assert(t =~= crate::json::escaped_char(s[0]) + more);
        string_reads_back(s.skip(1), rest);
        read_escaped_char(s[0], more);
        assert(seq![s[0]] + s.skip(1) =~= s);
    }
}

proof fn written_start(v: Json)
    requires
        simple(v),
    ensures
        crate::json::json_written(v).len() > 0,
        crate::json::json_written(v)[0] != ']',
{
    reveal_strlit("null");
    reveal_strlit("true");
    reveal_strlit("false");
}

proof fn written_items_front(items: Seq<Json>)
    requires
        items.len() > 1,
    ensures
        crate::json::written_items(items) == crate::json::json_written(items[0]) + seq![','] +
        crate::json::written_items(items.skip(1)),
    decreases items.len(),
{
    let front = items.subrange(0, items.len() - 1);
    let tail = items.skip(1);
    let last = crate::json::json_written(items[items.len() - 1]);
    if items.len() == 2 {
        assert(front.len() == 1 && front[0] == items[0]);
        assert(tail.len() == 1 && tail[0] == items[1]);
        assert(crate::json::written_items(front) == crate::json::json_written(items[0]));
        assert(crate::json::written_items(tail) == last);
    } else {
        written_items_front(front);
        assert(front.skip(1) =~= tail.subrange(0, tail.len() - 1));
        assert(tail[tail.len() - 1] == items[items.len() - 1]);
        assert(crate::json::written_items(tail) == crate::json::written_items(front.skip(1)) + seq![
            ',',
        ] + last);
        assert(crate::json::written_items(items) == crate::json::written_items(front) + seq![','] + last);
        assert(crate::json::written_items(items) =~= crate::json::json_written(items[0]) + seq![
            ',',
        ] + crate::json::written_items(tail));
    }
}

/// A simple value, written as JSON, is read as itself.
pub proof fn value_reads_back(v: Json, rest: Seq<char>)
    requires
        simple(v),
    ensures
        read_value(crate::json::json_written(v) + rest) == Some((v, rest)),
    decreases v,
{
    let t = crate::json::json_written(v) + rest;
    match v {
        Json::Null => {
            reveal_strlit("null");
            assert(t.subrange(0, 4) =~= seq!['n', 'u', 'l', 'l']);
            assert(t.skip(4) =~= rest);
        },
        Json::Bool(b) => {
            reveal_strlit("true");
            reveal_strlit("false");
            if b {
                assert(t.subrange(0, 4) =~= seq!['t', 'r', 'u', 'e']);
                assert(t.skip(4) =~= rest);
                assert(t.subrange(0, 4)[0] == 't');
                assert(!begins(t, seq!['n', 'u', 'l', 'l'])) by {
                    assert(seq!['n', 'u', 'l', 'l'][0] != t[0]);
                }
            } else {
                assert(t.subrange(0, 5) =~= seq!['f', 'a', 'l', 's', 'e']);
                assert(t.skip(5) =~= rest);
                assert(t.subrange(0, 4)[0] == 'f');
                assert(!begins(t, seq!['n', 'u', 'l', 'l'])) by {
                    assert(seq!['n', 'u', 'l', 'l'][0] != t[0]);
                }
                assert(!begins(t, seq!['t', 'r', 'u', 'e'])) by {
                    assert(seq!['t', 'r', 'u', 'e'][0] != t[0]);
                }
            }
        },
        Json::String(s) => {
            string_reads_back(s, rest);
            assert(t.skip(1) =~= crate::json::escaped(s) + seq!['"'] + rest);
        },
        Json::Array(items) => {
            if items.len() == 0 {
                assert(items =~= Seq::empty());
                assert(t =~= seq!['[', ']'] + rest);
                assert(t.skip(2) =~= rest);
            } else {
                assert(simple(items[0]));
                written_start(items[0]);
                items_read_back(items, rest);
                assert(t.skip(1) =~= crate::json::written_items(items) + seq![']'] + rest);
                if items.len() > 1 {
                    written_items_front(items);
                }
                assert(t[1] == crate::json::json_written(items[0])[0]);
            }
        },
        _ => {},
    }
}

/// Simple values, written as the items of an array, are read as themselves, all of them and in
/// their order.
pub proof fn items_read_back(items: Seq<Json>, rest: Seq<char>)
    requires
        items.len() > 0,
        forall|i: int| 0 <= i < items.len() ==> simple(#[trigger] items[i]),
    ensures
        read_items(crate::json::written_items(items) + seq![']'] + rest) == Some((items, rest)),
    decreases items,
{
    let t = crate::json::written_items(items) + seq![']'] + rest;
    assert(simple(items[0]));
    written_start(items[0]);
    if items.len() == 1 {
        let after = seq![']'] + rest;
        assert(t =~= crate::json::json_written(items[0]) + after);
        value_reads_back(items[0], after);
        assert(after.skip(1) =~= rest);
        assert(seq![items[0]] =~= items);
    } else {
        let tail = items.skip(1);
        assert forall|i: int| 0 <= i < tail.len() implies simple(#[trigger] tail[i]) by {
            assert(tail[i] == items[i + 1]);
        }
        written_items_front(items);
        let more = crate::json::written_items(tail) + seq![']'] + rest;
        let after = seq![','] + more;
        assert(t =~= crate::json::json_written(items[0]) + after);
        value_reads_back(items[0], after);
        assert(after.skip(1) =~= more);
        items_read_back(tail, rest);
        assert(seq![items[0]] + tail =~= items);
    }
}

/// A member of an object is read as itself.
proof fn member_reads_back(name: Seq<char>, v: Json, after: Seq<char>)
    requires
        crate::json::plain(name),
        simple(v),
        after.len() > 0,
    ensures
        ({
            let t = seq!['"'] + name + seq!['"', ':'] + crate::json::json_written(v) + after;
            &&& after[0] == '}' ==> read_members(t) == Some(
                (Map::empty().insert(name, v), after.skip(1)),
            )
            &&& after[0] == ',' ==> read_members(t) == match read_members(after.skip(1)) {
                Some((members, more)) => Some(
                    (
                        if members.contains_key(name) {
                            members
                        } else {
                            members.insert(name, v)
                        },
                        more,
                    ),
                ),
                None => None,
            }
        }),
{
    let t = seq!['"'] + name + seq!['"', ':'] + crate::json::json_written(v) + after;
    let after_name = seq![':'] + crate::json::json_written(v) + after;
    crate::json::plain_is_not_escaped(name);
    string_reads_back(name, after_name);
    assert(t.skip(1) =~= crate::json::escaped(name) + seq!['"'] + after_name);
    assert(after_name.skip(1) =~= crate::json::json_written(v) + after);
    value_reads_back(v, after);
}

/// What goes over the wire for a request, read as JSON, is one object and nothing after it. Its
/// members are the four of the request, and each holds what the request holds, whole, whatever
/// its characters and its length.
#[verifier::spinoff_prover]
#[verifier::rlimit(60)]
pub proof fn request_reads_back(req: RequestView)
    requires
        simple(req.params),
    ensures
        read_value(req.text()) == Some(
            (
                Json::Object(
                    map![
                        seq!['j', 's', 'o', 'n', 'r', 'p', 'c'] => Json::String(req.jsonrpc),
                        seq!['m', 'e', 't', 'h', 'o', 'd'] => Json::String(req.method),
                        seq!['p', 'a', 'r', 'a', 'm', 's'] => req.params,
                        seq!['i', 'd'] => match req.id {
                            Some(id) => Json::String(id),
                            None => Json::Null,
                        },
                    ],
                ),
                Seq::<char>::empty(),
            ),
        ),
{
    reveal_strlit("{\"jsonrpc\":");
    reveal_strlit(",\"method\":");
    reveal_strlit(",\"params\":");
    reveal_strlit(",\"id\":");
    reveal_strlit("}");
    let jsonrpc = seq!['j', 's', 'o', 'n', 'r', 'p', 'c'];
    let method = seq!['m', 'e', 't', 'h', 'o', 'd'];
    let params = seq!['p', 'a', 'r', 'a', 'm', 's'];
    let id = seq!['i', 'd'];
    let id_value = match req.id {
        Some(id) => Json::String(id),
        None => Json::Null,
    };
    let q = seq!['"'];
    let qc = seq!['"', ':'];
    let comma = seq![','];
    let w_jsonrpc = crate::json::json_written(Json::String(req.jsonrpc));
    let w_method = crate::json::json_written(Json::String(req.method));
    let w_params = crate::json::json_written(req.params);
    let w_id = crate::json::json_written(id_value);
    let m4 = q + id + qc + w_id + seq!['}'];
    let m3 = q + params + qc + w_params + (comma + m4);
    let m2 = q + method + qc + w_method + (comma + m3);
    let m1 = q + jsonrpc + qc + w_jsonrpc + (comma + m2);
    assert(req.text() =~= seq!['{'] + m1);
    member_reads_back(id, id_value, seq!['}']);
    assert(seq!['}'].skip(1) =~= Seq::<char>::empty());
    member_reads_back(params, req.params, comma + m4);
    assert((comma + m4).skip(1) =~= m4);
    member_reads_back(method, Json::String(req.method), comma + m3);
    assert((comma + m3).skip(1) =~= m3);
    member_reads_back(jsonrpc, Json::String(req.jsonrpc), comma + m2);
    assert((comma + m2).skip(1) =~= m2);
    assert(req.text().skip(1) =~= m1);
    assert(jsonrpc.len() == 7 && params.len() == 6 && method.len() == 6 && id.len() == 2);
    assert(params[0] != method[0]);
    let read = Map::<Seq<char>, Json>::empty().insert(id, id_value).insert(
        params,
        req.params,
    ).insert(method, Json::String(req.method)).insert(jsonrpc, Json::String(req.jsonrpc));
    assert(read_members(m1) == Some((read, Seq::<char>::empty())));
    assert(read =~= map![
        jsonrpc => Json::String(req.jsonrpc),
        method => Json::String(req.method),
        params => req.params,
        id => id_value,
    ]);
}

/// Two requests with the same text are the same request.
#[verifier::spinoff_prover]
#[verifier::rlimit(30)]
pub proof fn request_texts_differ(a: RequestView, b: RequestView)
    requires
        simple(a.params),
        simple(b.params),
        a.text() == b.text(),
    ensures
        a == b,
{
    request_reads_back(a);
    request_reads_back(b);
    let x = read_value(a.text())->Some_0.0->Object_0;
    let jsonrpc = seq!['j', 's', 'o', 'n', 'r', 'p', 'c'];
    let method = seq!['m', 'e', 't', 'h', 'o', 'd'];
    let params = seq!['p', 'a', 'r', 'a', 'm', 's'];
    let id = seq!['i', 'd'];
    assert(jsonrpc.len() == 7 && params.len() == 6 && method.len() == 6 && id.len() == 2);
    assert(params[0] != method[0]);
    assert(x[jsonrpc] == Json::String(a.jsonrpc));
    assert(x[jsonrpc] == Json::String(b.jsonrpc));
    assert(x[method] == Json::String(a.method));
    assert(x[method] == Json::String(b.method));
    assert(x[params] == a.params);
    assert(x[params] == b.params);
    let a_id = match a.id {
        Some(id) => Json::String(id),
        None => Json::Null,
    };
    let b_id = match b.id {
        Some(id) => Json::String(id),
        None => Json::Null,
    };
    assert(x[id] == a_id);
    assert(x[id] == b_id);
    assert(a.id == b.id);
    assert(a.jsonrpc == b.jsonrpc && a.method == b.method && a.params == b.params);
}

/// What a request holds stands whole in its text, right after the name of the member, whatever
/// its parameters are.
pub proof fn request_text_holds_its_members(req: RequestView)
    ensures
        ({
            let jsonrpc = crate::json::json_written(Json::String(req.jsonrpc));
            let method = crate::json::json_written(Json::String(req.method));
            let params = crate::json::json_written(req.params);
            let id = match req.id {
                Some(id) => crate::json::json_written(Json::String(id)),
                None => seq!['n', 'u', 'l', 'l'],
            };
            let at_jsonrpc: int = 11;
            let at_method: int = at_jsonrpc + jsonrpc.len() + 10;
            let at_params: int = at_method + method.len() + 10;
            let at_id: int = at_params + params.len() + 6;
            let t = req.text();
            &&& t.len() == at_id + id.len() + 1
            &&& t.subrange(0, at_jsonrpc) == "{\"jsonrpc\":"@
            &&& t.subrange(at_jsonrpc, at_jsonrpc + jsonrpc.len()) == jsonrpc
            &&& t.subrange(at_method - 10, at_method) == ",\"method\":"@
            &&& t.subrange(at_method, at_method + method.len()) == method
            &&& t.subrange(at_params - 10, at_params) == ",\"params\":"@
            &&& t.subrange(at_params, at_params + params.len()) == params
            &&& t.subrange(at_id - 6, at_id) == ",\"id\":"@
            &&& t.subrange(at_id, at_id + id.len()) == id
            &&& t[t.len() - 1] == '}'
        }),
{
    reveal_strlit("{\"jsonrpc\":");
    reveal_strlit(",\"method\":");
    reveal_strlit(",\"params\":");
    reveal_strlit(",\"id\":");
    reveal_strlit("}");
    reveal_strlit("null");
    assert("null"@ =~= seq!['n', 'u', 'l', 'l']);
}

} // verus!
