//! What each operation of the client does, from what goes in to what comes out.
//!
//! `call_ensures(f, args, r)` says that `r` is what a call of `f` with `args` may return; where an
//! argument is a mutable reference, `old` and `final` are what it led to before and after.

use vstd::prelude::*;

use crate::client::{
    awaited_id, call_sent, CallStep, Client, ClientView, Incoming, ReadAction, ReadFailure,
    WaitOutcome,
};
use crate::id_map::IdMap;
use crate::json::{Json, JsonValue};
use crate::method::Method;
use crate::request::{new_params, RequestObject};
use crate::response::{CallError, ResponseObject};

verus! {

/// Whether the text is `token:` and then the whole secret.
pub open spec fn is_token(t: Seq<char>, secret: Seq<char>) -> bool {
    &&& t.len() == 6 + secret.len()
    &&& t.subrange(0, 6) == seq!['t', 'o', 'k', 'e', 'n', ':']
    &&& t.subrange(6, t.len() as int) == secret
}

/// Whether the parameters are the token, where there is a secret, and then `args`, all of them and
/// in their order.
pub open spec fn carries(params: Seq<Json>, secret: Option<Seq<char>>, args: Seq<Json>) -> bool {
    match secret {
        Some(secret) => {
            &&& params.len() == 1 + args.len()
            &&& params[0] is String
            &&& is_token(params[0]->String_0, secret)
            &&& params.subrange(1, params.len() as int) == args
        },
        None => params == args,
    }
}

/// Whether `req` is how a client in the state `s` asks for a method, with the parameters `args`.
pub open spec fn asks<T>(
    s: ClientView<T>,
    req: RequestObject,
    method: Seq<char>,
    args: Seq<Json>,
) -> bool {
    &&& req.jsonrpc@ == "2.0"@
    &&& req.method@ == method
    &&& req.params@ is Array
    &&& carries(req.params@->Array_0, s.secret, args)
    &&& req.id is Some
    &&& is_numeral(req.id->Some_0@, s.next_id as int)
}

/// Whether the text is the decimal numeral of `n`: digits alone that say `n`, with no zero before
/// them.
pub open spec fn is_numeral(t: Seq<char>, n: int) -> bool {
    &&& t.len() > 0
    &&& forall|i: int| 0 <= i < t.len() ==> '0' <= #[trigger] t[i] <= '9'
    &&& t.len() > 1 ==> t[0] != '0'
    &&& crate::text_laws::numeral_value(t) == n
}

/// Whether the one state is the other once an id has been given out: the count has gone up by one,
/// or has started again at 0 after the last number, and all else is as it was.
pub open spec fn counted<T>(before: ClientView<T>, after: ClientView<T>) -> bool {
    &&& after.secret == before.secret
    &&& after.waiters == before.waiters
    &&& after.next_id == if before.next_id == 0xffff_ffff_ffff_ffff {
        0
    } else {
        before.next_id + 1
    }
}

/// Whether the one state is the other but for what waits for the id.
pub open spec fn same_but_for<T>(
    before: ClientView<T>,
    after: ClientView<T>,
    id: Seq<char>,
) -> bool {
    &&& after.secret == before.secret
    &&& after.next_id == before.next_id
    &&& forall|other: Seq<char>|
        other != id ==> {
            &&& #[trigger] after.waiters.contains_key(other) == before.waiters.contains_key(other)
            &&& before.waiters.contains_key(other) ==> after.waiters[other] == before.waiters[other]
        }
}

proof fn token_is_token(secret: Seq<char>)
    ensures
        is_token("token:"@ + secret, secret),
{
    reveal_strlit("token:");
    let t = "token:"@ + secret;
    assert(t.subrange(0, 6) =~= seq!['t', 'o', 'k', 'e', 'n', ':']);
    assert(t.subrange(6, t.len() as int) =~= secret);
}

proof fn decimal_is_numeral(n: nat)
    ensures
        is_numeral(crate::text::decimal(n), n as int),
{
    crate::text_laws::numeral_reads_back(n);
}

proof fn request_asks<T>(s: ClientView<T>, req: RequestObject, method: Method, args: Seq<Json>)
    requires
        req@ == s.request(method, args),
    ensures
        asks(s, req, crate::method::method_name(method)@, args),
{
    decimal_is_numeral(s.next_id as nat);
    let params = req.params@->Array_0;
    match s.secret {
        Some(secret) => {
            token_is_token(secret);
            assert(params.subrange(1, params.len() as int) =~= args);
        },
        None => {
            assert(params =~= args);
        },
    }
}

/// The parameters that a call starts with are one string, `token:` and the whole secret; and
/// none where there is no secret.
pub proof fn params_start_with_the_token(secret: Option<&str>, r: Vec<JsonValue>)
    requires
        call_ensures(new_params, (secret,), r),
    ensures
        secret is None ==> r@.len() == 0,
        secret matches Some(secret) ==> {
            &&& r@.len() == 1
            &&& r@[0]@ is String
            &&& is_token(r@[0]@->String_0, secret@)
        },
{
    let items = crate::json::items_view(r@);
    assert(items.len() == r@.len());
    if let Some(secret) = secret {
        token_is_token(secret@);
        assert(items[0] == r@[0]@);
    }
}

/// Two secrets never start a call with the same parameters.
pub proof fn tokens_tell_secrets_apart(
    a: &str,
    b: &str,
    a_params: Vec<JsonValue>,
    b_params: Vec<JsonValue>,
)
    requires
        call_ensures(new_params, (Some(a),), a_params),
        call_ensures(new_params, (Some(b),), b_params),
        a@ != b@,
    ensures
        a_params@[0]@ != b_params@[0]@,
{
    params_start_with_the_token(Some(a), a_params);
    params_start_with_the_token(Some(b), b_params);
}

/// A new client has the secret it is given, counts from 1, and has nothing that waits.
pub proof fn client_starts_out<T>(secret: Option<&str>, r: Client<T>, id: Seq<char>)
    requires
        call_ensures(Client::<T>::new, (secret,), r),
    ensures
        secret is None ==> r@.secret is None,
        secret matches Some(secret) ==> r@.secret == Some(secret@),
        r@.next_id == 1,
        !r@.waiters.contains_key(id),
{
}

/// An id is the numeral of the count, which goes on.
pub proof fn id_is_the_count<T>(client: &mut Client<T>, r: String)
    requires
        call_ensures(Client::<T>::next_id, (client,), r),
    ensures
        is_numeral(r@, old(client)@.next_id as int),
        counted(old(client)@, final(client)@),
{
    decimal_is_numeral(client@.next_id as nat);
}

/// To add a URI is to ask for `aria2.addUri` with a list of that one URI.
pub proof fn add_uri_asks_for_the_uri<T>(client: &mut Client<T>, uri: &str, r: RequestObject)
    requires
        call_ensures(Client::<T>::add_uri, (client, uri), r),
    ensures
        asks(
            old(client)@,
            r,
            "aria2.addUri"@,
            seq![Json::Array(seq![Json::String(uri@)])],
        ),
        counted(old(client)@, final(client)@),
{
    request_asks(client@, r, Method::AddUri, seq![Json::Array(seq![Json::String(uri@)])]);
}

/// To remove a download is to ask for `aria2.remove` with its gid.
pub proof fn remove_asks_for_the_gid<T>(client: &mut Client<T>, gid: &str, r: RequestObject)
    requires
        call_ensures(Client::<T>::remove, (client, gid), r),
    ensures
        asks(old(client)@, r, "aria2.remove"@, seq![Json::String(gid@)]),
        counted(old(client)@, final(client)@),
{
    request_asks(client@, r, Method::Remove, seq![Json::String(gid@)]);
}

/// To pause a download is to ask for `aria2.pause` with its gid.
pub proof fn pause_asks_for_the_gid<T>(client: &mut Client<T>, gid: &str, r: RequestObject)
    requires
        call_ensures(Client::<T>::pause, (client, gid), r),
    ensures
        asks(old(client)@, r, "aria2.pause"@, seq![Json::String(gid@)]),
        counted(old(client)@, final(client)@),
{
    request_asks(client@, r, Method::Pause, seq![Json::String(gid@)]);
}

/// To go on with a download is to ask for `aria2.unpause` with its gid.
pub proof fn unpause_asks_for_the_gid<T>(client: &mut Client<T>, gid: &str, r: RequestObject)
    requires
        call_ensures(Client::<T>::unpause, (client, gid), r),
    ensures
        asks(old(client)@, r, "aria2.unpause"@, seq![Json::String(gid@)]),
        counted(old(client)@, final(client)@),
{
    request_asks(client@, r, Method::Unpause, seq![Json::String(gid@)]);
}

/// To be told the status of a download is to ask for `aria2.tellStatus` with its gid.
pub proof fn tell_status_asks_for_the_gid<T>(client: &mut Client<T>, gid: &str, r: RequestObject)
    requires
        call_ensures(Client::<T>::tell_status, (client, gid), r),
    ensures
        asks(old(client)@, r, "aria2.tellStatus"@, seq![Json::String(gid@)]),
        counted(old(client)@, final(client)@),
{
    request_asks(client@, r, Method::TellStatus, seq![Json::String(gid@)]);
}

/// To get the version is to ask for `aria2.getVersion`, with nothing but the token.
pub proof fn get_version_asks_for_it<T>(client: &mut Client<T>, r: RequestObject)
    requires
        call_ensures(Client::<T>::get_version, (client,), r),
    ensures
        asks(old(client)@, r, "aria2.getVersion"@, Seq::empty()),
        counted(old(client)@, final(client)@),
{
    request_asks(client@, r, Method::GetVersion, Seq::empty());
}

/// To get the overall statistics is to ask for `aria2.getGlobalStat`, with nothing but the token.
pub proof fn get_global_stat_asks_for_it<T>(client: &mut Client<T>, r: RequestObject)
    requires
        call_ensures(Client::<T>::get_global_stat, (client,), r),
    ensures
        asks(old(client)@, r, "aria2.getGlobalStat"@, Seq::empty()),
        counted(old(client)@, final(client)@),
{
    request_asks(client@, r, Method::GetGlobalStat, Seq::empty());
}

/// To purge is to ask for `aria2.purgeDownloadResult`, with nothing but the token.
pub proof fn purge_asks_for_it<T>(client: &mut Client<T>, r: RequestObject)
    requires
        call_ensures(Client::<T>::purge_download_result, (client,), r),
    ensures
        asks(old(client)@, r, "aria2.purgeDownloadResult"@, Seq::empty()),
        counted(old(client)@, final(client)@),
{
    request_asks(client@, r, Method::PurgeDownloadResult, Seq::empty());
}

/// What is written of a request is its text. Read as JSON, it is an object of its four members and
/// nothing else, each with what the request holds, where its parameters hold neither numbers nor
/// objects. And the waiter waits from then on for the id of the request, where that has one that
/// is not empty.
pub proof fn written_request_reads_back<T>(
    client: &mut Client<T>,
    req: RequestObject,
    waiter: T,
    r: String,
    text: String,
)
    requires
        call_ensures(Client::<T>::write_message, (client, &req, waiter), r),
        call_ensures(RequestObject::to_text, (&req,), text),
    ensures
        r@ == text@,
        crate::reader::simple(req.params@) ==> crate::reader::read_value(r@) == Some(
            (
                Json::Object(
                    map![
                        seq!['j', 's', 'o', 'n', 'r', 'p', 'c'] => Json::String(req.jsonrpc@),
                        seq!['m', 'e', 't', 'h', 'o', 'd'] => Json::String(req.method@),
                        seq!['p', 'a', 'r', 'a', 'm', 's'] => req.params@,
                        seq!['i', 'd'] => match req.id {
                            Some(id) => Json::String(id@),
                            None => Json::Null,
                        },
                    ],
                ),
                Seq::<char>::empty(),
            ),
        ),
        req.id matches Some(id) ==> id@.len() > 0 ==> {
            &&& final(client)@.waiters.contains_key(id@)
            &&& final(client)@.waiters[id@] == waiter
            &&& same_but_for(old(client)@, final(client)@, id@)
        },
        req.id is None || req.id->Some_0@.len() == 0 ==> final(client)@ == old(client)@,
{
    if crate::reader::simple(req.params@) {
        crate::reader::request_reads_back(req@);
    }
}

/// The writer goes on exactly where it could send; and where it could not, nothing waits any more
/// for the id of the request.
pub proof fn failed_write_is_forgotten<T>(
    client: &mut Client<T>,
    req: RequestObject,
    sent: bool,
    r: bool,
)
    requires
        call_ensures(Client::<T>::message_written, (client, &req, sent), r),
    ensures
        r == sent,
        sent ==> final(client)@ == old(client)@,
        req.id is None || req.id->Some_0@.len() == 0 ==> final(client)@ == old(client)@,
        req.id matches Some(id) ==> !sent ==> id@.len() > 0 ==> {
            &&& !final(client)@.waiters.contains_key(id@)
            &&& same_but_for(old(client)@, final(client)@, id@)
        },
{
}

/// What the reader does, for all that can come in: it stops at the end and fails where the
/// connection does; it passes over what is no response; a response without an id it passes on,
/// whole; and one with an id it hands, whole, to what waits for that id, which waits no longer, or
/// fails where nothing does.
pub proof fn reader_sorts_what_comes_in<T>(
    client: &mut Client<T>,
    incoming: Incoming,
    r: ReadAction<T>,
)
    requires
        call_ensures(Client::<T>::read_message, (client, incoming), r),
    ensures
        incoming is End ==> r is Stop,
        incoming is Broken ==> r == ReadAction::<T>::Panic(ReadFailure::Broken),
        incoming is Other ==> r is Skip,
        incoming is Undecodable ==> r is Skip,
        !(incoming is Response) ==> final(client)@ == old(client)@,
        incoming matches Incoming::Response(res) ==> match res.id {
            None => r == ReadAction::<T>::Notify(res) && final(client)@ == old(client)@,
            Some(id) => {
                &&& old(client)@.waiters.contains_key(id@) ==> r == ReadAction::Reply(
                    old(client)@.waiters[id@],
                    res,
                )
                &&& !old(client)@.waiters.contains_key(id@) ==> r == ReadAction::<T>::Panic(
                    ReadFailure::WaiterNotFound,
                )
                &&& !final(client)@.waiters.contains_key(id@)
                &&& same_but_for(old(client)@, final(client)@, id@)
            },
        },
{
}

/// A call that waited returns what ended the waiting: the very response that came, whatever is in
/// it; and an error only where none came, one where the waiter was thrown away and another where
/// the time ran out. Only then does anything change: nothing waits for its id any more.
pub proof fn waiting_returns_what_came<T>(
    client: &mut Client<T>,
    id: &str,
    outcome: WaitOutcome,
    r: Result<Option<ResponseObject>, CallError>,
)
    requires
        call_ensures(Client::<T>::call_waited, (client, id, outcome), r),
    ensures
        outcome matches WaitOutcome::Response(res) ==> r == Ok::<Option<ResponseObject>, CallError>(
            Some(res),
        ),
        outcome is Dropped <==> (r is Err && r->Err_0 is Dropped),
        outcome is TimedOut <==> (r is Err && r->Err_0 is TimedOut),
        r is Err ==> outcome is Dropped || outcome is TimedOut,
        !(outcome is TimedOut) ==> final(client)@ == old(client)@,
        outcome is TimedOut ==> {
            &&& !final(client)@.waiters.contains_key(id@)
            &&& same_but_for(old(client)@, final(client)@, id@)
        },
{
}

/// A call whose request could not be handed over is told so. One whose request was handed over
/// waits ten seconds for exactly the id it has to wait for, and returns at once, without a
/// response, where it has none to wait for.
pub proof fn handing_over_leads_to_waiting(awaited: Option<String>, sent: bool, r: CallStep)
    requires
        call_ensures(call_sent, (awaited, sent), r),
    ensures
        !sent ==> r == CallStep::Done(Err(CallError::Closed)),
        sent && awaited is None ==> r == CallStep::Done(Ok(None)),
        awaited matches Some(id) ==> sent ==> r == (CallStep::Wait { id, seconds: 10 }),
        crate::client::CALL_TIMEOUT_SECS == 10,
{
}

/// A call waits for the id of its request, and for nothing where there is none or an empty one.
pub proof fn call_waits_for_its_id(req: RequestObject, r: Option<String>)
    requires
        call_ensures(awaited_id, (&req,), r),
    ensures
        req.id is None ==> r is None,
        req.id matches Some(id) ==> id@.len() == 0 ==> r is None,
        req.id matches Some(id) ==> id@.len() > 0 ==> r is Some && r->Some_0@ == id@,
{
}

/// An id, of whatever length but none, makes a request of what would be a notification.
pub proof fn id_makes_a_request(req: RequestObject, r: bool)
    requires
        call_ensures(RequestObject::is_request, (&req,), r),
    ensures
        r <==> req.id is Some && req.id->Some_0@.len() != 0,
{
}

/// The id of a request is the one it holds.
pub proof fn id_is_the_one_held(req: RequestObject, r: &str)
    requires
        req.id is Some,
        call_ensures(RequestObject::id, (&req,), r),
    ensures
        r@ == req.id->Some_0@,
{
}

/// A new request holds what it is made from.
pub proof fn request_holds_what_it_is_made_from(
    method: Method,
    params: JsonValue,
    id: Option<String>,
    r: RequestObject,
)
    requires
        call_ensures(RequestObject::new, (method, params, id), r),
    ensures
        r.jsonrpc@ == "2.0"@,
        r.method@ == crate::method::method_name(method)@,
        r.params@ == params@,
        id is None ==> r.id is None,
        id matches Some(id) ==> r.id is Some && r.id->Some_0@ == id@,
{
    assert(r@.id == crate::text::optional_text(r.id));
}

/// Every method has the name under which aria2 documents it.
pub proof fn methods_are_named(method: Method, r: &'static str)
    requires
        call_ensures(<&'static str as From<Method>>::from, (method,), r),
    ensures
        r@ == match method {
            Method::AddUri => "aria2.addUri"@,
            Method::Remove => "aria2.remove"@,
            Method::Pause => "aria2.pause"@,
            Method::Unpause => "aria2.unpause"@,
            Method::TellStatus => "aria2.tellStatus"@,
            Method::GetGlobalStat => "aria2.getGlobalStat"@,
            Method::GetVersion => "aria2.getVersion"@,
            Method::PurgeDownloadResult => "aria2.purgeDownloadResult"@,
        },
{
}

/// A method has the same name where it is only lent.
pub proof fn lent_methods_are_named(method: Method, r: &'static str, lent: &'static str)
    requires
        call_ensures(<&'static str as From<Method>>::from, (method,), r),
        call_ensures(<&'static str as From<&Method>>::from, (&method,), lent),
    ensures
        lent@ == r@,
{
}

/// A copy of a JSON value stands for the same value.
pub proof fn copies_stand_for_the_same(v: JsonValue, r: JsonValue)
    requires
        call_ensures(<JsonValue as Clone>::clone, (&v,), r),
    ensures
        r@ == v@,
{
}

/// A new map has nothing under any id.
pub proof fn map_starts_out_empty<T>(r: IdMap<T>, id: Seq<char>)
    requires
        call_ensures(IdMap::<T>::new, (), r),
    ensures
        !r@.contains_key(id),
{
}

/// What is put under an id is found there, in place of what was, and every other id is left alone.
pub proof fn insert_puts_under_one_id<T>(
    map: &mut IdMap<T>,
    id: String,
    value: T,
    r: (),
    other: Seq<char>,
)
    requires
        call_ensures(IdMap::<T>::insert, (map, id, value), r),
        other != id@,
    ensures
        final(map)@.contains_key(id@),
        final(map)@[id@] == value,
        final(map)@.contains_key(other) == old(map)@.contains_key(other),
        old(map)@.contains_key(other) ==> final(map)@[other] == old(map)@[other],
{
}

/// What is taken out from under an id is what was there, which is there no longer, and every other
/// id is left alone.
pub proof fn remove_takes_from_under_one_id<T>(
    map: &mut IdMap<T>,
    id: &str,
    r: Option<T>,
    other: Seq<char>,
)
    requires
        call_ensures(IdMap::<T>::remove, (map, id), r),
        other != id@,
    ensures
        old(map)@.contains_key(id@) ==> r == Some(old(map)@[id@]),
        !old(map)@.contains_key(id@) ==> r is None,
        !final(map)@.contains_key(id@),
        final(map)@.contains_key(other) == old(map)@.contains_key(other),
        old(map)@.contains_key(other) ==> final(map)@[other] == old(map)@[other],
{
}

} // verus!
