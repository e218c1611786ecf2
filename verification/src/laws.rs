//! What holds of the client as a whole, whatever the order in which callers, writer and reader
//! come to act.

use vstd::prelude::*;

use crate::client::{CallStep, ClientView, Incoming, ReadAction, ReadFailure, WaitOutcome};
use crate::decode::Field;
use crate::json::Json;
use crate::method::Method;
use crate::request::RequestView;
use crate::response::ResponseObject;

verus! {

/// One thing that happens to a client.
pub enum Step<T> {
    /// A caller takes an id for its request.
    Issue,
    /// The writer takes a request up, with its waiter.
    Register(RequestView, T),
    /// The writer has sent a request, or has failed to.
    Written(RequestView, bool),
    /// The reader takes something in.
    Read(Incoming),
    /// A call stops waiting.
    Waited(Seq<char>, WaitOutcome),
}

/// The state after one step.
pub open spec fn step<T>(s: ClientView<T>, what: Step<T>) -> ClientView<T> {
    match what {
        Step::Issue => s.issued(),
        Step::Register(req, waiter) => s.registered(req, waiter),
        Step::Written(req, sent) => s.written(req, sent),
        Step::Read(incoming) => s.read(incoming),
        Step::Waited(id, outcome) => s.waited(id, outcome),
    }
}

/// The state after some steps.
pub open spec fn run<T>(s: ClientView<T>, steps: Seq<Step<T>>) -> ClientView<T>
    decreases steps.len(),
{
    if steps.len() == 0 {
        s
    } else {
        step(run(s, steps.drop_last()), steps.last())
    }
}

/// Whether a step is about the id: a request with it is taken up or fails to be sent, a
/// response with it comes in, or the call that waits for it times out.
pub open spec fn concerns<T>(what: Step<T>, id: Seq<char>) -> bool {
    match what {
        Step::Issue => false,
        Step::Register(req, _) => req.is_request() && req.id == Some(id),
        Step::Written(req, sent) => !sent && req.is_request() && req.id == Some(id),
        Step::Read(incoming) => response_for(incoming, id),
        Step::Waited(waited, outcome) => outcome is TimedOut && waited == id,
    }
}

/// Whether what comes in is a response with the id.
pub open spec fn response_for(incoming: Incoming, id: Seq<char>) -> bool {
    match incoming {
        Incoming::Response(res) => crate::text::optional_text(res.id) == Some(id),
        _ => false,
    }
}

/// Steps that are not about an id leave alone what waits for it, and whether anything does.
pub proof fn other_ids_undisturbed<T>(s: ClientView<T>, steps: Seq<Step<T>>, id: Seq<char>)
    requires
        forall|i: int| 0 <= i < steps.len() ==> !concerns(#[trigger] steps[i], id),
    ensures
        run(s, steps).waiters.contains_key(id) == s.waiters.contains_key(id),
        s.waiters.contains_key(id) ==> run(s, steps).waiters[id] == s.waiters[id],
    decreases steps.len(),
{
    if steps.len() > 0 {
        let front = steps.drop_last();
        assert forall|i: int| 0 <= i < front.len() implies !concerns(#[trigger] front[i], id) by {
            assert(front[i] == steps[i]);
        }
        other_ids_undisturbed(s, front, id);
        assert(!concerns(steps[steps.len() - 1], id));
    }
}

/// Once the writer has taken a request up, the response with its id goes to the waiter that
/// came with the request, whatever else happened in between that was not about that id.
pub proof fn response_reaches_its_waiter<T>(
    s: ClientView<T>,
    req: RequestView,
    waiter: T,
    between: Seq<Step<T>>,
    res: ResponseObject,
)
    requires
        req.is_request(),
        crate::text::optional_text(res.id) == req.id,
        forall|i: int| 0 <= i < between.len() ==> !concerns(#[trigger] between[i], req.id->Some_0),
    ensures
        run(s.registered(req, waiter), between).read_action(Incoming::Response(res))
            == ReadAction::Reply(waiter, res),
{
    other_ids_undisturbed(s.registered(req, waiter), between, req.id->Some_0);
}

/// Two calls that wait at the same time do not get each other's responses, whichever comes
/// first.
pub proof fn calls_do_not_mix<T>(
    s: ClientView<T>,
    a: RequestView,
    a_waiter: T,
    a_res: ResponseObject,
    b: RequestView,
    b_waiter: T,
    b_res: ResponseObject,
)
    requires
        a.is_request(),
        b.is_request(),
        a.id != b.id,
        crate::text::optional_text(a_res.id) == a.id,
        crate::text::optional_text(b_res.id) == b.id,
    ensures
        ({
            let waiting = s.registered(a, a_waiter).registered(b, b_waiter);
            let a_read = Incoming::Response(a_res);
            let b_read = Incoming::Response(b_res);
            &&& waiting.read_action(a_read) == ReadAction::Reply(a_waiter, a_res)
            &&& waiting.read_action(b_read) == ReadAction::Reply(b_waiter, b_res)
            &&& waiting.read(a_read).read_action(b_read) == ReadAction::Reply(b_waiter, b_res)
            &&& waiting.read(b_read).read_action(a_read) == ReadAction::Reply(a_waiter, a_res)
        }),
{
}

/// A response is handed over once: after the reader has taken one in, nothing waits for its id,
/// and a second response with that id is for nobody, until a request with that id is taken up
/// again.
pub proof fn response_is_handed_over_once<T>(
    s: ClientView<T>,
    first: ResponseObject,
    between: Seq<Step<T>>,
    second: ResponseObject,
)
    requires
        first.id is Some,
        crate::text::optional_text(second.id) == crate::text::optional_text(first.id),
        forall|i: int|
            0 <= i < between.len() ==> !concerns(#[trigger] between[i], first.id->Some_0@),
    ensures
        run(s.read(Incoming::Response(first)), between).read_action(Incoming::Response(second))
            == ReadAction::<T>::Panic(ReadFailure::WaiterNotFound),
{
    other_ids_undisturbed(s.read(Incoming::Response(first)), between, first.id->Some_0@);
}

/// A request that could not be sent leaves no trace, where nothing waited for its id before.
pub proof fn failed_write_leaves_no_trace<T>(s: ClientView<T>, req: RequestView, waiter: T)
    requires
        req.is_request() ==> !s.waiters.contains_key(req.id->Some_0),
    ensures
        s.registered(req, waiter).written(req, false) == s,
{
    assert(s.registered(req, waiter).written(req, false) =~= s);
}

/// A call whose request the writer had taken up leaves no trace when it times out, where nothing
/// waited for its id before; and a response that comes too late is for nobody.
pub proof fn timed_out_call_leaves_no_trace<T>(
    s: ClientView<T>,
    req: RequestView,
    waiter: T,
    late: ResponseObject,
)
    requires
        req.is_request(),
        !s.waiters.contains_key(req.id->Some_0),
        crate::text::optional_text(late.id) == req.id,
    ensures
        s.registered(req, waiter).written(req, true).waited(req.id->Some_0, WaitOutcome::TimedOut)
            == s,
        s.registered(req, waiter).written(req, true).waited(
            req.id->Some_0,
            WaitOutcome::TimedOut,
        ).read_action(Incoming::Response(late)) == ReadAction::<T>::Panic(
            ReadFailure::WaiterNotFound,
        ),
{
    assert(s.registered(req, waiter).written(req, true).waited(
        req.id->Some_0,
        WaitOutcome::TimedOut,
    ) =~= s);
}

/// The state where `waiter` waits for the id besides.
pub open spec fn with_waiter<T>(s: ClientView<T>, id: Seq<char>, waiter: T) -> ClientView<T> {
    ClientView { waiters: s.waiters.insert(id, waiter), ..s }
}

/// A waiter makes no difference to steps that are not about its id: they lead to the state that
/// they lead to without it, with the waiter besides.
pub proof fn waiter_does_not_interfere<T>(
    s: ClientView<T>,
    id: Seq<char>,
    waiter: T,
    steps: Seq<Step<T>>,
)
    requires
        forall|i: int| 0 <= i < steps.len() ==> !concerns(#[trigger] steps[i], id),
    ensures
        run(with_waiter(s, id, waiter), steps) == with_waiter(run(s, steps), id, waiter),
    decreases steps.len(),
{
    if steps.len() > 0 {
        let front = steps.drop_last();
        assert forall|i: int| 0 <= i < front.len() implies !concerns(#[trigger] front[i], id) by {
            assert(front[i] == steps[i]);
        }
        waiter_does_not_interfere(s, id, waiter, front);
        assert(!concerns(steps[steps.len() - 1], id));
        assert(step(with_waiter(run(s, front), id, waiter), steps.last()) =~= with_waiter(
            step(run(s, front), steps.last()),
            id,
            waiter,
        ));
    }
}

/// Once the writer has taken up the request of a call, and whatever else happens after that,
/// nothing is left of the call when it is over, where nothing waited for its id before and
/// nothing else was about that id: whether its request could not be sent, it timed out or its
/// response came, the client is as if the request had never been taken up. (Of a request that is
/// taken up only after its call timed out, see `late_request_stays_registered`.)
pub proof fn ended_call_leaves_no_trace<T>(
    s: ClientView<T>,
    req: RequestView,
    waiter: T,
    between: Seq<Step<T>>,
    res: ResponseObject,
)
    requires
        req.is_request(),
        !s.waiters.contains_key(req.id->Some_0),
        crate::text::optional_text(res.id) == req.id,
        forall|i: int| 0 <= i < between.len() ==> !concerns(#[trigger] between[i], req.id->Some_0),
    ensures
        run(s.registered(req, waiter), between).written(req, false) == run(s, between),
        run(s.registered(req, waiter), between).waited(req.id->Some_0, WaitOutcome::TimedOut)
            == run(s, between),
        run(s.registered(req, waiter), between).read(Incoming::Response(res)) == run(s, between),
{
    let id = req.id->Some_0;
    waiter_does_not_interfere(s, id, waiter, between);
    other_ids_undisturbed(s, between, id);
    assert(with_waiter(run(s, between), id, waiter).forgotten(id) =~= run(s, between));
}

/// Once a call is over whose request the writer had taken up, nothing waits for its id, and that
/// stays so until a request with that id is taken up again: whether its request could not be
/// sent, it timed out or its response came, and whatever else happened since it was taken up and
/// happens after. A response with its id is for nobody then.
pub proof fn ended_call_is_not_waited_for<T>(
    s: ClientView<T>,
    req: RequestView,
    waiter: T,
    between: Seq<Step<T>>,
    res: ResponseObject,
    after: Seq<Step<T>>,
    late: ResponseObject,
)
    requires
        req.is_request(),
        crate::text::optional_text(res.id) == req.id,
        crate::text::optional_text(late.id) == req.id,
        forall|i: int| 0 <= i < between.len() ==> !concerns(#[trigger] between[i], req.id->Some_0),
        forall|i: int| 0 <= i < after.len() ==> !concerns(#[trigger] after[i], req.id->Some_0),
    ensures
        ({
            let id = req.id->Some_0;
            let before = run(s.registered(req, waiter), between);
            let unsent = run(before.written(req, false), after);
            let timed_out = run(before.waited(id, WaitOutcome::TimedOut), after);
            let answered = run(before.read(Incoming::Response(res)), after);
            let nobody = ReadAction::<T>::Panic(ReadFailure::WaiterNotFound);
            &&& !unsent.waiters.contains_key(id)
            &&& !timed_out.waiters.contains_key(id)
            &&& !answered.waiters.contains_key(id)
            &&& unsent.read_action(Incoming::Response(late)) == nobody
            &&& timed_out.read_action(Incoming::Response(late)) == nobody
            &&& answered.read_action(Incoming::Response(late)) == nobody
        }),
{
    let id = req.id->Some_0;
    let before = run(s.registered(req, waiter), between);
    other_ids_undisturbed(before.written(req, false), after, id);
    other_ids_undisturbed(before.waited(id, WaitOutcome::TimedOut), after, id);
    other_ids_undisturbed(before.read(Incoming::Response(res)), after, id);
}

/// A request that the writer takes up only after its call timed out is registered all the same,
/// and stays so, whatever happens that is not about its id, until a response with its id comes in,
/// which goes to its waiter, or it cannot be sent.
pub proof fn late_request_stays_registered<T>(
    s: ClientView<T>,
    req: RequestView,
    waiter: T,
    queued: Seq<Step<T>>,
    after: Seq<Step<T>>,
    res: ResponseObject,
)
    requires
        req.is_request(),
        crate::text::optional_text(res.id) == req.id,
        forall|i: int| 0 <= i < after.len() ==> !concerns(#[trigger] after[i], req.id->Some_0),
    ensures
        ({
            let id = req.id->Some_0;
            let timed_out = run(s.waited(id, WaitOutcome::TimedOut), queued);
            let late = run(timed_out.registered(req, waiter), after);
            &&& late.waiters.contains_key(id) && late.waiters[id] == waiter
            &&& late.read_action(Incoming::Response(res)) == ReadAction::Reply(waiter, res)
            &&& !late.read(Incoming::Response(res)).waiters.contains_key(id)
            &&& !late.written(req, false).waiters.contains_key(id)
        }),
{
    let timed_out = run(s.waited(req.id->Some_0, WaitOutcome::TimedOut), queued);
    other_ids_undisturbed(timed_out.registered(req, waiter), after, req.id->Some_0);
}

/// What the reader takes in that is not a response with an id changes nothing; a notification
/// is passed on as it came, and what cannot be read is passed over.
pub proof fn only_responses_change_the_client<T>(s: ClientView<T>, incoming: Incoming)
    requires
        incoming matches Incoming::Response(res) ==> res.id is None,
    ensures
        s.read(incoming) == s,
        incoming matches Incoming::Response(res) ==> s.read_action(incoming)
            == ReadAction::<T>::Notify(res),
        incoming is Other || incoming is Undecodable ==> s.read_action(incoming)
            == ReadAction::<T>::Skip,
{
}

/// The state after `n` ids have been given out.
pub open spec fn issued_times<T>(s: ClientView<T>, n: nat) -> ClientView<T>
    decreases n,
{
    if n == 0 {
        s
    } else {
        issued_times(s, (n - 1) as nat).issued()
    }
}

/// The numbers of the ids go up by one and start over after the last.
pub proof fn ids_count_up<T>(s: ClientView<T>, n: nat)
    ensures
        issued_times(s, n).next_id == (s.next_id + n) % 0x1_0000_0000_0000_0000,
        issued_times(s, n).secret == s.secret,
        issued_times(s, n).waiters == s.waiters,
    decreases n,
{
    if n > 0 {
        ids_count_up(s, (n - 1) as nat);
    }
}

/// Of any 2^64 ids that are given out one after the other no two are equal.
pub proof fn ids_differ<T>(s: ClientView<T>, a: nat, b: nat)
    requires
        a < b,
        b - a < 0x1_0000_0000_0000_0000,
    ensures
        issued_times(s, a).id() != issued_times(s, b).id(),
{
    ids_count_up(s, a);
    ids_count_up(s, b);
    crate::text::decimal_injective(
        issued_times(s, a).next_id as nat,
        issued_times(s, b).next_id as nat,
    );
}

/// Whether everything that is waited for has an id that was given out before, and the ids have
/// not started over.
pub open spec fn ids_in_use<T>(s: ClientView<T>) -> bool {
    &&& s.next_id >= 1
    &&& forall|id: Seq<char>| #[trigger]
        s.waiters.contains_key(id) ==> exists|k: nat|
            1 <= k < s.next_id && id == #[trigger] crate::text::decimal(k)
}

/// Whether a step keeps to the ids that were given out, and does not give out the last one.
pub open spec fn orderly<T>(s: ClientView<T>, what: Step<T>) -> bool {
    match what {
        Step::Issue => s.next_id < u64::MAX,
        Step::Register(req, _) => req.is_request() ==> exists|k: nat|
            1 <= k < s.next_id && req.id->Some_0 == #[trigger] crate::text::decimal(k),
        _ => true,
    }
}

/// A new client waits for nothing, so all that it waits for has an id that was given out.
pub proof fn new_client_ids_in_use<T>(s: ClientView<T>)
    requires
        s.next_id == 1,
        s.waiters == Map::<Seq<char>, T>::empty(),
    ensures
        ids_in_use(s),
{
}

proof fn step_keeps_ids_in_use<T>(s: ClientView<T>, what: Step<T>)
    requires
        ids_in_use(s),
        orderly(s, what),
    ensures
        ids_in_use(step(s, what)),
{
    let t = step(s, what);
    assert forall|id: Seq<char>| #[trigger] t.waiters.contains_key(id) implies exists|k: nat|
        1 <= k < t.next_id && id == #[trigger] crate::text::decimal(k) by {
        if s.waiters.contains_key(id) {
            let k = choose|k: nat| 1 <= k < s.next_id && id == #[trigger] crate::text::decimal(k);
            assert(1 <= k < t.next_id && id == crate::text::decimal(k));
        } else if let Step::Register(req, _) = what {
            let k = choose|k: nat|
                1 <= k < s.next_id && req.id->Some_0 == #[trigger] crate::text::decimal(k);
            assert(1 <= k < t.next_id && id == crate::text::decimal(k));
        }
    }
}

/// To take up the request of a call is orderly, in whatever later state: its id was given out.
pub proof fn calls_are_orderly<T>(
    s: ClientView<T>,
    method: Method,
    args: Seq<Json>,
    later: ClientView<T>,
    waiter: T,
)
    requires
        1 <= s.next_id < later.next_id,
    ensures
        orderly(later, Step::Register(s.request(method, args), waiter)),
{
    assert(1 <= s.next_id as nat && s.request(method, args).id->Some_0 == crate::text::decimal(
        s.next_id as nat,
    ));
}

/// However many orderly steps are taken, all that is waited for has an id that was given out.
pub proof fn ids_stay_in_use<T>(s: ClientView<T>, steps: Seq<Step<T>>)
    requires
        ids_in_use(s),
        forall|i: int|
            0 <= i < steps.len() ==> orderly(run(s, steps.take(i)), #[trigger] steps[i]),
    ensures
        ids_in_use(run(s, steps)),
    decreases steps.len(),
{
    if steps.len() > 0 {
        let front = steps.drop_last();
        assert forall|i: int| 0 <= i < front.len() implies orderly(
            run(s, front.take(i)),
            #[trigger] front[i],
        ) by {
            assert(front[i] == steps[i]);
            assert(front.take(i) =~= steps.take(i));
        }
        ids_stay_in_use(s, front);
        assert(orderly(run(s, steps.take(steps.len() - 1)), steps[steps.len() - 1]));
        assert(steps.take(steps.len() - 1) =~= front);
        step_keeps_ids_in_use(run(s, front), steps.last());
    }
}

/// Where all that is waited for has an id that was given out, the next id is not among them,
/// and neither is the empty one.
pub proof fn next_id_is_free<T>(s: ClientView<T>)
    requires
        ids_in_use(s),
    ensures
        !s.waiters.contains_key(s.id()),
        !s.waiters.contains_key(Seq::<char>::empty()),
{
    if s.waiters.contains_key(s.id()) {
        let k = choose|k: nat|
            1 <= k < s.next_id && s.id() == #[trigger] crate::text::decimal(k);
        crate::text::decimal_injective(k, s.next_id as nat);
    }
    if s.waiters.contains_key(Seq::<char>::empty()) {
        let k = choose|k: nat|
            1 <= k < s.next_id && Seq::<char>::empty() == #[trigger] crate::text::decimal(k);
        crate::text::decimal_nonempty(k);
    }
}

/// Every call waits for a response: its request has an id that is not empty.
pub proof fn calls_are_requests<T>(s: ClientView<T>, method: Method, args: Seq<Json>)
    ensures
        s.request(method, args).is_request(),
        crate::client::awaited(s.request(method, args)) == Some(s.id()),
{
    crate::text::decimal_nonempty(s.next_id as nat);
}

/// A call that is no notification never returns without a response: where its request has been
/// handed over it waits, and what ends the waiting is a response or an error.
pub proof fn requests_return_a_response(
    req: RequestView,
    awaited: Option<String>,
    sent: bool,
    step: CallStep,
    outcome: WaitOutcome,
)
    requires
        req.is_request(),
        crate::text::optional_text(awaited) == crate::client::awaited(req),
        step == crate::client::sent_step(awaited, sent),
    ensures
        step matches CallStep::Done(result) ==> result is Err,
        step matches CallStep::Wait { id, .. } ==> Some(id@) == req.id,
        crate::client::wait_result(outcome) matches Ok(result) ==> result is Some,
{
}

/// No method name has anything to escape, and its length and its first letter tell it apart.
proof fn method_name_shape(method: Method)
    ensures
        crate::json::plain(crate::method::method_name(method)@),
        ({
            let name = crate::method::method_name(method)@;
            (name.len(), name[6]) == match method {
                Method::AddUri => (12nat, 'a'),
                Method::Remove => (12nat, 'r'),
                Method::Pause => (11nat, 'p'),
                Method::Unpause => (13nat, 'u'),
                Method::TellStatus => (16nat, 't'),
                Method::GetGlobalStat => (19nat, 'g'),
                Method::GetVersion => (16nat, 'g'),
                Method::PurgeDownloadResult => (25nat, 'p'),
            }
        }),
{
    reveal_strlit("aria2.addUri");
    reveal_strlit("aria2.remove");
    reveal_strlit("aria2.pause");
    reveal_strlit("aria2.unpause");
    reveal_strlit("aria2.tellStatus");
    reveal_strlit("aria2.getGlobalStat");
    reveal_strlit("aria2.getVersion");
    reveal_strlit("aria2.purgeDownloadResult");
}

/// The names of the methods differ.
pub proof fn method_names_differ(a: Method, b: Method)
    ensures
        crate::method::method_name(a)@ == crate::method::method_name(b)@ ==> a == b,
{
    method_name_shape(a);
    method_name_shape(b);
}

/// What a call sends, whatever the secret and the parameters: nothing but them is ever escaped.
pub proof fn calls_on_the_wire<T>(s: ClientView<T>, method: Method, args: Seq<Json>)
    ensures
        s.request(method, args).text() == crate::request::framed(
            crate::text::quoted("2.0"@),
            crate::text::quoted(crate::method::method_name(method)@),
            seq!['['] + crate::json::written_items(crate::request::token_params(s.secret) + args)
                + seq![']'],
            crate::text::quoted(s.id()),
        ),
{
    reveal_strlit("2.0");
    crate::json::plain_is_not_escaped("2.0"@);
    method_name_shape(method);
    crate::json::plain_is_not_escaped(crate::method::method_name(method)@);
    crate::text::decimal_is_digits(s.next_id as nat);
    crate::json::plain_is_not_escaped(s.id());
}

/// Who waits for what after a step: only a request that is taken up adds a waiter, its own under
/// its id; only a failed write, a response and a timeout take one away, that of their id; every
/// other id keeps its waiter or goes on having none.
pub proof fn steps_change_one_id<T>(s: ClientView<T>, what: Step<T>, id: Seq<char>)
    ensures
        what matches Step::Register(req, waiter) ==> req.id == Some(id) ==> id.len() > 0 ==> step(
            s,
            what,
        ).waiters.contains_key(id) && step(s, what).waiters[id] == waiter,
        what matches Step::Written(req, sent) ==> !sent ==> req.id == Some(id) ==> id.len() > 0
            ==> !step(s, what).waiters.contains_key(id),
        what matches Step::Read(Incoming::Response(res)) ==> res.id is Some ==> res.id->Some_0@ == id
            ==> !step(s, what).waiters.contains_key(id),
        what matches Step::Waited(waited, outcome) ==> outcome is TimedOut ==> waited == id ==> !step(
            s,
            what,
        ).waiters.contains_key(id),
        (match what {
            Step::Issue => true,
            Step::Register(req, _) => req.id != Some(id) || id.len() == 0,
            Step::Written(req, sent) => sent || req.id != Some(id) || id.len() == 0,
            Step::Read(Incoming::Response(res)) => res.id is None || res.id->Some_0@ != id,
            Step::Read(_) => true,
            Step::Waited(waited, outcome) => !(outcome is TimedOut) || waited != id,
        }) ==> {
            &&& step(s, what).waiters.contains_key(id) == s.waiters.contains_key(id)
            &&& s.waiters.contains_key(id) ==> step(s, what).waiters[id] == s.waiters[id]
        },
{
}

/// No step changes the secret, and none but that of taking an id changes the number that the next
/// id is made from.
pub proof fn steps_keep_secret_and_count<T>(s: ClientView<T>, what: Step<T>)
    ensures
        step(s, what).secret == s.secret,
        !(what is Issue) ==> step(s, what).next_id == s.next_id,
        what is Issue && s.next_id < u64::MAX ==> step(s, what).next_id == s.next_id + 1,
        what is Issue && s.next_id == u64::MAX ==> step(s, what).next_id == 0,
        what is Issue ==> step(s, what).waiters == s.waiters,
{
}

/// Two secrets never make the same token, and a secret never makes none.
pub proof fn secrets_make_different_tokens(a: Option<Seq<char>>, b: Option<Seq<char>>)
    ensures
        crate::request::token_params(a) == crate::request::token_params(b) ==> a == b,
        crate::request::token_params(a).len() == if a is Some {
            1nat
        } else {
            0nat
        },
{
    if crate::request::token_params(a) == crate::request::token_params(b) {
        assert(crate::request::token_params(a).len() == crate::request::token_params(b).len());
        if let (Some(x), Some(y)) = (a, b) {
            assert(crate::request::token_params(a)[0] == crate::request::token_params(b)[0]);
            assert(("token:"@ + x).skip("token:"@.len() as int) =~= x);
            assert(("token:"@ + y).skip("token:"@.len() as int) =~= y);
        }
    }
}

/// Clients with different secrets never send the same text for the same call.
pub proof fn secrets_send_different_requests<T>(
    a: ClientView<T>,
    b: ClientView<T>,
    method: Method,
    args: Seq<Json>,
)
    requires
        a.secret != b.secret,
        forall|i: int| 0 <= i < args.len() ==> crate::reader::simple(#[trigger] args[i]),
    ensures
        a.request(method, args).text() != b.request(method, args).text(),
{
    let x = a.request(method, args);
    let y = b.request(method, args);
    calls_are_simple(a, method, args);
    calls_are_simple(b, method, args);
    if x.text() == y.text() {
        crate::reader::request_texts_differ(x, y);
        let a_token = crate::request::token_params(a.secret);
        let b_token = crate::request::token_params(b.secret);
        assert(a_token + args == b_token + args);
        assert((a_token + args).len() == (b_token + args).len());
        assert(a_token =~= (a_token + args).take(a_token.len() as int));
        assert(b_token =~= (b_token + args).take(b_token.len() as int));
        secrets_make_different_tokens(a.secret, b.secret);
    }
}

/// The parameters of a call hold neither numbers nor objects where the call's own do not.
pub proof fn calls_are_simple<T>(s: ClientView<T>, method: Method, args: Seq<Json>)
    requires
        forall|i: int| 0 <= i < args.len() ==> crate::reader::simple(#[trigger] args[i]),
    ensures
        crate::reader::simple(s.request(method, args).params),
{
    let token = crate::request::token_params(s.secret);
    assert forall|i: int| 0 <= i < (token + args).len() implies crate::reader::simple(
        #[trigger] (token + args)[i],
    ) by {
        if i >= token.len() {
            assert((token + args)[i] == args[i - token.len()]);
        }
    }
}

/// Members of other names than a record's fields do not matter for it.
pub proof fn other_members_do_not_matter(
    m: Map<Seq<char>, Json>,
    fields: Seq<Field>,
    name: Seq<char>,
    value: Json,
)
    requires
        forall|i: int| 0 <= i < fields.len() ==> (#[trigger] fields[i]).name@ != name,
    ensures
        crate::decode::record(Json::Object(m.insert(name, value)), fields)
            == crate::decode::record(Json::Object(m), fields),
{
    let n = m.insert(name, value);
    assert forall|i: int| 0 <= i < fields.len() implies crate::decode::mistyped(
        n,
        #[trigger] fields[i],
    ) == crate::decode::mistyped(m, fields[i]) by {}
    same_missing(m, n, fields, 0);
    if crate::decode::record(Json::Object(m), fields) is Ok {
        assert(crate::decode::record(Json::Object(n), fields)->Ok_0
            =~= crate::decode::record(Json::Object(m), fields)->Ok_0);
    }
}

proof fn same_missing(
    m: Map<Seq<char>, Json>,
    n: Map<Seq<char>, Json>,
    fields: Seq<Field>,
    from: int,
)
    requires
        0 <= from <= fields.len(),
        forall|i: int|
            0 <= i < fields.len() ==> m.contains_key((#[trigger] fields[i]).name@)
                == n.contains_key(fields[i].name@),
    ensures
        crate::decode::first_missing(m, fields, from) == crate::decode::first_missing(
            n,
            fields,
            from,
        ),
    decreases fields.len() - from,
{
    if from < fields.len() {
        same_missing(m, n, fields, from + 1);
    }
}

} // verus!
