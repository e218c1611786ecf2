//! The client: what it asks, what it waits for, and what it does with what comes in.
//!
//! Three parties share a client. A caller builds a request, hands it to the writer together
//! with a waiter, and waits. The writer registers the waiter and sends the request. The reader
//! takes what comes in and finds the waiter that it is for. The functions here decide; moving
//! messages and waiting is left to whoever runs them. A waiter is of any type `T` through which
//! a response can be handed over.

use vstd::prelude::*;

use crate::id_map::IdMap;
use crate::json::{Json, JsonValue};
use crate::method::Method;
use crate::request::{new_params, RequestObject, RequestView};
use crate::response::{CallError, ResponseObject};
use crate::text::decimal_text;

verus! {

/// How long a call waits for its response, in seconds.
pub const CALL_TIMEOUT_SECS: u64 = 10;

/// A client of an aria2 server.
pub struct Client<T> {
    secret: Option<String>,
    next_id: u64,
    id_map: IdMap<T>,
}

/// The state of a client: the secret that its calls carry, the number that the next id is made
/// from, and the waiters by the ids that they wait for.
#[verifier::ext_equal]
pub struct ClientView<T> {
    pub secret: Option<Seq<char>>,
    pub next_id: u64,
    pub waiters: Map<Seq<char>, T>,
}

/// What the reader finds next.
pub enum Incoming {
    /// The connection is at its end.
    End,
    /// The connection failed.
    Broken,
    /// A message that is not a text.
    Other,
    /// A text that is not a response object.
    Undecodable,
    /// A text that is a response object.
    Response(ResponseObject),
}

/// Why the reader cannot go on.
#[derive(Clone, Copy, Debug, PartialEq, Eq, Structural)]
pub enum ReadFailure {
    /// The connection failed.
    Broken,
    /// A response has an id that nothing waits for.
    WaiterNotFound,
}

/// What the reader is to do.
pub enum ReadAction<T> {
    /// Stop reading.
    Stop,
    /// Stop reading, in a panic.
    Panic(ReadFailure),
    /// Go on to the next message.
    Skip,
    /// Hand the response to the waiter and go on.
    Reply(T, ResponseObject),
    /// Hand the notification to everyone who listens and go on.
    Notify(ResponseObject),
}

/// What a call is to do once its request has been handed over, or could not be.
pub enum CallStep {
    /// Wait this many seconds for the response with this id.
    Wait { id: String, seconds: u64 },
    /// Return.
    Done(Result<Option<ResponseObject>, CallError>),
}

/// How the waiting of a call ended.
pub enum WaitOutcome {
    /// The response came.
    Response(ResponseObject),
    /// The waiter was thrown away.
    Dropped,
    /// Nothing came in time.
    TimedOut,
}

impl<T> ClientView<T> {
    /// The id that the next call gets.
    pub open spec fn id(self) -> Seq<char> {
        crate::text::decimal(self.next_id as nat)
    }

    /// The state once the next id has been given out. After the last number comes 0.
    pub open spec fn issued(self) -> ClientView<T> {
        ClientView {
            next_id: if self.next_id == u64::MAX {
                0
            } else {
                (self.next_id + 1) as u64
            },
            ..self
        }
    }

    /// The request that the next call makes: the token, where there is a secret, and then the
    /// call's own parameters.
    pub open spec fn request(self, method: Method, args: Seq<Json>) -> RequestView {
        RequestView {
            jsonrpc: "2.0"@,
            method: crate::method::method_name(method)@,
            params: Json::Array(crate::request::token_params(self.secret) + args),
            id: Some(self.id()),
        }
    }

    /// The state once the writer has taken the request up: the waiter is registered, unless
    /// the request is a notification.
    pub open spec fn registered(self, req: RequestView, waiter: T) -> ClientView<T> {
        if req.is_request() {
            ClientView { waiters: self.waiters.insert(req.id->Some_0, waiter), ..self }
        } else {
            self
        }
    }

    /// The state once nothing waits for the id any more.
    pub open spec fn forgotten(self, id: Seq<char>) -> ClientView<T> {
        ClientView { waiters: self.waiters.remove(id), ..self }
    }

    /// The state once the writer has sent the request, or has failed to.
    pub open spec fn written(self, req: RequestView, sent: bool) -> ClientView<T> {
        if !sent && req.is_request() {
            self.forgotten(req.id->Some_0)
        } else {
            self
        }
    }

    /// The state once the reader has taken something in.
    pub open spec fn read(self, incoming: Incoming) -> ClientView<T> {
        match incoming {
            Incoming::Response(res) => match res.id {
                Some(id) => self.forgotten(id@),
                None => self,
            },
            _ => self,
        }
    }

    /// What the reader is to do.
    pub open spec fn read_action(self, incoming: Incoming) -> ReadAction<T> {
        match incoming {
            Incoming::End => ReadAction::Stop,
            Incoming::Broken => ReadAction::Panic(ReadFailure::Broken),
            Incoming::Other | Incoming::Undecodable => ReadAction::Skip,
            Incoming::Response(res) => match res.id {
                Some(id) => if self.waiters.contains_key(id@) {
                    ReadAction::Reply(self.waiters[id@], res)
                } else {
                    ReadAction::Panic(ReadFailure::WaiterNotFound)
                },
                None => ReadAction::Notify(res),
            },
        }
    }

    /// The state once the call with the id has stopped waiting.
    pub open spec fn waited(self, id: Seq<char>, outcome: WaitOutcome) -> ClientView<T> {
        if outcome is TimedOut {
            self.forgotten(id)
        } else {
            self
        }
    }
}

/// The id that a call waits for, where its request is no notification.
pub open spec fn awaited(req: RequestView) -> Option<Seq<char>> {
    if req.is_request() {
        req.id
    } else {
        None
    }
}

/// What a call does once its request has been handed to the writer, or could not be.
pub open spec fn sent_step(awaited: Option<String>, sent: bool) -> CallStep {
    if !sent {
        CallStep::Done(Err(CallError::Closed))
    } else {
        match awaited {
            Some(id) => CallStep::Wait { id, seconds: CALL_TIMEOUT_SECS },
            None => CallStep::Done(Ok(None)),
        }
    }
}

/// What a call returns that waited.
pub open spec fn wait_result(outcome: WaitOutcome) -> Result<Option<ResponseObject>, CallError> {
    match outcome {
        WaitOutcome::Response(res) => Ok(Some(res)),
        WaitOutcome::Dropped => Err(CallError::Dropped),
        WaitOutcome::TimedOut => Err(CallError::TimedOut),
    }
}

/// The id that the call of a request waits for: none where the request is a notification.
pub fn awaited_id(req: &RequestObject) -> (r: Option<String>)
    ensures
        crate::text::optional_text(r) == awaited(req@),
{
    if req.is_request() {
        req.id.clone()
    } else {
        None
    }
}

/// What a call does once its request has been handed to the writer (`sent`), or could not be.
pub fn call_sent(awaited: Option<String>, sent: bool) -> (r: CallStep)
    ensures
        r == sent_step(awaited, sent),
{
    if !sent {
        return CallStep::Done(Err(CallError::Closed));
    }
    match awaited {
        Some(id) => CallStep::Wait { id, seconds: CALL_TIMEOUT_SECS },
        None => CallStep::Done(Ok(None)),
    }
}

impl<T> View for Client<T> {
    type V = ClientView<T>;

    closed spec fn view(&self) -> ClientView<T> {
        ClientView {
            secret: crate::text::optional_text(self.secret),
            next_id: self.next_id,
            waiters: self.id_map@,
        }
    }
}

impl<T> Client<T> {
    /// A client whose calls carry the secret, where there is one. Its first id is 1, and
    /// nothing waits.
    pub fn new(secret: Option<&str>) -> (r: Client<T>)
        ensures
            r@ == (ClientView::<T> {
                secret: match secret {
                    Some(secret) => Some(secret@),
                    None => None,
                },
                next_id: 1,
                waiters: Map::empty(),
            }),
    {
        let secret = match secret {
            Some(secret) => Some(secret.to_string()),
            None => None,
        };
        Client { secret, next_id: 1, id_map: IdMap::new() }
    }

    /// Gives out the next id.
    pub fn next_id(&mut self) -> (r: String)
        ensures
            r@ == old(self)@.id(),
            final(self)@ == old(self)@.issued(),
    {
        let id = decimal_text(self.next_id);
        self.next_id = self.next_id.wrapping_add(1);
        id
    }

    fn params(&self) -> (r: Vec<JsonValue>)
        ensures
            crate::json::items_view(r@) == crate::request::token_params(self@.secret),
    {
        match &self.secret {
            Some(secret) => new_params(Some(secret.as_str())),
            None => new_params(None),
        }
    }

    /// Asks for the version of aria2.
    pub fn get_version(&mut self) -> (r: RequestObject)
        ensures
            r@ == old(self)@.request(Method::GetVersion, Seq::empty()),
            final(self)@ == old(self)@.issued(),
    {
        self.request_of_nothing(Method::GetVersion)
    }

    /// Asks to download what is at `uri`.
    pub fn add_uri(&mut self, uri: &str) -> (r: RequestObject)
        ensures
            r@ == old(self)@.request(
                Method::AddUri,
                seq![Json::Array(seq![Json::String(uri@)])],
            ),
            final(self)@ == old(self)@.issued(),
    {
        let mut uris: Vec<JsonValue> = Vec::new();
        uris.push(JsonValue::String(uri.to_string()));
        assert(crate::json::items_view(uris@) =~= seq![Json::String(uri@)]);
        let mut params = self.params();
        let ghost token = params@;
        params.push(JsonValue::Array(uris));
        assert(crate::json::items_view(params@) =~= crate::json::items_view(token)
            + seq![Json::Array(seq![Json::String(uri@)])]);
        RequestObject::new(Method::AddUri, JsonValue::Array(params), Some(self.next_id()))
    }

    /// Asks to remove a download.
    pub fn remove(&mut self, gid: &str) -> (r: RequestObject)
        ensures
            r@ == old(self)@.request(Method::Remove, seq![Json::String(gid@)]),
            final(self)@ == old(self)@.issued(),
    {
        self.request_of_gid(Method::Remove, gid)
    }

    /// Asks to pause a download.
    pub fn pause(&mut self, gid: &str) -> (r: RequestObject)
        ensures
            r@ == old(self)@.request(Method::Pause, seq![Json::String(gid@)]),
            final(self)@ == old(self)@.issued(),
    {
        self.request_of_gid(Method::Pause, gid)
    }

    /// Asks to go on with a paused download.
    pub fn unpause(&mut self, gid: &str) -> (r: RequestObject)
        ensures
            r@ == old(self)@.request(Method::Unpause, seq![Json::String(gid@)]),
            final(self)@ == old(self)@.issued(),
    {
        self.request_of_gid(Method::Unpause, gid)
    }

    /// Asks for the status of a download.
    pub fn tell_status(&mut self, gid: &str) -> (r: RequestObject)
        ensures
            r@ == old(self)@.request(Method::TellStatus, seq![Json::String(gid@)]),
            final(self)@ == old(self)@.issued(),
    {
        self.request_of_gid(Method::TellStatus, gid)
    }

    fn request_of_nothing(&mut self, method: Method) -> (r: RequestObject)
        ensures
            r@ == old(self)@.request(method, Seq::empty()),
            final(self)@ == old(self)@.issued(),
    {
        let params = self.params();
        assert(crate::json::items_view(params@) =~= crate::request::token_params(self@.secret)
            + Seq::<Json>::empty());
        RequestObject::new(method, JsonValue::Array(params), Some(self.next_id()))
    }

    fn request_of_gid(&mut self, method: Method, gid: &str) -> (r: RequestObject)
        ensures
            r@ == old(self)@.request(method, seq![Json::String(gid@)]),
            final(self)@ == old(self)@.issued(),
    {
        let mut params = self.params();
        let ghost token = params@;
        params.push(JsonValue::String(gid.to_string()));
        assert(crate::json::items_view(params@) =~= crate::json::items_view(token)
            + seq![Json::String(gid@)]);
        RequestObject::new(method, JsonValue::Array(params), Some(self.next_id()))
    }

    /// Asks for the overall statistics.
    pub fn get_global_stat(&mut self) -> (r: RequestObject)
        ensures
            r@ == old(self)@.request(Method::GetGlobalStat, Seq::empty()),
            final(self)@ == old(self)@.issued(),
    {
        self.request_of_nothing(Method::GetGlobalStat)
    }

    /// Asks to throw away what is known of the downloads that are over.
    pub fn purge_download_result(&mut self) -> (r: RequestObject)
        ensures
            r@ == old(self)@.request(Method::PurgeDownloadResult, Seq::empty()),
            final(self)@ == old(self)@.issued(),
    {
        self.request_of_nothing(Method::PurgeDownloadResult)
    }

    /// The writer takes a request up: it registers the waiter, unless the request is a
    /// notification, and only then has the text that it sends.
    pub fn write_message(&mut self, req: &RequestObject, waiter: T) -> (r: String)
        ensures
            r@ == req@.text(),
            final(self)@ == old(self)@.registered(req@, waiter),
    {
        if req.is_request() {
            self.id_map.insert(req.id().to_string(), waiter);
        }
        req.to_text()
    }

    /// The writer has sent the text of a request, or has failed to. Where it failed, nothing
    /// waits for the response any more, and the writer stops. Says whether the writer goes on.
    pub fn message_written(&mut self, req: &RequestObject, sent: bool) -> (r: bool)
        ensures
            r == sent,
            final(self)@ == old(self)@.written(req@, sent),
    {
        if !sent {
            if req.is_request() {
                let _waiter = self.id_map.remove(req.id());
            }
            return false;
        }
        true
    }

    /// The reader takes something in: a response is for the waiter under its id, which no
    /// longer waits; what has no id is a notification.
    pub fn read_message(&mut self, incoming: Incoming) -> (r: ReadAction<T>)
        ensures
            r == old(self)@.read_action(incoming),
            final(self)@ == old(self)@.read(incoming),
    {
        match incoming {
            Incoming::End => ReadAction::Stop,
            Incoming::Broken => ReadAction::Panic(ReadFailure::Broken),
            Incoming::Other => ReadAction::Skip,
            Incoming::Undecodable => ReadAction::Skip,
            Incoming::Response(res) => match &res.id {
                Some(id) => match self.id_map.remove(id.as_str()) {
                    Some(waiter) => ReadAction::Reply(waiter, res),
                    None => ReadAction::Panic(ReadFailure::WaiterNotFound),
                },
                None => ReadAction::Notify(res),
            },
        }
    }

    /// A call has stopped waiting for the response with the id. Where it waited in vain,
    /// nothing waits for that response any more.
    pub fn call_waited(&mut self, id: &str, outcome: WaitOutcome) -> (r: Result<
        Option<ResponseObject>,
        CallError,
    >)
        ensures
            r == wait_result(outcome),
            final(self)@ == old(self)@.waited(id@, outcome),
    {
        match outcome {
            WaitOutcome::Response(res) => Ok(Some(res)),
            WaitOutcome::Dropped => Err(CallError::Dropped),
            WaitOutcome::TimedOut => {
                let _waiter = self.id_map.remove(id);
                Err(CallError::TimedOut)
            },
        }
    }
}

} // verus!
