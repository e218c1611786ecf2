//! Requests, as JSON-RPC has them.

use vstd::prelude::*;
use vstd::string::*;

use crate::json::{Json, JsonValue};
use crate::method::Method;
use crate::text::{debug_optional, debug_str};

verus! {

/// A JSON-RPC request. One without an id, or with an empty one, is a notification: nothing
/// answers it.
pub struct RequestObject {
    pub jsonrpc: &'static str,
    pub method: &'static str,
    pub params: JsonValue,
    pub id: Option<String>,
}

/// What a request says.
pub struct RequestView {
    pub jsonrpc: Seq<char>,
    pub method: Seq<char>,
    pub params: Json,
    pub id: Option<Seq<char>>,
}

impl View for RequestObject {
    type V = RequestView;

    open spec fn view(&self) -> RequestView {
        RequestView {
            jsonrpc: self.jsonrpc@,
            method: self.method@,
            params: self.params@,
            id: crate::text::optional_text(self.id),
        }
    }
}

/// An id in JSON.
pub open spec fn id_json(id: Option<Seq<char>>) -> Json {
    match id {
        Some(id) => Json::String(id),
        None => Json::Null,
    }
}

/// The text of a request, over the texts of its members: a JSON object with the four members in
/// this order and no blanks between them.
pub open spec fn framed(
    jsonrpc: Seq<char>,
    method: Seq<char>,
    params: Seq<char>,
    id: Seq<char>,
) -> Seq<char> {
    "{\"jsonrpc\":"@ + jsonrpc + ",\"method\":"@ + method + ",\"params\":"@ + params + ",\"id\":"@
        + id + "}"@
}

/// The text of a request, from the texts of its members.
pub fn frame(jsonrpc: &str, method: &str, params: &str, id: &str) -> (r: String)
    ensures
        r@ == framed(jsonrpc@, method@, params@, id@),
{
    let mut text = "{\"jsonrpc\":".to_string();
    text.append(jsonrpc);
    text.append(",\"method\":");
    text.append(method);
    text.append(",\"params\":");
    text.append(params);
    text.append(",\"id\":");
    text.append(id);
    text.append("}");
    text
}

/// The text that `{:?}` shows for a request, over its fields as `{:?}` shows them.
pub open spec fn request_debug(
    jsonrpc: Seq<char>,
    method: Seq<char>,
    params: Seq<char>,
    id: Seq<char>,
) -> Seq<char> {
    "RequestObject { jsonrpc: "@ + jsonrpc + ", method: "@ + method + ", params: "@ + params
        + ", id: "@ + id + " }"@
}

/// A request as `{:?}` shows it, from its fields as `{:?}` shows them.
pub fn show_request(jsonrpc: &str, method: &str, params: &str, id: &str) -> (r: String)
    ensures
        r@ == request_debug(jsonrpc@, method@, params@, id@),
{
    let mut text = "RequestObject { jsonrpc: ".to_string();
    text.append(jsonrpc);
    text.append(", method: ");
    text.append(method);
    text.append(", params: ");
    text.append(params);
    text.append(", id: ");
    text.append(id);
    text.append(" }");
    text
}

impl RequestView {
    /// The text that `{:?}` shows for a request.
    pub open spec fn debug(self) -> Seq<char> {
        request_debug(
            crate::text::shown_str(self.jsonrpc),
            crate::text::shown_str(self.method),
            crate::json::json_shown(self.params),
            crate::text::optional_debug(self.id),
        )
    }

    /// Whether the request has an id that a response can name.
    pub open spec fn is_request(self) -> bool {
        self.id is Some && self.id->Some_0.len() > 0
    }

    /// The text that goes over the wire.
    pub open spec fn text(self) -> Seq<char> {
        framed(
            crate::json::json_written(Json::String(self.jsonrpc)),
            crate::json::json_written(Json::String(self.method)),
            crate::json::json_written(self.params),
            crate::json::json_written(id_json(self.id)),
        )
    }
}

impl RequestObject {
    /// A request of the method with the parameters.
    pub fn new(method: Method, params: JsonValue, id: Option<String>) -> (r: RequestObject)
        ensures
            r@ == (RequestView {
                jsonrpc: "2.0"@,
                method: crate::method::method_name(method)@,
                params: params@,
                id: crate::text::optional_text(id),
            }),
    {
        RequestObject { jsonrpc: "2.0", method: method.into(), params, id }
    }

    /// Whether a response is to be expected.
    pub fn is_request(&self) -> (r: bool)
        ensures
            r == self@.is_request(),
    {
        match &self.id {
            Some(id) => !id.as_str().is_empty(),
            None => false,
        }
    }

    /// The id of a request that has one.
    pub fn id(&self) -> (r: &str)
        requires
            self.id is Some,
        ensures
            self@.id == Some(r@),
    {
        self.id.as_ref().unwrap().as_str()
    }

    /// The request as `{:?}` shows a struct of these fields.
    pub fn to_debug(&self) -> (r: String)
        ensures
            r@ == self@.debug(),
    {
        show_request(
            debug_str(self.jsonrpc).as_str(),
            debug_str(self.method).as_str(),
            self.params.to_debug().as_str(),
            debug_optional(&self.id).as_str(),
        )
    }

    /// The request as JSON.
    pub fn to_text(&self) -> (r: String)
        ensures
            r@ == self@.text(),
    {
        let id = match &self.id {
            Some(id) => JsonValue::String(id.clone()),
            None => JsonValue::Null,
        };
        frame(
            JsonValue::String(self.jsonrpc.to_string()).to_text().as_str(),
            JsonValue::String(self.method.to_string()).to_text().as_str(),
            self.params.to_text().as_str(),
            id.to_text().as_str(),
        )
    }
}

/// The parameters that every call starts with: the secret token, where there is a secret.
pub open spec fn token_params(secret: Option<Seq<char>>) -> Seq<Json> {
    match secret {
        Some(secret) => seq![Json::String("token:"@ + secret)],
        None => Seq::empty(),
    }
}

/// The parameters that every call starts with.
pub fn new_params(secret: Option<&str>) -> (r: Vec<JsonValue>)
    ensures
        crate::json::items_view(r@) == token_params(
            match secret {
                Some(secret) => Some(secret@),
                None => None,
            },
        ),
{
    let mut params: Vec<JsonValue> = Vec::new();
    if let Some(secret) = secret {
        let mut token = "token:".to_string();
        token.append(secret);
        params.push(JsonValue::String(token));
        assert(crate::json::items_view(params@) =~= token_params(Some(secret@)));
    } else {
        assert(crate::json::items_view(params@) =~= token_params(None));
    }
    params
}

} // verus!
