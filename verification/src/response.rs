//! Responses, as JSON-RPC has them, and what the calls make of them.

use vstd::prelude::*;
use vstd::string::*;

use crate::decode::DecodeError;
use crate::json::{Json, JsonValue};
use crate::records::{GlobalStat, Status, Version};
use crate::text::{debug_optional, debug_str, show_optional, signed_decimal_text};

verus! {

/// What the server says: the response to a request where it has an id, a notification where it
/// has none.
#[derive(Clone)]
pub struct ResponseObject {
    pub result: Option<JsonValue>,
    pub error: Option<ErrorObject>,
    pub jsonrpc: String,
    pub id: Option<String>,
    pub method: Option<String>,
    pub params: Option<JsonValue>,
}

/// The error that a response reports.
#[derive(Clone, Debug)]
pub struct ErrorObject {
    pub code: i16,
    pub message: Option<String>,
    pub data: Option<String>,
}

/// Why a call came to nothing.
#[derive(Debug)]
pub enum CallError {
    /// The request could not be handed to the writer, which has stopped.
    Closed,
    /// The response did not come in time.
    TimedOut,
    /// The writer or the reader gave the waiting call up.
    Dropped,
    /// The result is not what the method returns.
    Decode(DecodeError),
    /// The server reports an error.
    Rpc(ErrorObject),
}

/// The text of an error, over its message and its data as `{:?}` shows them.
pub open spec fn error_text(code: int, message: Seq<char>, data: Seq<char>) -> Seq<char> {
    "code: "@ + crate::text::signed_decimal(code) + ", message: "@ + message + ", data: "@ + data
}

/// The text of an error, from its message and its data as `{:?}` shows them.
pub fn show_error(code: i16, message: &str, data: &str) -> (r: String)
    ensures
        r@ == error_text(code as int, message@, data@),
{
    let mut text = "code: ".to_string();
    text.append(signed_decimal_text(code).as_str());
    text.append(", message: ");
    text.append(message);
    text.append(", data: ");
    text.append(data);
    text
}

impl ErrorObject {
    /// The text of an error.
    pub open spec fn text(self) -> Seq<char> {
        error_text(
            self.code as int,
            crate::text::optional_debug(crate::text::optional_text(self.message)),
            crate::text::optional_debug(crate::text::optional_text(self.data)),
        )
    }

    /// The text that `{:?}` shows for an error.
    pub open spec fn debug(self) -> Seq<char> {
        "ErrorObject { "@ + self.text() + " }"@
    }

    /// The error as a text for people.
    pub fn to_string(&self) -> (r: String)
        ensures
            r@ == self.text(),
    {
        show_error(
            self.code,
            debug_optional(&self.message).as_str(),
            debug_optional(&self.data).as_str(),
        )
    }

    /// The error as `{:?}` shows it.
    fn to_debug(&self) -> (r: String)
        ensures
            r@ == self.debug(),
    {
        let mut text = "ErrorObject { ".to_string();
        text.append(self.to_string().as_str());
        text.append(" }");
        text
    }
}

/// The text that `{:?}` shows for an optional JSON value.
pub open spec fn optional_json_debug(v: Option<JsonValue>) -> Seq<char> {
    crate::text::shown_optional(
        match v {
            Some(v) => Some(crate::json::json_shown(v@)),
            None => None,
        },
    )
}

/// The text that `{:?}` shows for an optional error.
pub open spec fn optional_error_debug(e: Option<ErrorObject>) -> Seq<char> {
    crate::text::shown_optional(
        match e {
            Some(e) => Some(e.debug()),
            None => None,
        },
    )
}

fn debug_optional_json(v: &Option<JsonValue>) -> (r: String)
    ensures
        r@ == optional_json_debug(*v),
{
    match v {
        Some(v) => show_optional(Some(v.to_debug())),
        None => show_optional(None),
    }
}

fn debug_optional_error(e: &Option<ErrorObject>) -> (r: String)
    ensures
        r@ == optional_error_debug(*e),
{
    match e {
        Some(e) => show_optional(Some(e.to_debug())),
        None => show_optional(None),
    }
}

/// The text of a response, over its fields as `{:?}` shows them.
pub open spec fn response_text(
    result: Seq<char>,
    error: Seq<char>,
    jsonrpc: Seq<char>,
    id: Seq<char>,
    method: Seq<char>,
    params: Seq<char>,
) -> Seq<char> {
    "result: "@ + result + "\nerror: "@ + error + "\njsonrpc: "@ + jsonrpc + "\nid: "@ + id
        + "\nmethod: "@ + method + "\nparams: "@ + params
}

/// The text of a response, from its fields as `{:?}` shows them.
pub fn show_response(
    result: &str,
    error: &str,
    jsonrpc: &str,
    id: &str,
    method: &str,
    params: &str,
) -> (r: String)
    ensures
        r@ == response_text(result@, error@, jsonrpc@, id@, method@, params@),
{
    let mut text = "result: ".to_string();
    text.append(result);
    text.append("\nerror: ");
    text.append(error);
    text.append("\njsonrpc: ");
    text.append(jsonrpc);
    text.append("\nid: ");
    text.append(id);
    text.append("\nmethod: ");
    text.append(method);
    text.append("\nparams: ");
    text.append(params);
    text
}

/// The text that `{:?}` shows for a response, over its fields as `{:?}` shows them.
pub open spec fn response_debug(
    result: Seq<char>,
    error: Seq<char>,
    jsonrpc: Seq<char>,
    id: Seq<char>,
    method: Seq<char>,
    params: Seq<char>,
) -> Seq<char> {
    "ResponseObject { result: "@ + result + ", error: "@ + error + ", jsonrpc: "@ + jsonrpc
        + ", id: "@ + id + ", method: "@ + method + ", params: "@ + params + " }"@
}

/// A response as `{:?}` shows it, from its fields as `{:?}` shows them.
pub fn show_response_debug(
    result: &str,
    error: &str,
    jsonrpc: &str,
    id: &str,
    method: &str,
    params: &str,
) -> (r: String)
    ensures
        r@ == response_debug(result@, error@, jsonrpc@, id@, method@, params@),
{
    let mut text = "ResponseObject { result: ".to_string();
    text.append(result);
    text.append(", error: ");
    text.append(error);
    text.append(", jsonrpc: ");
    text.append(jsonrpc);
    text.append(", id: ");
    text.append(id);
    text.append(", method: ");
    text.append(method);
    text.append(", params: ");
    text.append(params);
    text.append(" }");
    text
}

impl ResponseObject {
    /// Whether the response has a result or an error.
    pub open spec fn answered(self) -> bool {
        self.result is Some || self.error is Some
    }

    /// The text of a response.
    pub open spec fn text(self) -> Seq<char> {
        response_text(
            optional_json_debug(self.result),
            optional_error_debug(self.error),
            crate::text::shown_str(self.jsonrpc@),
            crate::text::optional_debug(crate::text::optional_text(self.id)),
            crate::text::optional_debug(crate::text::optional_text(self.method)),
            optional_json_debug(self.params),
        )
    }

    /// The text that `{:?}` shows for a response.
    pub open spec fn debug(self) -> Seq<char> {
        response_debug(
            optional_json_debug(self.result),
            optional_error_debug(self.error),
            crate::text::shown_str(self.jsonrpc@),
            crate::text::optional_debug(crate::text::optional_text(self.id)),
            crate::text::optional_debug(crate::text::optional_text(self.method)),
            optional_json_debug(self.params),
        )
    }

    /// Whether the response has a result or an error, which every response should.
    pub fn is_answered(&self) -> (r: bool)
        ensures
            r == self.answered(),
    {
        self.result.is_some() || self.error.is_some()
    }

    /// The response as `{:?}` shows a struct of these fields.
    pub fn to_debug(&self) -> (r: String)
        ensures
            r@ == self.debug(),
    {
        show_response_debug(
            debug_optional_json(&self.result).as_str(),
            debug_optional_error(&self.error).as_str(),
            debug_str(self.jsonrpc.as_str()).as_str(),
            debug_optional(&self.id).as_str(),
            debug_optional(&self.method).as_str(),
            debug_optional_json(&self.params).as_str(),
        )
    }

    /// The response as a text for people.
    pub fn to_string(&self) -> (r: String)
        ensures
            r@ == self.text(),
    {
        show_response(
            debug_optional_json(&self.result).as_str(),
            debug_optional_error(&self.error).as_str(),
            debug_str(self.jsonrpc.as_str()).as_str(),
            debug_optional(&self.id).as_str(),
            debug_optional(&self.method).as_str(),
            debug_optional_json(&self.params).as_str(),
        )
    }
}

/// The string that a response gives: its result, where it has one; else its error is the
/// caller's.
pub fn unwrap_result_for_string(res: ResponseObject) -> (r: Result<String, CallError>)
    requires
        res.answered(),
    ensures
        match res.result {
            Some(v) => match v@ {
                Json::String(s) => r is Ok && r->Ok_0@ == s,
                _ => r == Err::<String, CallError>(CallError::Decode(DecodeError::InvalidType)),
            },
            None => r == Err::<String, CallError>(CallError::Rpc(res.error->Some_0)),
        },
{
    if let Some(result) = res.result {
        match result.to_str() {
            Some(s) => Ok(s),
            None => Err(CallError::Decode(DecodeError::InvalidType)),
        }
    } else {
        Err(CallError::Rpc(res.error.unwrap()))
    }
}

impl Version {
    /// The version that a response gives: its result, where it has one; else its error is the
    /// caller's.
    pub fn from_response(res: ResponseObject) -> (r: Result<Version, CallError>)
        requires
            res.answered(),
        ensures
            match res.result {
                Some(v) => match crate::decode::record(v@, crate::records::version_fields()) {
                    Ok(d) => r is Ok && r->Ok_0.data() == d,
                    Err(e) => r == Err::<Version, CallError>(CallError::Decode(e)),
                },
                None => r == Err::<Version, CallError>(CallError::Rpc(res.error->Some_0)),
            },
    {
        if let Some(result) = res.result {
            match Version::from_json(&result) {
                Ok(version) => Ok(version),
                Err(e) => Err(CallError::Decode(e)),
            }
        } else {
            Err(CallError::Rpc(res.error.unwrap()))
        }
    }
}

impl Status {
    /// The status that a response gives: its result, where it has one; else its error is the
    /// caller's.
    pub fn from_response(res: ResponseObject) -> (r: Result<Status, CallError>)
        requires
            res.answered(),
        ensures
            match res.result {
                Some(v) => match crate::decode::record(v@, crate::records::status_fields()) {
                    Ok(d) => r is Ok && r->Ok_0.data() == d,
                    Err(e) => r == Err::<Status, CallError>(CallError::Decode(e)),
                },
                None => r == Err::<Status, CallError>(CallError::Rpc(res.error->Some_0)),
            },
    {
        if let Some(result) = res.result {
            match Status::from_json(&result) {
                Ok(status) => Ok(status),
                Err(e) => Err(CallError::Decode(e)),
            }
        } else {
            Err(CallError::Rpc(res.error.unwrap()))
        }
    }
}

impl GlobalStat {
    /// The statistics that a response gives: its result, where it has one; else its error is
    /// the caller's.
    pub fn from_response(res: ResponseObject) -> (r: Result<GlobalStat, CallError>)
        requires
            res.answered(),
        ensures
            match res.result {
                Some(v) => match crate::decode::record(v@, crate::records::global_stat_fields()) {
                    Ok(d) => r is Ok && r->Ok_0.data() == d,
                    Err(e) => r == Err::<GlobalStat, CallError>(CallError::Decode(e)),
                },
                None => r == Err::<GlobalStat, CallError>(CallError::Rpc(res.error->Some_0)),
            },
    {
        if let Some(result) = res.result {
            match GlobalStat::from_json(&result) {
                Ok(stat) => Ok(stat),
                Err(e) => Err(CallError::Decode(e)),
            }
        } else {
            Err(CallError::Rpc(res.error.unwrap()))
        }
    }
}

} // verus!
