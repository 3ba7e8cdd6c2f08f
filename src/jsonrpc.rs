//! JSON-RPC 2.0 request and response envelopes.

use vstd::prelude::*;
use vstd::string::*;
use crate::error::{YnabError, YnabResult};
use crate::json::{
    entries_view, json_text, member, opt_view, parse_error_text, parse_json, parsed_json,
    present_member, push_member, str_of, write_json, Json, JsonV,
};
use crate::text::{concat, str_eq};

verus! {

/// A request: protocol tag, optional id (absent for a notification), method
/// and optional parameters.
#[derive(Debug)]
pub struct JsonRpcRequest {
    pub jsonrpc: String,
    pub id: Option<Json>,
    pub method: String,
    pub params: Option<Json>,
}

/// The error object of a response.
#[derive(Debug)]
pub struct JsonRpcError {
    pub code: i32,
    pub message: String,
    pub data: Option<Json>,
}

/// A response: it echoes the request's id and holds a result or an error.
#[derive(Debug)]
pub struct JsonRpcResponse {
    pub jsonrpc: String,
    pub id: Json,
    pub result: Option<Json>,
    pub error: Option<JsonRpcError>,
}

/// Why a parsed value is not a valid request, if it is not.
pub open spec fn request_problem(v: JsonV) -> Option<Seq<char>> {
    if str_of(member(v, "jsonrpc"@)) is None {
        Some("Missing jsonrpc field"@)
    } else if str_of(member(v, "method"@)) is None {
        Some("Missing method field"@)
    } else if str_of(member(v, "jsonrpc"@)) != Some("2.0"@) {
        Some("Unsupported jsonrpc version"@)
    } else if str_of(member(v, "method"@)) == Some(Seq::<char>::empty()) {
        Some("Empty method field"@)
    } else {
        None
    }
}

/// `req` is the request that the valid value `v` describes.
pub open spec fn request_of(v: JsonV, req: JsonRpcRequest) -> bool {
    &&& Some(req.jsonrpc@) == str_of(member(v, "jsonrpc"@))
    &&& Some(req.method@) == str_of(member(v, "method"@))
    &&& opt_view(req.id) == present_member(v, "id"@)
    &&& opt_view(req.params) == present_member(v, "params"@)
}

/// The JSON form of an error object: `data` only when there is some.
pub open spec fn error_value(e: JsonRpcError) -> JsonV {
    JsonV::Object(
        seq![("code"@, JsonV::Int(e.code as int)), ("message"@, JsonV::Str(e.message@))] + match e.data {
            Some(d) => seq![("data"@, d@)],
            None => Seq::empty(),
        },
    )
}

/// The JSON form of a response: `jsonrpc` and `id`, then `result` and
/// `error` where present.
pub open spec fn response_value(r: JsonRpcResponse) -> JsonV {
    JsonV::Object(
        seq![("jsonrpc"@, JsonV::Str(r.jsonrpc@)), ("id"@, r.id@)] + match r.result {
            Some(x) => seq![("result"@, x@)],
            None => Seq::empty(),
        } + match r.error {
            Some(e) => seq![("error"@, error_value(e))],
            None => Seq::empty(),
        },
    )
}

/// `r` is what parsing the text as a request gives: an error for invalid
/// JSON or an invalid request, else the request it describes.
pub open spec fn parses_as(text: Seq<char>, r: YnabResult<JsonRpcRequest>) -> bool {
    match parsed_json(text) {
        None => r matches Err(YnabError::ApiError(m)) && m@ == "Invalid JSON: "@ + parse_error_text(text),
        Some(v) => match request_problem(v) {
            Some(msg) => r matches Err(YnabError::ApiError(m)) && m@ == msg,
            None => r matches Ok(req) && request_of(v, req),
        },
    }
}

impl JsonRpcRequest {
    /// Reads a request from a parsed value.
    pub fn from_value(value: &Json) -> (r: YnabResult<JsonRpcRequest>)
        ensures
            request_problem(value@) matches Some(msg) ==> (r matches Err(YnabError::ApiError(m))
                && m@ == msg),
            request_problem(value@) is None ==> (r matches Ok(req) && request_of(value@, req)),
    {
        let jsonrpc = match value.str_member("jsonrpc") {
            Some(s) => s,
            None => return Err(YnabError::api_error("Missing jsonrpc field")),
        };
        let method = match value.str_member("method") {
            Some(s) => s,
            None => return Err(YnabError::api_error("Missing method field")),
        };
        if !str_eq(jsonrpc, "2.0") {
            return Err(YnabError::api_error("Unsupported jsonrpc version"));
        }
        if method.is_empty() {
            assert(method@ =~= Seq::<char>::empty());
            return Err(YnabError::api_error("Empty method field"));
        }
        Ok(JsonRpcRequest {
            jsonrpc: String::from_str(jsonrpc),
            id: value.present_member("id"),
            method: String::from_str(method),
            params: value.present_member("params"),
        })
    }

    /// Parses a request from its JSON text.
    pub fn from_json(json: &str) -> (r: YnabResult<JsonRpcRequest>)
        ensures
            parses_as(json@, r),
    {
        match parse_json(json) {
            Ok(v) => JsonRpcRequest::from_value(&v),
            Err(e) => Err(YnabError::ApiError(concat("Invalid JSON: ", e.as_str()))),
        }
    }
}

impl JsonRpcResponse {
    /// Exactly one of result and error is set, and the tag is `2.0`.
    pub open spec fn wf(&self) -> bool {
        &&& self.jsonrpc@ == "2.0"@
        &&& (self.result is Some) != (self.error is Some)
    }

    /// A success response.
    pub fn success(id: Json, result: Json) -> (r: JsonRpcResponse)
        ensures
            r.wf(),
            r.id == id,
            r.result == Some(result),
            r.error is None,
    {
        JsonRpcResponse { jsonrpc: String::from_str("2.0"), id, result: Some(result), error: None }
    }

    /// An error response.
    pub fn error(id: Json, code: i32, message: String, data: Option<Json>) -> (r:
        JsonRpcResponse)
        ensures
            r.wf(),
            r.id == id,
            r.result is None,
            r.error == Some(JsonRpcError { code, message, data }),
    {
        JsonRpcResponse {
            jsonrpc: String::from_str("2.0"),
            id,
            result: None,
            error: Some(JsonRpcError { code, message, data }),
        }
    }

    /// The response as a JSON value.
    pub fn to_value(&self) -> (r: Json)
        ensures
            r@ == response_value(*self),
    {
        let mut entries: Vec<(String, Json)> = Vec::new();
        push_member(&mut entries, "jsonrpc", Json::string(self.jsonrpc.as_str()));
        push_member(&mut entries, "id", self.id.deep_clone());
        if let Some(result) = &self.result {
            push_member(&mut entries, "result", result.deep_clone());
        }
        if let Some(error) = &self.error {
            let mut e: Vec<(String, Json)> = Vec::new();
            push_member(&mut e, "code", Json::Int(error.code as i64));
            push_member(&mut e, "message", Json::string(error.message.as_str()));
            if let Some(data) = &error.data {
                push_member(&mut e, "data", data.deep_clone());
            }
            assert(entries_view(e@) =~= error_value(*error)->Object_0);
            push_member(&mut entries, "error", Json::Object(e));
        }
        assert(entries_view(entries@) =~= response_value(*self)->Object_0);
        Json::Object(entries)
    }

    /// The response as compact JSON text.
    pub fn to_json(&self) -> (r: String)
        ensures
            r@ == json_text(response_value(*self)),
    {
        write_json(&self.to_value())
    }
}

} // verus!
