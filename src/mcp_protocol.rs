//! The protocol dispatcher: `initialize`, `tools/list` and `tools/call`, and
//! the answer to one framed message of a session.

use vstd::prelude::*;
use vstd::string::*;
use crate::error::{error_text, YnabError, YnabResult};
use crate::handler::{executes, tool_catalog, tools_value, Handler};
use crate::json::{
    entries_view, items_view, json_text, member, parse_error_text, parsed_json, push_item,
    push_member, str_of, Json, JsonV,
};
use crate::jsonrpc::{parses_as, response_value, JsonRpcRequest, JsonRpcResponse};
use crate::text::{concat, str_eq};

verus! {

/// Serves the protocol's methods with a handler.
pub struct McpServer {
    pub handler: Handler,
}

/// The result of `initialize`.
pub open spec fn initialize_value() -> JsonV {
    JsonV::Object(
        seq![
            ("protocolVersion"@, JsonV::Str("2024-11-05"@)),
            ("capabilities"@, JsonV::Object(seq![("tools"@, JsonV::Object(Seq::empty()))])),
            ("serverInfo"@, JsonV::Object(
                seq![("name"@, JsonV::Str("ynab-mcp-server"@)), ("version"@, JsonV::Str("0.1.0"@))],
            )),
        ],
    )
}

/// The result of a successful `tools/call`: the tool's output as text.
pub open spec fn content_value(text: Seq<char>) -> JsonV {
    JsonV::Object(
        seq![
            ("content"@, JsonV::Array(
                seq![JsonV::Object(seq![("type"@, JsonV::Str("text"@)), ("text"@, JsonV::Str(text))])],
            )),
        ],
    )
}

/// The id that a response to the request echoes: null for a notification.
pub open spec fn echoed_id(req: JsonRpcRequest) -> JsonV {
    match req.id {
        Some(j) => j@,
        None => JsonV::Null,
    }
}

/// `resp` succeeds with `result` and carries `id`.
pub open spec fn succeeds_with(id: JsonV, resp: JsonRpcResponse, result: JsonV) -> bool {
    &&& resp.wf()
    &&& resp.id@ == id
    &&& resp.result matches Some(x) && x@ == result
}

/// `resp` fails with `code` and `message`, without data, and carries `id`.
pub open spec fn fails_with(id: JsonV, resp: JsonRpcResponse, code: int, message: Seq<char>) -> bool {
    &&& resp.wf()
    &&& resp.id@ == id
    &&& resp.error matches Some(e) && e.code as int == code && e.message@ == message && e.data is None
}

/// The arguments of a `tools/call`: its `arguments` member, or an empty
/// object.
pub open spec fn call_arguments(params: JsonV) -> JsonV {
    match member(params, "arguments"@) {
        JsonV::Null => JsonV::Object(Seq::empty()),
        a => a,
    }
}

/// The RPC code of a request whose parameters are missing or invalid.
pub const INVALID_PARAMS: i32 = -32602;

/// What the server answers to a `tools/call` with `id` and `params`: the
/// tool's output as text content, or an RPC error when the tool fails; a
/// call without parameters or without a tool name gets an invalid-params
/// error that echoes the id, and no tool runs.
pub open spec fn call_answers(h: Handler, id: JsonV, params: Option<JsonV>, r: YnabResult<JsonRpcResponse>) -> bool {
    match params {
        None => r matches Ok(resp) && fails_with(id, resp, -32602, "Missing params for tools/call"@),
        Some(p) => match str_of(member(p, "name"@)) {
            None => r matches Ok(resp) && fails_with(id, resp, -32602, "Missing tool name"@),
            Some(name) => exists|out: YnabResult<String>|
                {
                    &&& #[trigger] executes(h, name, call_arguments(p), out)
                    &&& match out {
                        Ok(text) => r matches Ok(resp) && succeeds_with(id, resp, content_value(text@)),
                        Err(e) => r matches Ok(resp) && fails_with(
                            id,
                            resp,
                            -32000,
                            "Tool execution failed: "@ + error_text(e),
                        ),
                    }
                },
        },
    }
}

/// What the server answers to a request.
pub open spec fn handles(h: Handler, req: JsonRpcRequest, r: YnabResult<JsonRpcResponse>) -> bool {
    let id = echoed_id(req);
    if req.method@ == "initialize"@ {
        r matches Ok(resp) && succeeds_with(id, resp, initialize_value())
    } else if req.method@ == "tools/list"@ {
        r matches Ok(resp) && succeeds_with(id, resp, tools_value())
    } else if req.method@ == "tools/call"@ {
        call_answers(h, id, crate::json::opt_view(req.params), r)
    } else {
        r matches Ok(resp) && fails_with(id, resp, -32601, "Method not found"@)
    }
}

/// An error response without data.
pub open spec fn error_response_value(id: JsonV, code: int, message: Seq<char>) -> JsonV {
    JsonV::Object(
        seq![
            ("jsonrpc"@, JsonV::Str("2.0"@)),
            ("id"@, id),
            ("error"@, JsonV::Object(seq![("code"@, JsonV::Int(code)), ("message"@, JsonV::Str(message))])),
        ],
    )
}

/// The text that answers a message: a parse error with a null id when the
/// message is not a valid request; else the dispatcher's response, or a
/// server error with a null id when dispatching fails.
pub open spec fn answers(h: Handler, message: Seq<char>, text: Seq<char>) -> bool {
    exists|parsed: YnabResult<JsonRpcRequest>|
        {
            &&& #[trigger] parses_as(message, parsed)
            &&& match parsed {
                Err(e) => text == json_text(
                    error_response_value(JsonV::Null, -32700, "Parse error: "@ + error_text(e)),
                ),
                Ok(req) => exists|handled: YnabResult<JsonRpcResponse>|
                    {
                        &&& #[trigger] handles(h, req, handled)
                        &&& match handled {
                            Ok(resp) => text == json_text(response_value(resp)),
                            Err(e) => text == json_text(
                                error_response_value(JsonV::Null, -32000, "Server error: "@ + error_text(e)),
                            ),
                        }
                    },
            }
        }
}

/// What a session learns from its stream.
pub enum SessionEvent {
    /// A whole message arrived.
    Message(String),
    /// The stream ended before a header.
    EndOfStream,
    /// The stream failed or held a malformed frame.
    ReadFailed,
}

/// What a session does next.
pub enum SessionAction {
    /// Write this response and read on.
    Reply(String),
    /// End the session.
    Stop,
}

impl McpServer {
    /// A server with the given handler.
    pub fn new(handler: Handler) -> (r: McpServer)
        ensures
            r.handler == handler,
    {
        McpServer { handler }
    }

    /// The id a response to the request echoes.
    fn response_id(request: &JsonRpcRequest) -> (r: Json)
        ensures
            r@ == echoed_id(*request),
    {
        match &request.id {
            Some(j) => j.deep_clone(),
            None => Json::Null,
        }
    }

    /// Answers a request: `initialize`, `tools/list`, `tools/call`, or a
    /// method-not-found error.
    pub fn handle_request(&self, request: JsonRpcRequest) -> (r: YnabResult<JsonRpcResponse>)
        ensures
            handles(self.handler, request, r),
    {
        let id = McpServer::response_id(&request);
        if str_eq(request.method.as_str(), "initialize") {
            self.handle_initialize(id, request.params)
        } else if str_eq(request.method.as_str(), "tools/list") {
            self.handle_tools_list(id)
        } else if str_eq(request.method.as_str(), "tools/call") {
            proof {
                reveal_strlit("initialize");
                reveal_strlit("tools/list");
                reveal_strlit("tools/call");
                assert("tools/call"@[0] != "initialize"@[0]);
                assert("tools/call"@[6] != "tools/list"@[6]);
            }
            self.handle_tools_call(id, request.params)
        } else {
            Ok(JsonRpcResponse::error(id, -32601, String::from_str("Method not found"), None))
        }
    }

    /// The fixed capabilities and server information.
    fn handle_initialize(&self, id: Json, params: Option<Json>) -> (r: YnabResult<JsonRpcResponse>)
        ensures
            r matches Ok(resp) && succeeds_with(id@, resp, initialize_value()),
    {
        let mut caps: Vec<(String, Json)> = Vec::new();
        let none: Vec<(String, Json)> = Vec::new();
        assert(entries_view(none@) =~= Seq::<(Seq<char>, JsonV)>::empty());
        push_member(&mut caps, "tools", Json::Object(none));
        let mut info: Vec<(String, Json)> = Vec::new();
        push_member(&mut info, "name", Json::string("ynab-mcp-server"));
        push_member(&mut info, "version", Json::string("0.1.0"));
        let mut fields: Vec<(String, Json)> = Vec::new();
        push_member(&mut fields, "protocolVersion", Json::string("2024-11-05"));
        push_member(&mut fields, "capabilities", Json::Object(caps));
        push_member(&mut fields, "serverInfo", Json::Object(info));
        proof {
            assert(entries_view(caps@) =~= initialize_value()->Object_0[1].1->Object_0);
            assert(entries_view(info@) =~= initialize_value()->Object_0[2].1->Object_0);
            assert(entries_view(fields@) =~= initialize_value()->Object_0);
        }
        Ok(JsonRpcResponse::success(id, Json::Object(fields)))
    }

    /// The tools of the handler.
    fn handle_tools_list(&self, id: Json) -> (r: YnabResult<JsonRpcResponse>)
        ensures
            r matches Ok(resp) && succeeds_with(id@, resp, tools_value()),
    {
        Ok(JsonRpcResponse::success(id, self.handler.tools_json()))
    }

    /// Runs the tool that the parameters name, with their `arguments`.
    fn handle_tools_call(&self, id: Json, params: Option<Json>) -> (r: YnabResult<JsonRpcResponse>)
        ensures
            call_answers(self.handler, id@, crate::json::opt_view(params), r),
    {
        let params = match params {
            Some(p) => p,
            None => return Ok(
                JsonRpcResponse::error(id, INVALID_PARAMS, String::from_str("Missing params for tools/call"), None),
            ),
        };
        let name = match params.str_member("name") {
            Some(n) => n,
            None => return Ok(
                JsonRpcResponse::error(id, INVALID_PARAMS, String::from_str("Missing tool name"), None),
            ),
        };
        let arguments = match params.get("arguments") {
            Some(a) => if a.is_null() {
                let none: Vec<(String, Json)> = Vec::new();
                assert(entries_view(none@) =~= Seq::<(Seq<char>, JsonV)>::empty());
                Json::Object(none)
            } else {
                a.deep_clone()
            },
            None => {
                let none: Vec<(String, Json)> = Vec::new();
                assert(entries_view(none@) =~= Seq::<(Seq<char>, JsonV)>::empty());
                Json::Object(none)
            },
        };
        let ghost args = arguments@;
        assert(args == call_arguments(params@));
        let out = self.handler.execute_tool(name, arguments);
        let ghost g = out;
        assert(executes(self.handler, name@, call_arguments(params@), g));
        match out {
            Ok(content) => {
                let mut item: Vec<(String, Json)> = Vec::new();
                push_member(&mut item, "type", Json::string("text"));
                push_member(&mut item, "text", Json::Str(content));
                let mut items: Vec<Json> = Vec::new();
                push_item(&mut items, Json::Object(item));
                let mut fields: Vec<(String, Json)> = Vec::new();
                push_member(&mut fields, "content", Json::Array(items));
                proof {
                    let text = g->Ok_0@;
                    assert(entries_view(item@) =~= seq![("type"@, JsonV::Str("text"@)), ("text"@, JsonV::Str(text))]);
                    assert(items_view(items@) =~= seq![JsonV::Object(seq![("type"@, JsonV::Str("text"@)), ("text"@, JsonV::Str(text))])]);
                    assert(entries_view(fields@) =~= content_value(text)->Object_0);
                }
                let resp = JsonRpcResponse::success(id, Json::Object(fields));
                proof {
                    let rr: YnabResult<JsonRpcResponse> = Ok(resp);
                    assert(succeeds_with(id@, resp, content_value(g->Ok_0@)));
                    assert(str_of(member(params@, "name"@)) == Some(name@));
                    assert(executes(self.handler, name@, call_arguments(params@), g) && match g {
                        Ok(text) => rr matches Ok(x) && succeeds_with(id@, x, content_value(text@)),
                        Err(e) => rr matches Ok(x) && fails_with(id@, x, -32000, "Tool execution failed: "@ + error_text(e)),
                    });
                    let h = self.handler;
                    let pv = params@;
                    let nm = str_of(member(pv, "name"@))->Some_0;
                    assert(nm == name@);
                    assert(exists|out: YnabResult<String>|
                        {
                            &&& #[trigger] executes(h, nm, call_arguments(pv), out)
                            &&& match out {
                                Ok(text) => rr matches Ok(x) && succeeds_with(id@, x, content_value(text@)),
                                Err(e) => rr matches Ok(x) && fails_with(
                                    id@,
                                    x,
                                    -32000,
                                    "Tool execution failed: "@ + error_text(e),
                                ),
                            }
                        });
                    assert(call_answers(self.handler, id@, crate::json::opt_view(Some(params)), rr));
                }
                Ok(resp)
            },
            Err(e) => {
                let message = concat("Tool execution failed: ", e.to_string().as_str());
                let resp = JsonRpcResponse::error(id, -32000, message, None);
                proof {
                    let rr: YnabResult<JsonRpcResponse> = Ok(resp);
                    assert(fails_with(id@, resp, -32000, "Tool execution failed: "@ + error_text(g->Err_0)));
                    assert(str_of(member(params@, "name"@)) == Some(name@));
                    assert(executes(self.handler, name@, call_arguments(params@), g) && match g {
                        Ok(text) => rr matches Ok(x) && succeeds_with(id@, x, content_value(text@)),
                        Err(e) => rr matches Ok(x) && fails_with(id@, x, -32000, "Tool execution failed: "@ + error_text(e)),
                    });
                    let h = self.handler;
                    let pv = params@;
                    let nm = str_of(member(pv, "name"@))->Some_0;
                    assert(nm == name@);
                    assert(exists|out: YnabResult<String>|
                        {
                            &&& #[trigger] executes(h, nm, call_arguments(pv), out)
                            &&& match out {
                                Ok(text) => rr matches Ok(x) && succeeds_with(id@, x, content_value(text@)),
                                Err(e) => rr matches Ok(x) && fails_with(
                                    id@,
                                    x,
                                    -32000,
                                    "Tool execution failed: "@ + error_text(e),
                                ),
                            }
                        });
                    assert(call_answers(self.handler, id@, crate::json::opt_view(Some(params)), rr));
                }
                Ok(resp)
            },
        }
    }

    /// The error response with a null id, as text.
    fn null_id_error(code: i32, prefix: &str, e: &YnabError) -> (r: String)
        ensures
            r@ == json_text(error_response_value(JsonV::Null, code as int, prefix@ + error_text(*e))),
    {
        let message = concat(prefix, e.to_string().as_str());
        let resp = JsonRpcResponse::error(Json::Null, code, message, None);
        let r = resp.to_json();
        proof {
            assert(crate::jsonrpc::error_value(resp.error->Some_0)->Object_0 =~= seq![("code"@, JsonV::Int(code as int)), ("message"@, JsonV::Str(prefix@ + error_text(*e)))]);
            assert(response_value(resp)->Object_0 =~= error_response_value(JsonV::Null, code as int, prefix@ + error_text(*e))->Object_0);
            assert(response_value(resp) == error_response_value(JsonV::Null, code as int, prefix@ + error_text(*e)));
        }
        r
    }

    /// Answers one message of a session with the text of its response.
    pub fn respond(&self, message: &str) -> (r: String)
        ensures
            answers(self.handler, message@, r@),
    {
        let parsed = JsonRpcRequest::from_json(message);
        let ghost pg = parsed;
        match parsed {
            Err(e) => {
                let r = McpServer::null_id_error(-32700, "Parse error: ", &e);
                assert(parses_as(message@, pg));
                r
            },
            Ok(request) => {
                let ghost rq = request;
                let handled = self.handle_request(request);
                let ghost hg = handled;
                let r = match handled {
                    Ok(resp) => resp.to_json(),
                    Err(e) => McpServer::null_id_error(-32000, "Server error: ", &e),
                };
                proof {
                    assert(parses_as(message@, pg));
                    assert(handles(self.handler, rq, hg));
                }
                r
            },
        }
    }

    /// The session's next step: answer a message, or stop at the end of the
    /// stream or on a failed read.
    pub fn step(&self, event: SessionEvent) -> (r: SessionAction)
        ensures
            event matches SessionEvent::Message(m) ==> (r matches SessionAction::Reply(t) && answers(
                self.handler,
                m@,
                t@,
            )),
            !(event is Message) ==> r is Stop,
    {
        match event {
            SessionEvent::Message(m) => SessionAction::Reply(self.respond(m.as_str())),
            _ => SessionAction::Stop,
        }
    }
}

/// `tools/list` answers, whatever the handler holds, with the five tools of
/// the catalog, each with a non-empty description.
pub proof fn lemma_tools_list_is_catalog(h: Handler, req: JsonRpcRequest, r: YnabResult<JsonRpcResponse>)
    requires
        req.method@ == "tools/list"@,
        handles(h, req, r),
    ensures
        tool_catalog().len() == 5,
        forall|i: int| 0 <= i < 5 ==> #[trigger] tool_catalog()[i].1.len() > 0,
        r matches Ok(resp) && resp.result matches Some(x) && x@ == tools_value(),
{
    reveal_strlit("initialize");
    reveal_strlit("tools/list");
    assert("tools/list"@[0] != "initialize"@[0]);
    reveal_strlit("Analyzes spending for specific categories with optional date filtering");
    reveal_strlit("Provides a comprehensive overview of budget status and spending");
    reveal_strlit("Searches transactions with advanced filtering and sorting options");
    reveal_strlit("Analyzes spending trends over multiple months with detailed breakdowns");
    reveal_strlit("Performs comprehensive budget health analysis with optimization suggestions");
}

/// A `tools/call` without parameters, or whose parameters have no string
/// `name`, gets an invalid-params error that echoes the request's id and no
/// result, whatever the handler holds: no tool's outcome enters the answer.
pub proof fn lemma_call_without_name_is_invalid_params(req: JsonRpcRequest)
    requires
        req.method@ == "tools/call"@,
        req.params matches Some(p) ==> str_of(member(p@, "name"@)) is None,
    ensures
        forall|h2: Handler, r2: YnabResult<JsonRpcResponse>|
            #[trigger] handles(h2, req, r2) ==> (r2 matches Ok(resp) && resp.id@ == echoed_id(req)
                && resp.result is None && (resp.error matches Some(e) && e.code == INVALID_PARAMS)),
{
    reveal_strlit("initialize");
    reveal_strlit("tools/list");
    reveal_strlit("tools/call");
    assert("tools/call"@[0] != "initialize"@[0]);
    assert("tools/call"@[6] != "tools/list"@[6]);
}

} // verus!
