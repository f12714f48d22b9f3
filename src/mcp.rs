use vstd::prelude::*;

use crate::error::BridgeError;
use crate::text::{concat, same_text};
use crate::tools::{plan_spec, plan_tool, CallParams, ToolStep};

verus! {

/// Protocol version tag carried by every result envelope.
pub const JSONRPC_VERSION: &'static str = "2.0";

/// A call's correlation identifier, kept as the JSON text it was sent as
/// (`7`, `"abc"`, `null`), so that it can be mirrored back untouched.
pub struct RequestId {
    pub json: String,
}

impl RequestId {
    /// A copy of the identifier.
    pub fn duplicate(&self) -> (r: RequestId)
        ensures
            r.json@ == self.json@,
    {
        RequestId { json: self.json.clone() }
    }
}

/// An inbound call envelope.
pub struct McpRequest {
    pub jsonrpc: String,
    pub id: Option<RequestId>,
    pub method: String,
    pub params: Option<CallParams>,
}

/// Whether a call carries an identifier that expects a reply: one is present
/// and is not JSON `null`.
pub open spec fn has_id(id: Option<RequestId>) -> bool {
    id is Some && id->0.json@ != "null"@
}

/// The server description answered to `initialize`.
pub struct ServerInfo {
    pub protocol_version: String,
    pub name: String,
    pub version: String,
    /// Whether the tool list may change while the server runs.
    pub tools_list_changed: bool,
}

/// Whether `s` is the fixed server description.
pub open spec fn is_server_info(s: ServerInfo) -> bool {
    &&& s.protocol_version@ == "2024-11-05"@
    &&& s.name@ == "mcp-searxng-bridge"@
    &&& s.version@ == "1.0.0"@
    &&& !s.tools_list_changed
}

/// The result of `initialize`: the fixed server description.
pub fn handle_initialize() -> (r: ServerInfo)
    ensures
        is_server_info(r),
{
    ServerInfo {
        protocol_version: String::from_str("2024-11-05"),
        name: String::from_str("mcp-searxng-bridge"),
        version: String::from_str("1.0.0"),
        tools_list_changed: false,
    }
}

/// A tool the server offers; each takes one required string argument.
pub struct ToolDescriptor {
    pub name: String,
    pub description: String,
    /// The name of the tool's one required string argument.
    pub argument: String,
}

/// The tools on offer as (name, description, argument) triples.
pub open spec fn tool_list_spec() -> Seq<(Seq<char>, Seq<char>, Seq<char>)> {
    seq![
        ("search"@, "Search the web via SearXNG"@, "query"@),
        ("fetch_page"@, "Get the content of a web page as Markdown"@, "url"@),
    ]
}

/// Whether `tools` is the fixed list of tools on offer.
pub open spec fn is_tool_list(tools: Seq<ToolDescriptor>) -> bool {
    &&& tools.len() == tool_list_spec().len()
    &&& forall|i: int|
        0 <= i < tools.len() ==> ((#[trigger] tools[i]).name@, tools[i].description@,
        tools[i].argument@) == tool_list_spec()[i]
}

fn descriptor(name: &str, description: &str, argument: &str) -> (r: ToolDescriptor)
    ensures
        r.name@ == name@,
        r.description@ == description@,
        r.argument@ == argument@,
{
    ToolDescriptor {
        name: String::from_str(name),
        description: String::from_str(description),
        argument: String::from_str(argument),
    }
}

/// The result of `tools/list`: the fixed list of tools on offer.
pub fn handle_list_tools() -> (r: Vec<ToolDescriptor>)
    ensures
        is_tool_list(r@),
{
    let mut r = Vec::new();
    r.push(descriptor("search", "Search the web via SearXNG", "query"));
    r.push(descriptor("fetch_page", "Get the content of a web page as Markdown", "url"));
    r
}

/// The result payload of a result envelope.
pub enum ResultPayload {
    /// The server description, for `initialize`.
    Initialize(ServerInfo),
    /// The tools on offer, for `tools/list`.
    Tools(Vec<ToolDescriptor>),
    /// A success: one text block.
    Text(String),
    /// An error result (`isError`): one text block.
    Failure(String),
}

/// An error result holding `msg`.
pub fn json_error(msg: &str) -> (r: ResultPayload)
    ensures
        r is Failure && r->Failure_0@ == msg@,
{
    ResultPayload::Failure(String::from_str(msg))
}

/// The payload that reports a tool outcome: its text on success, an error
/// result with the error's message on failure.
pub fn tool_payload(outcome: Result<String, BridgeError>) -> (r: ResultPayload)
    ensures
        match outcome {
            Ok(t) => r is Text && r->Text_0@ == t@,
            Err(e) => r is Failure && r->Failure_0@ == e.message_spec(),
        },
{
    match outcome {
        Ok(t) => ResultPayload::Text(t),
        Err(e) => ResultPayload::Failure(e.message()),
    }
}

/// A result envelope; an absent identifier goes out as JSON `null`.
pub struct McpResponse {
    pub jsonrpc: String,
    pub id: Option<RequestId>,
    pub result: ResultPayload,
}

/// Whether two optional identifiers are the same.
pub open spec fn same_id(a: Option<RequestId>, b: Option<RequestId>) -> bool {
    match (a, b) {
        (Some(x), Some(y)) => x.json@ == y.json@,
        (None, None) => true,
        _ => false,
    }
}

/// Whether `r` is an envelope that answers a call with identifier `id`.
pub open spec fn answers(r: McpResponse, id: Option<RequestId>) -> bool {
    r.jsonrpc@ == JSONRPC_VERSION@ && same_id(r.id, id)
}

fn copy_id(id: &Option<RequestId>) -> (r: Option<RequestId>)
    ensures
        same_id(r, *id),
{
    match id {
        Some(i) => Some(i.duplicate()),
        None => None,
    }
}

/// The result envelope that carries `result` in reply to the call with
/// identifier `id`.
pub fn respond(id: &Option<RequestId>, result: ResultPayload) -> (r: McpResponse)
    ensures
        answers(r, *id),
        r.result == result,
{
    McpResponse { jsonrpc: String::from_str(JSONRPC_VERSION), id: copy_id(id), result }
}

/// How the dispatcher treats a call.
pub enum Route {
    /// Answered at once, in the reply to the submitting request.
    Immediate,
    /// Accepted; the tool list is delivered on the channel.
    ListTools,
    /// Accepted; the tool runs and its outcome is delivered on the channel.
    CallTool,
    /// Accepted; nothing is ever delivered.
    Silent,
    /// Accepted; an error result naming the method is delivered.
    Unsupported,
}

/// The route for a call to `method`, with or without an identifier.
pub open spec fn route_of(method: Seq<char>, with_id: bool) -> Route {
    if method == "initialize"@ {
        Route::Immediate
    } else if !with_id || method == "notifications/initialized"@ {
        Route::Silent
    } else if method == "tools/list"@ {
        Route::ListTools
    } else if method == "tools/call"@ {
        Route::CallTool
    } else {
        Route::Unsupported
    }
}

fn id_expects_reply(id: &Option<RequestId>) -> (r: bool)
    ensures
        r == has_id(*id),
{
    match id {
        Some(i) => !same_text(i.json.as_str(), "null"),
        None => false,
    }
}

/// Classifies a call by its method; a call without an identifier is never
/// answered, but for `initialize`.
pub fn classify(request: &McpRequest) -> (r: Route)
    ensures
        r == route_of(request.method@, has_id(request.id)),
{
    let m = request.method.as_str();
    if same_text(m, "initialize") {
        Route::Immediate
    } else if !id_expects_reply(&request.id) || same_text(m, "notifications/initialized") {
        Route::Silent
    } else if same_text(m, "tools/list") {
        Route::ListTools
    } else if same_text(m, "tools/call") {
        Route::CallTool
    } else {
        Route::Unsupported
    }
}

/// The text of the error result for a method the server does not serve.
pub open spec fn unsupported_text(method: Seq<char>) -> Seq<char> {
    "Method "@ + method + " not supported"@
}

/// What the transport does with a call.
pub enum Dispatch {
    /// Reply with this envelope in the response to the submitting request.
    Immediate(McpResponse),
    /// Acknowledge the call, then publish this envelope on the delivery
    /// channel.
    Publish(McpResponse),
    /// Acknowledge the call, then run this search and publish its outcome in
    /// reply to `id`.
    Search { id: Option<RequestId>, query: String },
    /// Acknowledge the call, then fetch this page and publish its outcome in
    /// reply to `id`.
    Fetch { id: Option<RequestId>, url: String },
    /// Acknowledge the call and do nothing more.
    Ignore,
}

/// What `dispatch` decides for `request`.
pub open spec fn dispatch_spec(request: McpRequest, r: Dispatch) -> bool {
    let id = request.id;
    match route_of(request.method@, has_id(id)) {
        Route::Immediate => r is Immediate && answers(r->Immediate_0, id)
            && r->Immediate_0.result is Initialize && is_server_info(
            r->Immediate_0.result->Initialize_0,
        ),
        Route::Silent => r is Ignore,
        Route::ListTools => r is Publish && answers(r->Publish_0, id)
            && r->Publish_0.result is Tools && is_tool_list(r->Publish_0.result->Tools_0@),
        Route::Unsupported => r is Publish && answers(r->Publish_0, id)
            && r->Publish_0.result is Failure && r->Publish_0.result->Failure_0@
            == unsupported_text(request.method@),
        Route::CallTool => exists|step: ToolStep|
            plan_spec(request.params, step) && match step {
                ToolStep::Done(outcome) => r is Publish && answers(r->Publish_0, id) && match outcome {
                    Ok(t) => r->Publish_0.result is Text && r->Publish_0.result->Text_0@ == t@,
                    Err(e) => r->Publish_0.result is Failure && r->Publish_0.result->Failure_0@
                        == e.message_spec(),
                },
                ToolStep::Search(q) => r matches Dispatch::Search { id: rid, query } && same_id(
                    rid,
                    id,
                ) && query@ == q@,
                ToolStep::Fetch(u) => r matches Dispatch::Fetch { id: rid, url } && same_id(rid, id)
                    && url@ == u@,
            },
    }
}

/// Decides what becomes of a call: `initialize` is answered at once; every
/// other call is acknowledged, and its result, if any, goes to the delivery
/// channel, after a backend request for a search or a page fetch.
pub fn dispatch(request: &McpRequest) -> (r: Dispatch)
    ensures
        dispatch_spec(*request, r),
{
    match classify(request) {
        Route::Immediate => Dispatch::Immediate(
            respond(&request.id, ResultPayload::Initialize(handle_initialize())),
        ),
        Route::Silent => Dispatch::Ignore,
        Route::ListTools => Dispatch::Publish(
            respond(&request.id, ResultPayload::Tools(handle_list_tools())),
        ),
        Route::Unsupported => {
            let text = concat("Method ", request.method.as_str());
            let text = concat(text.as_str(), " not supported");
            Dispatch::Publish(respond(&request.id, json_error(text.as_str())))
        },
        Route::CallTool => {
            let step = plan_tool(&request.params);
            let ghost planned = step;
            let r = match step {
                ToolStep::Done(outcome) => Dispatch::Publish(
                    respond(&request.id, tool_payload(outcome)),
                ),
                ToolStep::Search(query) => Dispatch::Search { id: copy_id(&request.id), query },
                ToolStep::Fetch(url) => Dispatch::Fetch { id: copy_id(&request.id), url },
            };
            assert(plan_spec(request.params, planned));
            r
        },
    }
}

} // verus!

verus! {

/// `initialize` law: whatever its identifier, an `initialize` call is
/// answered at once with the fixed server description, never through the
/// delivery channel.
pub proof fn lemma_initialize_immediate(request: McpRequest, r: Dispatch)
    requires
        request.method@ == "initialize"@,
        dispatch_spec(request, r),
    ensures
        r is Immediate,
        answers(r->Immediate_0, request.id),
        r->Immediate_0.result is Initialize,
        is_server_info(r->Immediate_0.result->Initialize_0),
{
}

} // verus!
