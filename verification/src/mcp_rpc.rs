//! The JSON-RPC 2.0 dispatcher of the tool surface.
//!
//! The envelope is validated first: a request whose `jsonrpc` field is
//! not `2.0` earns the protocol-level invalid-request error whatever
//! its method.  Lifecycle methods answer fixed payloads; the tool and
//! resource methods hand over to their handlers.  Protocol errors
//! (negative integer codes in the `error` field) and tool-level
//! business errors (string codes inside a successful `result`) are
//! kept strictly apart.  The HTTP endpoint, the batch endpoint and the
//! line-oriented local transport all run through the same dispatch, so
//! their behavior cannot drift apart.

use vstd::prelude::*;

use crate::mcp_resources::read_resource;
use crate::mcp_resources::spec_known_resource;
use crate::mcp_resources::list_resource_infos;
use crate::mcp_resources::ResourceContent;
use crate::mcp_resources::ResourceInfo;
use crate::languages::opt_str_view;
use crate::mcp_tools::geoip_bulk_post;
use crate::mcp_tools::geoip_lookup_post;
use crate::mcp_tools::geoip_self_post;
use crate::mcp_tools::handle_geoip_bulk_lookup;
use crate::mcp_tools::handle_geoip_lookup;
use crate::mcp_tools::handle_geoip_lookup_self;
use crate::mcp_tools::handle_timezone_lookup;
use crate::mcp_tools::is_failure;
use crate::mcp_tools::timezone_post;
use crate::mcp_tools::McpErrorCode;
use crate::mcp_tools::CallToolResult;
use crate::mcp_tools::GeoIpBulkLookupInput;
use crate::mcp_tools::GeoIpLookupInput;
use crate::mcp_tools::GeoIpLookupSelfInput;
use crate::mcp_tools::TimezoneLookupInput;
use crate::ports::GeoIpLookup;
use crate::ports::TimezoneDetailPort;
use crate::ports::TimezoneNamePort;
use crate::strutil::str_eq;

verus! {

/// Protocol error code of a request whose envelope is not JSON-RPC 2.0.
pub const INVALID_REQUEST: i32 = -32600;

/// Protocol error code of an unknown method or tool.
pub const METHOD_NOT_FOUND: i32 = -32601;

/// Protocol error code of missing or unusable parameters.
pub const INVALID_PARAMS: i32 = -32602;

/// A request identifier: a number, a string, or null.
#[derive(Debug, Clone)]
pub enum RpcId {
    Num(i64),
    Str(String),
    Null,
}

/// The parameters of a `tools/call` request, as the transport decoded
/// them: the tool name and the per-tool argument parse outcome.
pub struct ToolCallParams {
    pub name: Option<String>,
    pub args: ToolArgs,
}

/// The decoded arguments of one tool, or the decoder's error message;
/// `Unavailable` where no tool-specific decoding applied.
pub enum ToolArgs {
    Lookup(Result<GeoIpLookupInput, String>),
    Bulk(Result<GeoIpBulkLookupInput, String>),
    SelfLookup(Result<GeoIpLookupSelfInput, String>),
    Timezone(Result<TimezoneLookupInput, String>),
    Unavailable,
}

/// The parameters of a `resources/read` request.
pub struct ResourceReadParams {
    pub uri: Option<String>,
}

/// The decoded parameter object of a request, by method family.
pub enum RpcParams {
    ToolCall(ToolCallParams),
    ResourceRead(ResourceReadParams),
    Other,
}

/// A decoded JSON-RPC request.
pub struct JsonRpcRequest {
    pub jsonrpc: String,
    pub id: RpcId,
    pub method: String,
    pub params: Option<RpcParams>,
}

/// A protocol-level error object.
#[derive(Debug, Clone)]
pub struct JsonRpcError {
    pub code: i32,
    pub message: String,
}

/// The payload of a successful response; the transport turns each
/// variant into its wire document.
pub enum RpcResult {
    /// Protocol version, server info and capabilities.
    Initialize,
    /// The empty object answered to `initialized` and `ping`.
    Empty,
    /// The static tool catalog.
    ToolsList,
    /// The resource catalog.
    ResourcesList(Vec<ResourceInfo>),
    /// A tool outcome, business errors included.
    Tool(CallToolResult),
    /// One resource's content.
    Resource(ResourceContent),
}

/// A JSON-RPC response: exactly one of `result` and `error` is set.
pub struct JsonRpcResponse {
    pub jsonrpc: String,
    pub id: RpcId,
    pub result: Option<RpcResult>,
    pub error: Option<JsonRpcError>,
}

/// The outcome of a `tools/call` dispatch: an absent tool name is a
/// parameter error, an unknown one a method-not-found error naming it,
/// and each known tool answers with its own handler's contract over
/// the decoded arguments (a mismatched argument kind counts as a
/// malformed argument object).
pub open spec fn tool_call_outcome(
    p: ToolCallParams,
    caller: Option<Seq<char>>,
    r: JsonRpcResponse,
) -> bool {
    match p.name {
        None => r.error matches Some(e) && e.code == INVALID_PARAMS && e.message@
            == "Missing tool name"@,
        Some(name) => {
            if name@ == "geoip_lookup"@ {
                r.result matches Some(RpcResult::Tool(t)) && (match p.args {
                    ToolArgs::Lookup(i) => geoip_lookup_post(i, t),
                    _ => is_failure(t, McpErrorCode::InvalidIp),
                })
            } else if name@ == "geoip_bulk_lookup"@ {
                r.result matches Some(RpcResult::Tool(t)) && (match p.args {
                    ToolArgs::Bulk(i) => geoip_bulk_post(i, t),
                    _ => is_failure(t, McpErrorCode::InvalidIp),
                })
            } else if name@ == "geoip_lookup_self"@ {
                r.result matches Some(RpcResult::Tool(t)) && (match p.args {
                    ToolArgs::SelfLookup(i) => geoip_self_post(caller, i, t),
                    _ => is_failure(t, McpErrorCode::InvalidIp),
                })
            } else if name@ == "timezone_lookup"@ {
                r.result matches Some(RpcResult::Tool(t)) && (match p.args {
                    ToolArgs::Timezone(i) => timezone_post(i, t),
                    _ => is_failure(t, McpErrorCode::InvalidLatitude),
                })
            } else {
                r.error matches Some(e) && e.code == METHOD_NOT_FOUND && e.message@
                    == "Unknown tool: "@ + name@
            }
        },
    }
}

/// The outcome of a `resources/read` dispatch: an absent URI is a
/// parameter error, a known URI answers its document echoing the URI
/// with the JSON mime type, and an unknown one a parameter error
/// naming it.
pub open spec fn resource_read_outcome(p: ResourceReadParams, r: JsonRpcResponse) -> bool {
    match p.uri {
        None => r.error matches Some(e) && e.code == INVALID_PARAMS && e.message@
            == "Missing uri parameter"@,
        Some(uri) => {
            if spec_known_resource(uri@) {
                r.result matches Some(RpcResult::Resource(c)) && c.uri@ == uri@ && c.mime_type@
                    == "application/json"@
            } else {
                r.error matches Some(e) && e.code == INVALID_PARAMS && e.message@
                    == "Resource not found: "@ + uri@
            }
        },
    }
}

/// The response shape of one dispatched request: the envelope echoes
/// the id under version `2.0`, a bad version is refused with the
/// protocol-level invalid-request error before the method is even
/// looked at, every response carries exactly one of result and error,
/// and the tool and resource methods answer by their own outcome
/// contracts.
pub open spec fn response_matches(
    req: JsonRpcRequest,
    caller: Option<Seq<char>>,
    r: JsonRpcResponse,
) -> bool {
    &&& r.jsonrpc@ == "2.0"@
    &&& r.id == req.id
    &&& (r.result is Some <==> r.error is None)
    &&& req.jsonrpc@ != "2.0"@ ==> (r.error matches Some(e) && e.code == INVALID_REQUEST
        && e.message@ == "Invalid JSON-RPC version"@)
    &&& req.jsonrpc@ == "2.0"@ ==> {
        &&& req.method@ == "initialize"@ ==> (r.result matches Some(RpcResult::Initialize))
        &&& req.method@ == "initialized"@ || req.method@ == "ping"@ ==> (r.result matches Some(
            RpcResult::Empty,
        ))
        &&& req.method@ == "tools/list"@ ==> (r.result matches Some(RpcResult::ToolsList))
        &&& req.method@ == "resources/list"@ ==> (r.result matches Some(
            RpcResult::ResourcesList(_),
        ))
        &&& req.method@ == "tools/call"@ ==> (match req.params {
            Some(RpcParams::ToolCall(p)) => tool_call_outcome(p, caller, r),
            _ => r.error matches Some(e) && e.code == INVALID_PARAMS && e.message@
                == "Missing params"@,
        })
        &&& req.method@ == "resources/read"@ ==> (match req.params {
            Some(RpcParams::ResourceRead(p)) => resource_read_outcome(p, r),
            _ => r.error matches Some(e) && e.code == INVALID_PARAMS && e.message@
                == "Missing params"@,
        })
        &&& !(req.method@ == "initialize"@ || req.method@ == "initialized"@ || req.method@
            == "ping"@ || req.method@ == "tools/list"@ || req.method@ == "resources/list"@
            || req.method@ == "tools/call"@ || req.method@ == "resources/read"@) ==> (
        r.error matches Some(e) && e.code == METHOD_NOT_FOUND && e.message@
            == "Method not found: "@ + req.method@)
    }
}

fn ok_response(id: RpcId, result: RpcResult) -> (r: JsonRpcResponse)
    ensures
        r.jsonrpc@ == "2.0"@,
        r.id == id,
        r.result matches Some(x) && x == result,
        r.error is None,
{
    JsonRpcResponse { jsonrpc: String::from_str("2.0"), id, result: Some(result), error: None }
}

fn err_response(id: RpcId, code: i32, message: String) -> (r: JsonRpcResponse)
    ensures
        r.jsonrpc@ == "2.0"@,
        r.id == id,
        r.result is None,
        r.error matches Some(e) && e.code == code && e.message@ == message@,
{
    JsonRpcResponse {
        jsonrpc: String::from_str("2.0"),
        id,
        result: None,
        error: Some(JsonRpcError { code, message }),
    }
}

/// Dispatch a `tools/call` request: absent parameters or an absent
/// tool name are parameter errors, an unknown tool name is a
/// method-not-found error, and a known tool always answers inside a
/// successful envelope, its business errors flagged there.
pub fn handle_tool_call<G: GeoIpLookup, T: TimezoneNamePort, D: TimezoneDetailPort>(
    geoip: &G,
    tz: &T,
    dt: &D,
    caller_ip: Option<&str>,
    id: RpcId,
    params: Option<ToolCallParams>,
) -> (r: JsonRpcResponse)
    ensures
        r.jsonrpc@ == "2.0"@,
        r.id == id,
        (r.result is Some <==> r.error is None),
        (match params {
            None => r.error matches Some(e) && e.code == INVALID_PARAMS && e.message@
                == "Missing params"@,
            Some(p) => tool_call_outcome(p, opt_str_view(caller_ip), r),
        }),
{
    let params = match params {
        Some(p) => p,
        None => {
            return err_response(id, INVALID_PARAMS, String::from_str("Missing params"));
        },
    };
    let name = match params.name {
        Some(n) => n,
        None => {
            return err_response(id, INVALID_PARAMS, String::from_str("Missing tool name"));
        },
    };
    if str_eq(name.as_str(), "geoip_lookup") {
        let input = match params.args {
            ToolArgs::Lookup(i) => i,
            _ => Err(String::from_str("unexpected arguments")),
        };
        ok_response(id, RpcResult::Tool(handle_geoip_lookup(geoip, tz, dt, input)))
    } else if str_eq(name.as_str(), "geoip_bulk_lookup") {
        let input = match params.args {
            ToolArgs::Bulk(i) => i,
            _ => Err(String::from_str("unexpected arguments")),
        };
        ok_response(id, RpcResult::Tool(handle_geoip_bulk_lookup(geoip, tz, dt, input)))
    } else if str_eq(name.as_str(), "geoip_lookup_self") {
        let input = match params.args {
            ToolArgs::SelfLookup(i) => i,
            _ => Err(String::from_str("unexpected arguments")),
        };
        ok_response(id, RpcResult::Tool(handle_geoip_lookup_self(geoip, tz, dt, caller_ip, input)))
    } else if str_eq(name.as_str(), "timezone_lookup") {
        let input = match params.args {
            ToolArgs::Timezone(i) => i,
            _ => Err(String::from_str("unexpected arguments")),
        };
        ok_response(id, RpcResult::Tool(handle_timezone_lookup(tz, dt, input)))
    } else {
        let mut message = String::from_str("Unknown tool: ");
        message.append(name.as_str());
        err_response(id, METHOD_NOT_FOUND, message)
    }
}

/// Dispatch a `resources/read` request: absent parameters or an absent
/// URI are parameter errors; a known URI answers its document, an
/// unknown one a parameter error naming it.
pub fn handle_resource_read(id: RpcId, params: Option<ResourceReadParams>) -> (r: JsonRpcResponse)
    ensures
        r.jsonrpc@ == "2.0"@,
        r.id == id,
        (r.result is Some <==> r.error is None),
        (match params {
            None => r.error matches Some(e) && e.code == INVALID_PARAMS && e.message@
                == "Missing params"@,
            Some(p) => resource_read_outcome(p, r),
        }),
{
    let params = match params {
        Some(p) => p,
        None => {
            return err_response(id, INVALID_PARAMS, String::from_str("Missing params"));
        },
    };
    let uri = match params.uri {
        Some(u) => u,
        None => {
            return err_response(id, INVALID_PARAMS, String::from_str("Missing uri parameter"));
        },
    };
    match read_resource(uri.as_str()) {
        Some(contents) => ok_response(id, RpcResult::Resource(contents)),
        None => {
            let mut message = String::from_str("Resource not found: ");
            message.append(uri.as_str());
            err_response(id, INVALID_PARAMS, message)
        },
    }
}

/// The seven method names are pairwise distinct strings.
proof fn lemma_methods_distinct()
    ensures
        "initialize"@ != "initialized"@,
        "initialize"@ != "ping"@,
        "initialize"@ != "tools/list"@,
        "initialize"@ != "resources/list"@,
        "initialize"@ != "tools/call"@,
        "initialize"@ != "resources/read"@,
        "initialized"@ != "ping"@,
        "initialized"@ != "tools/list"@,
        "initialized"@ != "resources/list"@,
        "initialized"@ != "tools/call"@,
        "initialized"@ != "resources/read"@,
        "ping"@ != "tools/list"@,
        "ping"@ != "resources/list"@,
        "ping"@ != "tools/call"@,
        "ping"@ != "resources/read"@,
        "tools/list"@ != "resources/list"@,
        "tools/list"@ != "tools/call"@,
        "tools/list"@ != "resources/read"@,
        "resources/list"@ != "tools/call"@,
        "resources/list"@ != "resources/read"@,
        "tools/call"@ != "resources/read"@,
{
    reveal_strlit("initialize");
    reveal_strlit("initialized");
    reveal_strlit("ping");
    reveal_strlit("tools/list");
    reveal_strlit("resources/list");
    reveal_strlit("tools/call");
    reveal_strlit("resources/read");
    assert("initialize"@.len() == 10);
    assert("initialized"@.len() == 11);
    assert("ping"@.len() == 4);
    assert("tools/list"@.len() == 10);
    assert("resources/list"@.len() == 14);
    assert("tools/call"@.len() == 10);
    assert("resources/read"@.len() == 14);
    assert("initialize"@[0] == 'i');
    assert("tools/list"@[0] == 't');
    assert("tools/call"@[6] == 'c');
    assert("tools/list"@[6] == 'l');
    assert("resources/list"@[10] == 'l');
    assert("resources/read"@[10] == 'r');
}

/// Dispatch one JSON-RPC request.
pub fn handle_single_request<G: GeoIpLookup, T: TimezoneNamePort, D: TimezoneDetailPort>(
    geoip: &G,
    tz: &T,
    dt: &D,
    caller_ip: Option<&str>,
    request: JsonRpcRequest,
) -> (r: JsonRpcResponse)
    ensures
        response_matches(request, opt_str_view(caller_ip), r),
{
    proof {
        lemma_methods_distinct();
    }
    if !str_eq(request.jsonrpc.as_str(), "2.0") {
        return err_response(
            request.id,
            INVALID_REQUEST,
            String::from_str("Invalid JSON-RPC version"),
        );
    }
    let method = request.method;
    if str_eq(method.as_str(), "initialize") {
        ok_response(request.id, RpcResult::Initialize)
    } else if str_eq(method.as_str(), "initialized") || str_eq(method.as_str(), "ping") {
        ok_response(request.id, RpcResult::Empty)
    } else if str_eq(method.as_str(), "tools/list") {
        ok_response(request.id, RpcResult::ToolsList)
    } else if str_eq(method.as_str(), "tools/call") {
        let params = match request.params {
            Some(RpcParams::ToolCall(p)) => Some(p),
            _ => None,
        };
        handle_tool_call(geoip, tz, dt, caller_ip, request.id, params)
    } else if str_eq(method.as_str(), "resources/list") {
        ok_response(request.id, RpcResult::ResourcesList(list_resource_infos()))
    } else if str_eq(method.as_str(), "resources/read") {
        let params = match request.params {
            Some(RpcParams::ResourceRead(p)) => Some(p),
            _ => None,
        };
        handle_resource_read(request.id, params)
    } else {
        let mut message = String::from_str("Method not found: ");
        message.append(method.as_str());
        err_response(request.id, METHOD_NOT_FOUND, message)
    }
}

/// Dispatch a batch: one response per request, in order, each as the
/// single dispatch would answer it.
pub fn handle_batch_request<G: GeoIpLookup, T: TimezoneNamePort, D: TimezoneDetailPort>(
    geoip: &G,
    tz: &T,
    dt: &D,
    caller_ip: Option<&str>,
    requests: Vec<JsonRpcRequest>,
) -> (rs: Vec<JsonRpcResponse>)
    ensures
        rs@.len() == requests@.len(),
        forall|i: int|
            0 <= i < rs@.len() ==> response_matches(
                requests@[i],
                opt_str_view(caller_ip),
                #[trigger] rs@[i],
            ),
{
    let ghost orig = requests@;
    let mut rest = requests;
    let mut rs: Vec<JsonRpcResponse> = Vec::new();
    while rest.len() > 0
        invariant
            rs@.len() + rest@.len() == orig.len(),
            rest@ == orig.skip(rs@.len() as int),
            forall|i: int|
                0 <= i < rs@.len() ==> response_matches(
                    orig[i],
                    opt_str_view(caller_ip),
                    #[trigger] rs@[i],
                ),
        decreases rest@.len(),
    {
        let req = rest.remove(0);
        proof {
            assert(req == orig[rs@.len() as int]);
        }
        let resp = handle_single_request(geoip, tz, dt, caller_ip, req);
        rs.push(resp);
        proof {
            assert(rest@ =~= orig.skip(rs@.len() as int));
        }
    }
    rs
}

} // verus!
