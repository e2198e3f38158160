//! The JSON-RPC surface: tools, dispatch, resources and schemas.

use std::cell::Cell;
use std::collections::HashMap;

use ipgeolocation::mcp_resources::list_resource_infos;
use ipgeolocation::mcp_resources::read_resource;
use ipgeolocation::mcp_resources::GeoIpResourceHandler;
use ipgeolocation::mcp_rpc::handle_batch_request;
use ipgeolocation::mcp_rpc::handle_single_request;
use ipgeolocation::mcp_rpc::JsonRpcRequest;
use ipgeolocation::mcp_rpc::ResourceReadParams;
use ipgeolocation::mcp_rpc::RpcId;
use ipgeolocation::mcp_rpc::RpcParams;
use ipgeolocation::mcp_rpc::RpcResult;
use ipgeolocation::mcp_rpc::ToolArgs;
use ipgeolocation::mcp_rpc::ToolCallParams;
use ipgeolocation::mcp_rpc::INVALID_PARAMS;
use ipgeolocation::mcp_rpc::INVALID_REQUEST;
use ipgeolocation::mcp_rpc::METHOD_NOT_FOUND;
use ipgeolocation::mcp_schemas::geoip_bulk_lookup_input_schema;
use ipgeolocation::mcp_schemas::geoip_lookup_input_schema;
use ipgeolocation::mcp_schemas::timezone_lookup_input_schema;
use ipgeolocation::mcp_tools::default_format;
use ipgeolocation::mcp_tools::handle_geoip_bulk_lookup;
use ipgeolocation::mcp_tools::handle_geoip_lookup;
use ipgeolocation::mcp_tools::handle_geoip_lookup_self;
use ipgeolocation::mcp_tools::handle_timezone_lookup;
use ipgeolocation::mcp_tools::GeoIpBulkLookupInput;
use ipgeolocation::mcp_tools::GeoIpLookupInput;
use ipgeolocation::mcp_tools::GeoIpLookupSelfInput;
use ipgeolocation::mcp_tools::McpErrorCode;
use ipgeolocation::mcp_tools::TimezoneLookupInput;
use ipgeolocation::mcp_tools::ToolPayload;
use ipgeolocation::models::GeoData;
use ipgeolocation::models::TimezoneDetails;
use ipgeolocation::ports::GeoIpError;
use ipgeolocation::ports::GeoIpLookup;
use ipgeolocation::ports::TimezoneDetailPort;
use ipgeolocation::ports::TimezoneNamePort;

struct MockGeoIpReader {
    responses: HashMap<String, Result<GeoData, GeoIpError>>,
    calls: Cell<usize>,
}

impl MockGeoIpReader {
    fn new() -> Self {
        MockGeoIpReader { responses: HashMap::new(), calls: Cell::new(0) }
    }

    fn with_response(mut self, ip: &str, response: Result<GeoData, GeoIpError>) -> Self {
        self.responses.insert(ip.to_string(), response);
        self
    }
}

impl GeoIpLookup for MockGeoIpReader {
    fn lookup(&self, ip_str: &str) -> Result<GeoData, GeoIpError> {
        self.calls.set(self.calls.get() + 1);
        match self.responses.get(ip_str) {
            Some(Ok(data)) => Ok(data.clone()),
            Some(Err(_)) => Err(GeoIpError::NotFound),
            None => Err(GeoIpError::NotFound),
        }
    }
}

struct NoZonePort;

impl TimezoneNamePort for NoZonePort {
    fn resolve(&self, _lat: i64, _lng: i64) -> Option<String> {
        None
    }
}

struct FixedZonePort;

impl TimezoneNamePort for FixedZonePort {
    fn resolve(&self, _lat: i64, _lng: i64) -> Option<String> {
        Some("Europe/Stockholm".to_string())
    }
}

struct NoDetailPort;

impl TimezoneDetailPort for NoDetailPort {
    fn details(&self, _tz_name: &str) -> Option<TimezoneDetails> {
        None
    }
}

fn mountain_view() -> GeoData {
    GeoData {
        latitude: Some(377_510_000),
        longitude: Some(-978_220_000),
        city: Some("Mountain View".to_string()),
        country_name: Some("United States".to_string()),
        country_code: Some("US".to_string()),
        state_prov: Some("California".to_string()),
        state_code: Some("CA".to_string()),
        postal_code: Some("94043".to_string()),
        geoname_id: Some(5375480),
    }
}

fn mock_geoip() -> MockGeoIpReader {
    MockGeoIpReader::new().with_response("8.8.8.8", Ok(mountain_view()))
}

fn lookup_input(ip: &str) -> Result<GeoIpLookupInput, String> {
    Ok(GeoIpLookupInput { ip: ip.to_string(), format: default_format() })
}

#[test]
fn test_default_format_is_full() {
    assert_eq!(default_format(), "full");
}

#[test]
fn test_mcp_error_code_strings() {
    assert_eq!(McpErrorCode::InvalidIp.as_str(), "INVALID_IP");
    assert_eq!(McpErrorCode::PrivateIp.as_str(), "PRIVATE_IP");
    assert_eq!(McpErrorCode::NotFound.as_str(), "NOT_FOUND");
    assert_eq!(McpErrorCode::BulkLimitExceeded.as_str(), "BULK_LIMIT_EXCEEDED");
    assert_eq!(McpErrorCode::InvalidLatitude.as_str(), "INVALID_LATITUDE");
    assert_eq!(McpErrorCode::InvalidLongitude.as_str(), "INVALID_LONGITUDE");
    assert_eq!(McpErrorCode::StdioNoCallerIp.as_str(), "STDIO_NO_CALLER_IP");
}

#[test]
fn test_handle_geoip_lookup_valid() {
    let geoip = mock_geoip();
    let result = handle_geoip_lookup(&geoip, &NoZonePort, &NoDetailPort, lookup_input("8.8.8.8"));
    assert!(!result.is_error);
    match result.payload {
        ToolPayload::Full(f) => assert_eq!(f.ip, Some("8.8.8.8".to_string())),
        _ => panic!("expected the full shape by default"),
    }
}

#[test]
fn test_handle_geoip_lookup_invalid_ip() {
    let geoip = mock_geoip();
    let result = handle_geoip_lookup(&geoip, &NoZonePort, &NoDetailPort, lookup_input("not-an-ip"));
    assert!(result.is_error);
    match result.payload {
        ToolPayload::Failure(e) => {
            assert_eq!(e.code, "INVALID_IP");
            assert_eq!(e.error, "Invalid IP address: not-an-ip");
        }
        _ => panic!("expected a failure payload"),
    }
}

#[test]
fn test_handle_geoip_lookup_private_ip() {
    let geoip = mock_geoip();
    let result = handle_geoip_lookup(&geoip, &NoZonePort, &NoDetailPort, lookup_input("127.0.0.1"));
    assert!(result.is_error);
    match result.payload {
        ToolPayload::Failure(e) => assert_eq!(e.code, "PRIVATE_IP"),
        _ => panic!("expected a failure payload"),
    }
    assert_eq!(geoip.calls.get(), 0, "a private address is rejected before any lookup");
}

#[test]
fn test_handle_geoip_lookup_not_found() {
    let geoip = MockGeoIpReader::new();
    let result = handle_geoip_lookup(&geoip, &NoZonePort, &NoDetailPort, lookup_input("9.9.9.9"));
    assert!(result.is_error);
    match result.payload {
        ToolPayload::Failure(e) => {
            assert_eq!(e.code, "NOT_FOUND");
            assert_eq!(e.error, "IP address not found in database: 9.9.9.9");
        }
        _ => panic!("expected a failure payload"),
    }
}

#[test]
fn test_handle_geoip_lookup_simple_format() {
    let geoip = mock_geoip();
    let input = Ok(GeoIpLookupInput { ip: "8.8.8.8".to_string(), format: "simple".to_string() });
    let result = handle_geoip_lookup(&geoip, &FixedZonePort, &NoDetailPort, input);
    assert!(!result.is_error);
    match result.payload {
        ToolPayload::Simple(s) => {
            assert_eq!(s.city, "Mountain View");
            assert_eq!(s.time_zone.name, "Europe/Stockholm");
            assert_eq!(s.languages, "en-US,en");
        }
        _ => panic!("expected the simple shape"),
    }
}

#[test]
fn test_handle_bulk_lookup_exceeds_limit() {
    let geoip = mock_geoip();
    let ips: Vec<String> = (0..101).map(|i| format!("8.8.8.{}", i % 256)).collect();
    let input = Ok(GeoIpBulkLookupInput { ips, format: default_format() });
    let result = handle_geoip_bulk_lookup(&geoip, &NoZonePort, &NoDetailPort, input);
    assert!(result.is_error);
    match result.payload {
        ToolPayload::Failure(e) => {
            assert_eq!(e.code, "BULK_LIMIT_EXCEEDED");
            assert_eq!(e.error, "Bulk lookup limit exceeded: 101 IPs provided, maximum is 100");
        }
        _ => panic!("expected a failure payload"),
    }
    assert_eq!(geoip.calls.get(), 0, "an oversized batch must invoke the lookup port zero times");
}

#[test]
fn test_bulk_partial_failure() {
    let geoip = mock_geoip();
    let ips = vec![
        "8.8.8.8".to_string(),
        "192.168.1.1".to_string(),
        "definitely-not-an-ip".to_string(),
    ];
    let input = Ok(GeoIpBulkLookupInput { ips, format: default_format() });
    let result = handle_geoip_bulk_lookup(&geoip, &NoZonePort, &NoDetailPort, input);
    assert!(!result.is_error);
    match result.payload {
        ToolPayload::Bulk(b) => {
            assert_eq!(b.results.len(), 1);
            assert_eq!(b.errors.len(), 2);
            assert_eq!(b.errors[0].ip, "192.168.1.1");
            assert_eq!(b.errors[0].code, "PRIVATE_IP");
            assert_eq!(b.errors[1].ip, "definitely-not-an-ip");
            assert_eq!(b.errors[1].code, "INVALID_IP");
        }
        _ => panic!("expected a bulk payload"),
    }
}

#[test]
fn test_bulk_counts_add_up() {
    let geoip = mock_geoip();
    let ips = vec![
        "8.8.8.8".to_string(),
        "9.9.9.9".to_string(),
        "::1".to_string(),
        "10.0.0.1".to_string(),
        "bad".to_string(),
    ];
    let input = Ok(GeoIpBulkLookupInput { ips, format: default_format() });
    let result = handle_geoip_bulk_lookup(&geoip, &NoZonePort, &NoDetailPort, input);
    match result.payload {
        ToolPayload::Bulk(b) => {
            assert_eq!(b.results.len() + b.errors.len(), 5);
            assert_eq!(b.results.len(), 1);
        }
        _ => panic!("expected a bulk payload"),
    }
}

#[test]
fn test_handle_geoip_lookup_self_no_caller_ip() {
    let geoip = mock_geoip();
    let input = Ok(GeoIpLookupSelfInput { format: default_format() });
    let result = handle_geoip_lookup_self(&geoip, &NoZonePort, &NoDetailPort, None, input);
    assert!(result.is_error);
    match result.payload {
        ToolPayload::Failure(e) => assert_eq!(e.code, "STDIO_NO_CALLER_IP"),
        _ => panic!("expected a failure payload"),
    }
}

#[test]
fn test_handle_geoip_lookup_self_with_caller() {
    let geoip = mock_geoip();
    let input = Ok(GeoIpLookupSelfInput { format: default_format() });
    let result =
        handle_geoip_lookup_self(&geoip, &NoZonePort, &NoDetailPort, Some("8.8.8.8"), input);
    assert!(!result.is_error);
    match result.payload {
        ToolPayload::Full(f) => assert_eq!(f.ip, Some("8.8.8.8".to_string())),
        _ => panic!("expected the full shape"),
    }
}

#[test]
fn test_handle_timezone_lookup_valid() {
    let input = Ok(TimezoneLookupInput {
        lat: 593_295_040,
        lon: 180_695_320,
        format: "simple".to_string(),
    });
    let result = handle_timezone_lookup(&FixedZonePort, &NoDetailPort, input);
    assert!(!result.is_error);
    match result.payload {
        ToolPayload::Tz(t) => assert_eq!(t.timezone, "Europe/Stockholm"),
        _ => panic!("expected the simple timezone shape"),
    }
}

#[test]
fn test_handle_timezone_lookup_invalid_lat() {
    let input = Ok(TimezoneLookupInput { lat: 910_000_000, lon: 0, format: default_format() });
    let result = handle_timezone_lookup(&FixedZonePort, &NoDetailPort, input);
    assert!(result.is_error);
    match result.payload {
        ToolPayload::Failure(e) => assert_eq!(e.code, "INVALID_LATITUDE"),
        _ => panic!("expected a failure payload"),
    }
}

#[test]
fn test_handle_timezone_lookup_invalid_lon() {
    let input = Ok(TimezoneLookupInput { lat: 0, lon: 1_810_000_000, format: default_format() });
    let result = handle_timezone_lookup(&FixedZonePort, &NoDetailPort, input);
    assert!(result.is_error);
    match result.payload {
        ToolPayload::Failure(e) => assert_eq!(e.code, "INVALID_LONGITUDE"),
        _ => panic!("expected a failure payload"),
    }
}

#[test]
fn test_handle_timezone_lookup_full_no_zone() {
    let input = Ok(TimezoneLookupInput { lat: 0, lon: -1_600_000_000, format: default_format() });
    let result = handle_timezone_lookup(&NoZonePort, &NoDetailPort, input);
    assert!(!result.is_error);
    match result.payload {
        ToolPayload::TzFull(t) => {
            assert_eq!(t.timezone, "");
            assert!(t.offset.is_none());
        }
        _ => panic!("expected the full timezone shape"),
    }
}

fn rpc_request(version: &str, method: &str, params: Option<RpcParams>) -> JsonRpcRequest {
    JsonRpcRequest {
        jsonrpc: version.to_string(),
        id: RpcId::Num(1),
        method: method.to_string(),
        params,
    }
}

#[test]
fn test_invalid_jsonrpc_version() {
    let geoip = mock_geoip();
    let req = rpc_request("1.0", "tools/list", None);
    let resp = handle_single_request(&geoip, &NoZonePort, &NoDetailPort, None, req);
    assert!(resp.result.is_none());
    let err = resp.error.unwrap();
    assert_eq!(err.code, INVALID_REQUEST);
    assert_eq!(err.message, "Invalid JSON-RPC version");
}

#[test]
fn test_invalid_version_wins_over_any_method() {
    let geoip = mock_geoip();
    for method in ["initialize", "ping", "tools/call", "nonsense"] {
        let req = rpc_request("2.1", method, None);
        let resp = handle_single_request(&geoip, &NoZonePort, &NoDetailPort, None, req);
        assert_eq!(resp.error.unwrap().code, INVALID_REQUEST);
    }
}

#[test]
fn test_lifecycle_methods() {
    let geoip = mock_geoip();
    let resp = handle_single_request(
        &geoip,
        &NoZonePort,
        &NoDetailPort,
        None,
        rpc_request("2.0", "initialize", None),
    );
    assert!(matches!(resp.result, Some(RpcResult::Initialize)));
    for method in ["initialized", "ping"] {
        let resp = handle_single_request(
            &geoip,
            &NoZonePort,
            &NoDetailPort,
            None,
            rpc_request("2.0", method, None),
        );
        assert!(matches!(resp.result, Some(RpcResult::Empty)));
    }
}

#[test]
fn test_unknown_method_not_found() {
    let geoip = mock_geoip();
    let resp = handle_single_request(
        &geoip,
        &NoZonePort,
        &NoDetailPort,
        None,
        rpc_request("2.0", "tools/uninstall", None),
    );
    let err = resp.error.unwrap();
    assert_eq!(err.code, METHOD_NOT_FOUND);
    assert_eq!(err.message, "Method not found: tools/uninstall");
}

#[test]
fn test_tools_call_missing_params() {
    let geoip = mock_geoip();
    let resp = handle_single_request(
        &geoip,
        &NoZonePort,
        &NoDetailPort,
        None,
        rpc_request("2.0", "tools/call", None),
    );
    let err = resp.error.unwrap();
    assert_eq!(err.code, INVALID_PARAMS);
    assert_eq!(err.message, "Missing params");
}

#[test]
fn test_tools_call_unknown_tool() {
    let geoip = mock_geoip();
    let params = RpcParams::ToolCall(ToolCallParams {
        name: Some("geoip_erase".to_string()),
        args: ToolArgs::Unavailable,
    });
    let resp = handle_single_request(
        &geoip,
        &NoZonePort,
        &NoDetailPort,
        None,
        rpc_request("2.0", "tools/call", Some(params)),
    );
    let err = resp.error.unwrap();
    assert_eq!(err.code, METHOD_NOT_FOUND);
    assert_eq!(err.message, "Unknown tool: geoip_erase");
}

#[test]
fn test_tools_call_business_error_is_not_protocol_error() {
    let geoip = mock_geoip();
    let params = RpcParams::ToolCall(ToolCallParams {
        name: Some("geoip_lookup".to_string()),
        args: ToolArgs::Lookup(lookup_input("127.0.0.1")),
    });
    let resp = handle_single_request(
        &geoip,
        &NoZonePort,
        &NoDetailPort,
        None,
        rpc_request("2.0", "tools/call", Some(params)),
    );
    assert!(resp.error.is_none(), "business failures ride inside a successful envelope");
    match resp.result.unwrap() {
        RpcResult::Tool(t) => {
            assert!(t.is_error);
            match t.payload {
                ToolPayload::Failure(e) => assert_eq!(e.code, "PRIVATE_IP"),
                _ => panic!("expected a failure payload"),
            }
        }
        _ => panic!("expected a tool result"),
    }
}

#[test]
fn test_resources_read_via_rpc() {
    let geoip = mock_geoip();
    let params = RpcParams::ResourceRead(ResourceReadParams {
        uri: Some("geoip://limits".to_string()),
    });
    let resp = handle_single_request(
        &geoip,
        &NoZonePort,
        &NoDetailPort,
        None,
        rpc_request("2.0", "resources/read", Some(params)),
    );
    match resp.result.unwrap() {
        RpcResult::Resource(c) => {
            assert_eq!(c.uri, "geoip://limits");
            assert_eq!(c.mime_type, "application/json");
        }
        _ => panic!("expected a resource result"),
    }
}

#[test]
fn test_resources_read_unknown_uri() {
    let geoip = mock_geoip();
    let params = RpcParams::ResourceRead(ResourceReadParams {
        uri: Some("geoip://nothing".to_string()),
    });
    let resp = handle_single_request(
        &geoip,
        &NoZonePort,
        &NoDetailPort,
        None,
        rpc_request("2.0", "resources/read", Some(params)),
    );
    let err = resp.error.unwrap();
    assert_eq!(err.code, INVALID_PARAMS);
    assert_eq!(err.message, "Resource not found: geoip://nothing");
}

#[test]
fn test_rpc_batch_mixed() {
    let geoip = mock_geoip();
    let batch = vec![
        rpc_request("2.0", "ping", None),
        rpc_request("1.0", "ping", None),
        rpc_request("2.0", "no/such", None),
    ];
    let out = handle_batch_request(&geoip, &NoZonePort, &NoDetailPort, None, batch);
    assert_eq!(out.len(), 3);
    assert!(matches!(out[0].result, Some(RpcResult::Empty)));
    assert_eq!(out[1].error.as_ref().unwrap().code, INVALID_REQUEST);
    assert_eq!(out[2].error.as_ref().unwrap().code, METHOD_NOT_FOUND);
}

#[test]
fn test_list_resources() {
    let geoip = mock_geoip();
    let resp = handle_single_request(
        &geoip,
        &NoZonePort,
        &NoDetailPort,
        None,
        rpc_request("2.0", "resources/list", None),
    );
    match resp.result.unwrap() {
        RpcResult::ResourcesList(infos) => assert_eq!(infos.len(), 4),
        _ => panic!("expected a resource listing"),
    }
}

#[test]
fn test_list_resource_infos_returns_four() {
    let resources = list_resource_infos();
    assert_eq!(resources.len(), 4);
}

#[test]
fn test_list_resource_infos_has_correct_uris() {
    let resources = list_resource_infos();
    let uris: Vec<&str> = resources.iter().map(|r| r.uri.as_str()).collect();
    assert!(uris.contains(&"geoip://schema"));
    assert!(uris.contains(&"geoip://data-source"));
    assert!(uris.contains(&"geoip://limits"));
    assert!(uris.contains(&"geoip://privacy"));
}

#[test]
fn test_read_resource_schema() {
    assert!(read_resource("geoip://schema").is_some());
}

#[test]
fn test_read_resource_data_source() {
    assert!(read_resource("geoip://data-source").is_some());
}

#[test]
fn test_read_resource_limits() {
    assert!(read_resource("geoip://limits").is_some());
}

#[test]
fn test_read_resource_privacy() {
    assert!(read_resource("geoip://privacy").is_some());
}

#[test]
fn test_read_resource_unknown() {
    assert!(read_resource("geoip://unknown").is_none());
}

#[test]
fn test_resource_handler_read_and_list() {
    let handler = GeoIpResourceHandler;
    assert!(handler.read("geoip://schema").is_ok());
    let err = handler.read("geoip://missing").unwrap_err();
    assert_eq!(err, "Resource not found: geoip://missing");
    assert_eq!(handler.list().len(), 4);
}

#[test]
fn test_schema_resource_contains_definitions() {
    let content = read_resource("geoip://schema").unwrap();
    let json: serde_json::Value = serde_json::from_str(&content.text).unwrap();
    assert!(json["definitions"]["IpGeoResponseSimple"].is_object());
    assert!(json["definitions"]["IpGeoResponseFull"].is_object());
}

#[test]
fn test_limits_resource_has_bulk_cap() {
    let content = read_resource("geoip://limits").unwrap();
    let json: serde_json::Value = serde_json::from_str(&content.text).unwrap();
    assert_eq!(json["limits"]["bulk_lookup"]["max_ips_per_request"], 100);
}

#[test]
fn test_geoip_lookup_input_schema_has_required_fields() {
    let schema: serde_json::Value =
        serde_json::from_str(&geoip_lookup_input_schema()).unwrap();
    assert!(schema["properties"]["ip"].is_object());
    assert_eq!(schema["required"][0], "ip");
}

#[test]
fn test_geoip_bulk_lookup_input_schema_has_max_items() {
    let schema: serde_json::Value =
        serde_json::from_str(&geoip_bulk_lookup_input_schema()).unwrap();
    assert_eq!(schema["properties"]["ips"]["maxItems"], 100);
}

#[test]
fn test_timezone_lookup_input_schema_has_coordinate_bounds() {
    let schema: serde_json::Value =
        serde_json::from_str(&timezone_lookup_input_schema()).unwrap();
    assert_eq!(schema["properties"]["lat"]["minimum"], -90);
    assert_eq!(schema["properties"]["lat"]["maximum"], 90);
    assert_eq!(schema["properties"]["lon"]["minimum"], -180);
    assert_eq!(schema["properties"]["lon"]["maximum"], 180);
}

#[test]
fn test_malformed_tool_arguments_are_invalid_input() {
    let geoip = mock_geoip();
    let input: Result<GeoIpLookupInput, String> = Err("missing field `ip`".to_string());
    let result = handle_geoip_lookup(&geoip, &NoZonePort, &NoDetailPort, input);
    assert!(result.is_error);
    match result.payload {
        ToolPayload::Failure(e) => {
            assert_eq!(e.code, "INVALID_IP");
            assert_eq!(e.error, "Invalid input: missing field `ip`");
        }
        _ => panic!("expected a failure payload"),
    }
}

#[test]
fn test_list_tools() {
    let doc: serde_json::Value =
        serde_json::from_str(&ipgeolocation::mcp_schemas::tools_list_document()).unwrap();
    let tools_arr = doc["tools"].as_array().unwrap();
    assert_eq!(tools_arr.len(), 4);
    let names: Vec<&str> = tools_arr.iter().map(|t| t["name"].as_str().unwrap()).collect();
    assert!(names.contains(&"geoip_lookup"));
    assert!(names.contains(&"geoip_bulk_lookup"));
    assert!(names.contains(&"geoip_lookup_self"));
    assert!(names.contains(&"timezone_lookup"));
}
