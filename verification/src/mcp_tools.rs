//! The tool handlers of the JSON-RPC surface.
//!
//! Four tools: a single lookup, a bulk lookup capped at one hundred
//! addresses, a self lookup needing a transport-supplied caller
//! address, and a coordinate-to-timezone lookup.  Tool failures are
//! business errors carried inside a successful envelope with the error
//! flag set; they are never protocol errors.  The tool path never
//! consults the result cache: every call recomputes.

use vstd::prelude::*;

use crate::builder::build_full_response;
use crate::builder::build_simple_response;
use crate::builder::compose_timezone_full;
use crate::ip::is_private_ip;
use crate::ip::lemma_private_matches;
use crate::ip::parse_ip;
use crate::ip::spec_private_addr;
use crate::ip::spec_valid_ip;
use crate::models::ApiErrorResponse;
use crate::models::IpGeoResponse;
use crate::models::IpGeoResponseFull;
use crate::models::TimezoneResponse;
use crate::models::TimezoneResponseFull;
use crate::ports::GeoIpError;
use crate::ports::GeoIpLookup;
use crate::ports::TimezoneDetailPort;
use crate::ports::TimezoneNamePort;
use crate::ip::views_of;
use crate::languages::opt_str_view;
use crate::strutil::e7_display;
use crate::strutil::lemma_prefix_of_concat;
use crate::strutil::spec_dec;
use crate::strutil::spec_e7_display;
use crate::strutil::spec_has_prefix;
use crate::strutil::str_eq;
use crate::validate::spec_lat_in_range;
use crate::validate::spec_lon_in_range;
use crate::validate::BULK_LOOKUP_MAX_IPS;
use crate::validate::LATITUDE_MAX_E7;
use crate::validate::LONGITUDE_MAX_E7;

verus! {

/// The business error codes of the tool surface.
#[derive(Debug, Clone, Copy, PartialEq, Eq, Structural)]
pub enum McpErrorCode {
    InvalidIp,
    PrivateIp,
    NotFound,
    BulkLimitExceeded,
    InvalidLatitude,
    InvalidLongitude,
    StdioNoCallerIp,
}

/// The wire form of each code.
pub open spec fn spec_code_str(c: McpErrorCode) -> Seq<char> {
    match c {
        McpErrorCode::InvalidIp => "INVALID_IP"@,
        McpErrorCode::PrivateIp => "PRIVATE_IP"@,
        McpErrorCode::NotFound => "NOT_FOUND"@,
        McpErrorCode::BulkLimitExceeded => "BULK_LIMIT_EXCEEDED"@,
        McpErrorCode::InvalidLatitude => "INVALID_LATITUDE"@,
        McpErrorCode::InvalidLongitude => "INVALID_LONGITUDE"@,
        McpErrorCode::StdioNoCallerIp => "STDIO_NO_CALLER_IP"@,
    }
}

impl McpErrorCode {
    pub fn as_str(&self) -> (r: &'static str)
        ensures
            r@ == spec_code_str(*self),
    {
        match self {
            McpErrorCode::InvalidIp => "INVALID_IP",
            McpErrorCode::PrivateIp => "PRIVATE_IP",
            McpErrorCode::NotFound => "NOT_FOUND",
            McpErrorCode::BulkLimitExceeded => "BULK_LIMIT_EXCEEDED",
            McpErrorCode::InvalidLatitude => "INVALID_LATITUDE",
            McpErrorCode::InvalidLongitude => "INVALID_LONGITUDE",
            McpErrorCode::StdioNoCallerIp => "STDIO_NO_CALLER_IP",
        }
    }
}

/// The format a tool call falls back to when none was given.
pub fn default_format() -> (r: String)
    ensures
        r@ == "full"@,
{
    String::from_str("full")
}

/// Input of the single lookup tool.
#[derive(Debug)]
pub struct GeoIpLookupInput {
    pub ip: String,
    pub format: String,
}

/// Input of the bulk lookup tool.
#[derive(Debug)]
pub struct GeoIpBulkLookupInput {
    pub ips: Vec<String>,
    pub format: String,
}

/// Input of the self lookup tool.
#[derive(Debug)]
pub struct GeoIpLookupSelfInput {
    pub format: String,
}

/// Input of the timezone lookup tool; coordinates in E7.
#[derive(Debug)]
pub struct TimezoneLookupInput {
    pub lat: i64,
    pub lon: i64,
    pub format: String,
}

/// One failed address of a bulk lookup.
#[derive(Debug, Clone)]
pub struct BulkLookupError {
    pub ip: String,
    pub code: String,
    pub message: String,
}

/// Outcome of a bulk lookup: successes and failures side by side.
#[derive(Debug)]
pub struct BulkLookupResult {
    pub results: Vec<IpGeoResponseFull>,
    pub errors: Vec<BulkLookupError>,
}

/// What a tool call produced.
pub enum ToolPayload {
    Simple(IpGeoResponse),
    Full(IpGeoResponseFull),
    Bulk(BulkLookupResult),
    Tz(TimezoneResponse),
    TzFull(TimezoneResponseFull),
    Failure(ApiErrorResponse),
}

/// A tool result: the payload and the business error flag.
pub struct CallToolResult {
    pub payload: ToolPayload,
    pub is_error: bool,
}

/// The result is a business failure with the given code.
pub open spec fn is_failure(r: CallToolResult, code: McpErrorCode) -> bool {
    &&& r.is_error
    &&& r.payload matches ToolPayload::Failure(e) && e.code@ == spec_code_str(code)
}

/// What a successful validation hands to the lookup port yields: the
/// shape the `format` field selects on success, the address echoed in
/// the full shape, and on failure one of the two lookup error codes
/// with its message.
pub open spec fn lookup_result_payload(ip: Seq<char>, format: Seq<char>, r: CallToolResult) -> bool {
    match r.payload {
        ToolPayload::Simple(_) => !r.is_error && format == "simple"@,
        ToolPayload::Full(f) => !r.is_error && format != "simple"@ && (f.ip matches Some(s) && s@
            == ip),
        ToolPayload::Failure(e) => r.is_error && {
            ||| (e.code@ == spec_code_str(McpErrorCode::NotFound) && e.error@
                == "IP address not found in database: "@ + ip)
            ||| (e.code@ == spec_code_str(McpErrorCode::InvalidIp) && spec_has_prefix(
                e.error@,
                "Lookup error: "@,
            ))
        },
        _ => false,
    }
}

/// The whole contract of the single lookup tool.
pub open spec fn geoip_lookup_post(input: Result<GeoIpLookupInput, String>, r: CallToolResult) -> bool {
    match input {
        Err(m) => is_failure(r, McpErrorCode::InvalidIp) && (r.payload matches
            ToolPayload::Failure(e) && e.error@ == "Invalid input: "@ + m@),
        Ok(i) => {
            &&& !spec_valid_ip(i.ip@) ==> (is_failure(r, McpErrorCode::InvalidIp) && (r.payload
                matches ToolPayload::Failure(e) && e.error@ == "Invalid IP address: "@ + i.ip@))
            &&& spec_valid_ip(i.ip@) && spec_private_addr(i.ip@) ==> (is_failure(
                r,
                McpErrorCode::PrivateIp,
            ) && (r.payload matches ToolPayload::Failure(e) && e.error@
                == "Private/loopback IP address not supported: "@ + i.ip@))
            &&& spec_valid_ip(i.ip@) && !spec_private_addr(i.ip@) ==> lookup_result_payload(
                i.ip@,
                i.format@,
                r,
            )
        },
    }
}

/// The whole contract of the self lookup tool: without a caller
/// address its dedicated failure, with one exactly the single lookup's
/// behavior on that address.
pub open spec fn geoip_self_post(
    caller: Option<Seq<char>>,
    input: Result<GeoIpLookupSelfInput, String>,
    r: CallToolResult,
) -> bool {
    match input {
        Err(m) => is_failure(r, McpErrorCode::InvalidIp) && (r.payload matches
            ToolPayload::Failure(e) && e.error@ == "Invalid input: "@ + m@),
        Ok(i) => match caller {
            None => is_failure(r, McpErrorCode::StdioNoCallerIp),
            Some(ip) => {
                &&& !spec_valid_ip(ip) ==> (is_failure(r, McpErrorCode::InvalidIp) && (r.payload
                    matches ToolPayload::Failure(e) && e.error@ == "Invalid IP address: "@ + ip))
                &&& spec_valid_ip(ip) && spec_private_addr(ip) ==> (is_failure(
                    r,
                    McpErrorCode::PrivateIp,
                ) && (r.payload matches ToolPayload::Failure(e) && e.error@
                    == "Private/loopback IP address not supported: "@ + ip))
                &&& spec_valid_ip(ip) && !spec_private_addr(ip) ==> lookup_result_payload(
                    ip,
                    i.format@,
                    r,
                )
            },
        },
    }
}

/// The error a malformed bulk entry contributes.
pub open spec fn invalid_entry(e: BulkLookupError, ip: Seq<char>) -> bool {
    &&& e.ip@ == ip
    &&& e.code@ == spec_code_str(McpErrorCode::InvalidIp)
    &&& e.message@ == "Invalid IP address: "@ + ip
}

/// The error a private bulk entry contributes.
pub open spec fn private_entry(e: BulkLookupError, ip: Seq<char>) -> bool {
    &&& e.ip@ == ip
    &&& e.code@ == spec_code_str(McpErrorCode::PrivateIp)
    &&& e.message@ == "Private/loopback IP address not supported"@
}

/// The error a looked-up bulk entry may contribute: not found, or a
/// backend failure.
pub open spec fn lookup_error_entry(e: BulkLookupError, ip: Seq<char>) -> bool {
    &&& e.ip@ == ip
    &&& {
        ||| (e.code@ == spec_code_str(McpErrorCode::NotFound) && e.message@
            == "IP address not found in database"@)
        ||| (e.code@ == spec_code_str(McpErrorCode::InvalidIp) && spec_has_prefix(
            e.message@,
            "Lookup error: "@,
        ))
    }
}

/// The full response for a bulk entry echoes its address.
pub open spec fn result_echoes(res: IpGeoResponseFull, ip: Seq<char>) -> bool {
    res.ip matches Some(s) && s@ == ip
}

/// Each bulk input contributes exactly one outcome, in input order
/// within its list: a malformed address its `INVALID_IP` error, a
/// private one its `PRIVATE_IP` error, and a public valid one either a
/// full response echoing it or a lookup error naming it.
pub open spec fn bulk_outcomes_match(
    ips: Seq<Seq<char>>,
    results: Seq<IpGeoResponseFull>,
    errors: Seq<BulkLookupError>,
) -> bool
    decreases ips.len(),
{
    if ips.len() == 0 {
        results.len() == 0 && errors.len() == 0
    } else {
        let ip = ips[0];
        if !spec_valid_ip(ip) {
            errors.len() > 0 && invalid_entry(errors[0], ip) && bulk_outcomes_match(
                ips.drop_first(),
                results,
                errors.drop_first(),
            )
        } else if spec_private_addr(ip) {
            errors.len() > 0 && private_entry(errors[0], ip) && bulk_outcomes_match(
                ips.drop_first(),
                results,
                errors.drop_first(),
            )
        } else {
            ||| (results.len() > 0 && result_echoes(results[0], ip) && bulk_outcomes_match(
                ips.drop_first(),
                results.drop_first(),
                errors,
            ))
            ||| (errors.len() > 0 && lookup_error_entry(errors[0], ip) && bulk_outcomes_match(
                ips.drop_first(),
                results,
                errors.drop_first(),
            ))
        }
    }
}

/// Appending one more input together with its error entry keeps the
/// correspondence.
proof fn lemma_bulk_push_error(
    ips: Seq<Seq<char>>,
    results: Seq<IpGeoResponseFull>,
    errors: Seq<BulkLookupError>,
    ip: Seq<char>,
    e: BulkLookupError,
)
    requires
        bulk_outcomes_match(ips, results, errors),
        !spec_valid_ip(ip) ==> invalid_entry(e, ip),
        spec_valid_ip(ip) && spec_private_addr(ip) ==> private_entry(e, ip),
        spec_valid_ip(ip) && !spec_private_addr(ip) ==> lookup_error_entry(e, ip),
    ensures
        bulk_outcomes_match(ips.push(ip), results, errors.push(e)),
    decreases ips.len(),
{
    if ips.len() == 0 {
        assert(ips.push(ip)[0] == ip);
        assert(errors.push(e)[0] == e);
        assert(ips.push(ip).drop_first() =~= ips);
        assert(errors.push(e).drop_first() =~= errors);
    } else {
        let ip0 = ips[0];
        assert(ips.push(ip)[0] == ip0);
        assert(ips.push(ip).drop_first() =~= ips.drop_first().push(ip));
        if !spec_valid_ip(ip0) || spec_private_addr(ip0) {
            assert(errors.push(e)[0] == errors[0]);
            assert(errors.push(e).drop_first() =~= errors.drop_first().push(e));
            lemma_bulk_push_error(ips.drop_first(), results, errors.drop_first(), ip, e);
        } else {
            if results.len() > 0 && result_echoes(results[0], ip0) && bulk_outcomes_match(
                ips.drop_first(),
                results.drop_first(),
                errors,
            ) {
                lemma_bulk_push_error(ips.drop_first(), results.drop_first(), errors, ip, e);
            } else {
                assert(errors.push(e)[0] == errors[0]);
                assert(errors.push(e).drop_first() =~= errors.drop_first().push(e));
                lemma_bulk_push_error(ips.drop_first(), results, errors.drop_first(), ip, e);
            }
        }
    }
}

/// Appending one more input together with its full response keeps the
/// correspondence.
proof fn lemma_bulk_push_result(
    ips: Seq<Seq<char>>,
    results: Seq<IpGeoResponseFull>,
    errors: Seq<BulkLookupError>,
    ip: Seq<char>,
    res: IpGeoResponseFull,
)
    requires
        bulk_outcomes_match(ips, results, errors),
        spec_valid_ip(ip),
        !spec_private_addr(ip),
        result_echoes(res, ip),
    ensures
        bulk_outcomes_match(ips.push(ip), results.push(res), errors),
    decreases ips.len(),
{
    if ips.len() == 0 {
        assert(ips.push(ip)[0] == ip);
        assert(results.push(res)[0] == res);
        assert(ips.push(ip).drop_first() =~= ips);
        assert(results.push(res).drop_first() =~= results);
    } else {
        let ip0 = ips[0];
        assert(ips.push(ip)[0] == ip0);
        assert(ips.push(ip).drop_first() =~= ips.drop_first().push(ip));
        if !spec_valid_ip(ip0) || spec_private_addr(ip0) {
            lemma_bulk_push_result(ips.drop_first(), results, errors.drop_first(), ip, res);
        } else {
            if results.len() > 0 && result_echoes(results[0], ip0) && bulk_outcomes_match(
                ips.drop_first(),
                results.drop_first(),
                errors,
            ) {
                assert(results.push(res)[0] == results[0]);
                assert(results.push(res).drop_first() =~= results.drop_first().push(res));
                lemma_bulk_push_result(ips.drop_first(), results.drop_first(), errors, ip, res);
            } else {
                lemma_bulk_push_result(ips.drop_first(), results, errors.drop_first(), ip, res);
            }
        }
    }
}

/// The whole contract of the bulk lookup tool.
pub open spec fn geoip_bulk_post(
    input: Result<GeoIpBulkLookupInput, String>,
    r: CallToolResult,
) -> bool {
    match input {
        Err(m) => is_failure(r, McpErrorCode::InvalidIp) && (r.payload matches
            ToolPayload::Failure(e) && e.error@ == "Invalid input: "@ + m@),
        Ok(i) => {
            &&& i.ips@.len() > 100 ==> (is_failure(r, McpErrorCode::BulkLimitExceeded) && (
            r.payload matches ToolPayload::Failure(e) && e.error@
                == "Bulk lookup limit exceeded: "@ + spec_dec(i.ips@.len())
                + " IPs provided, maximum is 100"@))
            &&& i.ips@.len() <= 100 ==> (r.payload matches ToolPayload::Bulk(b) && !r.is_error
                && b.results@.len() + b.errors@.len() == i.ips@.len() && bulk_outcomes_match(
                views_of(i.ips@),
                b.results@,
                b.errors@,
            ))
        },
    }
}

/// The whole contract of the timezone lookup tool.
pub open spec fn timezone_post(input: Result<TimezoneLookupInput, String>, r: CallToolResult) -> bool {
    match input {
        Err(m) => is_failure(r, McpErrorCode::InvalidLatitude) && (r.payload matches
            ToolPayload::Failure(e) && e.error@ == "Invalid input: "@ + m@),
        Ok(i) => {
            &&& !spec_lat_in_range(i.lat as int) ==> (is_failure(r, McpErrorCode::InvalidLatitude)
                && (r.payload matches ToolPayload::Failure(e) && e.error@
                == "Latitude must be between -90 and 90, got: "@ + spec_e7_display(i.lat as int)))
            &&& spec_lat_in_range(i.lat as int) && !spec_lon_in_range(i.lon as int) ==> (
            is_failure(r, McpErrorCode::InvalidLongitude) && (r.payload matches
                ToolPayload::Failure(e) && e.error@
                == "Longitude must be between -180 and 180, got: "@ + spec_e7_display(
                i.lon as int,
            )))
            &&& spec_lat_in_range(i.lat as int) && spec_lon_in_range(i.lon as int) ==> (match r.payload {
                ToolPayload::Tz(_) => !r.is_error && i.format@ == "simple"@,
                ToolPayload::TzFull(_) => !r.is_error && i.format@ != "simple"@,
                _ => false,
            })
        },
    }
}

/// A business error result.
pub fn error_result(code: McpErrorCode, message: &str) -> (r: CallToolResult)
    ensures
        is_failure(r, code),
        r.payload matches ToolPayload::Failure(e) && e.error@ == message@,
{
    CallToolResult {
        payload: ToolPayload::Failure(
            ApiErrorResponse { error: message.to_owned(), code: code.as_str().to_owned() },
        ),
        is_error: true,
    }
}

/// A business error result whose message ends with the offending input.
fn error_result_with(code: McpErrorCode, prefix: &str, detail: &str) -> (r: CallToolResult)
    ensures
        is_failure(r, code),
        r.payload matches ToolPayload::Failure(e) && e.error@ == prefix@ + detail@,
{
    let mut message = prefix.to_owned();
    message.append(detail);
    CallToolResult {
        payload: ToolPayload::Failure(
            ApiErrorResponse { error: message, code: code.as_str().to_owned() },
        ),
        is_error: true,
    }
}

/// Handle the single lookup tool.
///
/// A malformed argument object, a malformed address and a private
/// address are business errors; a missed lookup is `NOT_FOUND`.  On
/// success the `format` field picks the simple or the full shape.
pub fn handle_geoip_lookup<G: GeoIpLookup, T: TimezoneNamePort, D: TimezoneDetailPort>(
    geoip: &G,
    tz: &T,
    dt: &D,
    input: Result<GeoIpLookupInput, String>,
) -> (r: CallToolResult)
    ensures
        geoip_lookup_post(input, r),
{
    let input = match input {
        Ok(i) => i,
        Err(m) => {
            return error_result_with(McpErrorCode::InvalidIp, "Invalid input: ", m.as_str());
        },
    };
    let parsed = match parse_ip(input.ip.as_str()) {
        Some(p) => p,
        None => {
            return error_result_with(
                McpErrorCode::InvalidIp,
                "Invalid IP address: ",
                input.ip.as_str(),
            );
        },
    };
    if is_private_ip(&parsed) {
        proof {
            lemma_private_matches(input.ip@, parsed);
        }
        return error_result_with(
            McpErrorCode::PrivateIp,
            "Private/loopback IP address not supported: ",
            input.ip.as_str(),
        );
    }
    proof {
        lemma_private_matches(input.ip@, parsed);
    }
    match geoip.lookup(input.ip.as_str()) {
        Ok(geo_data) => {
            if str_eq(input.format.as_str(), "simple") {
                CallToolResult {
                    payload: ToolPayload::Simple(build_simple_response(tz, &geo_data)),
                    is_error: false,
                }
            } else {
                CallToolResult {
                    payload: ToolPayload::Full(
                        build_full_response(tz, dt, input.ip.as_str(), &geo_data),
                    ),
                    is_error: false,
                }
            }
        },
        Err(GeoIpError::NotFound) => error_result_with(
            McpErrorCode::NotFound,
            "IP address not found in database: ",
            input.ip.as_str(),
        ),
        Err(e) => {
            let detail = e.describe();
            proof {
                lemma_prefix_of_concat("Lookup error: "@, detail@);
            }
            error_result_with(McpErrorCode::InvalidIp, "Lookup error: ", detail.as_str())
        },
    }
}

/// Handle the bulk lookup tool.
///
/// A batch over the cap is rejected whole, before any lookup.  Under
/// the cap every address is treated independently: each contributes a
/// full response or one coded error, and the counts always add up to
/// the batch size.
pub fn handle_geoip_bulk_lookup<G: GeoIpLookup, T: TimezoneNamePort, D: TimezoneDetailPort>(
    geoip: &G,
    tz: &T,
    dt: &D,
    input: Result<GeoIpBulkLookupInput, String>,
) -> (r: CallToolResult)
    ensures
        geoip_bulk_post(input, r),
{
    let input = match input {
        Ok(i) => i,
        Err(m) => {
            return error_result_with(McpErrorCode::InvalidIp, "Invalid input: ", m.as_str());
        },
    };
    let n = input.ips.len();
    if n > BULK_LOOKUP_MAX_IPS {
        let mut message = String::from_str("Bulk lookup limit exceeded: ");
        let count = crate::strutil::u64_to_string(n as u64);
        message.append(count.as_str());
        message.append(" IPs provided, maximum is 100");
        return CallToolResult {
            payload: ToolPayload::Failure(
                ApiErrorResponse {
                    error: message,
                    code: McpErrorCode::BulkLimitExceeded.as_str().to_owned(),
                },
            ),
            is_error: true,
        };
    }
    let ghost ipsv = views_of(input.ips@);
    let mut results: Vec<IpGeoResponseFull> = Vec::new();
    let mut errors: Vec<BulkLookupError> = Vec::new();
    let mut idx: usize = 0;
    proof {
        assert(ipsv.take(0) =~= Seq::<Seq<char>>::empty());
    }
    while idx < n
        invariant
            n == input.ips@.len(),
            ipsv == views_of(input.ips@),
            0 <= idx <= n,
            results@.len() + errors@.len() == idx,
            bulk_outcomes_match(ipsv.take(idx as int), results@, errors@),
        decreases n - idx,
    {
        let ip_str = &input.ips[idx];
        proof {
            assert(ipsv[idx as int] == input.ips@[idx as int]@);
            assert(ipsv.take(idx + 1) =~= ipsv.take(idx as int).push(ipsv[idx as int]));
        }
        let ghost ipv = ipsv[idx as int];
        match parse_ip(ip_str.as_str()) {
            None => {
                let mut message = String::from_str("Invalid IP address: ");
                message.append(ip_str.as_str());
                let entry = BulkLookupError {
                    ip: ip_str.clone(),
                    code: McpErrorCode::InvalidIp.as_str().to_owned(),
                    message,
                };
                proof {
                    assert(invalid_entry(entry, ipv));
                    lemma_bulk_push_error(ipsv.take(idx as int), results@, errors@, ipv, entry);
                }
                errors.push(entry);
            },
            Some(parsed) => {
                proof {
                    lemma_private_matches(ipv, parsed);
                }
                if is_private_ip(&parsed) {
                    let entry = BulkLookupError {
                        ip: ip_str.clone(),
                        code: McpErrorCode::PrivateIp.as_str().to_owned(),
                        message: String::from_str("Private/loopback IP address not supported"),
                    };
                    proof {
                        assert(private_entry(entry, ipv));
                        lemma_bulk_push_error(ipsv.take(idx as int), results@, errors@, ipv, entry);
                    }
                    errors.push(entry);
                } else {
                    match geoip.lookup(ip_str.as_str()) {
                        Ok(geo_data) => {
                            let res = build_full_response(tz, dt, ip_str.as_str(), &geo_data);
                            proof {
                                assert(result_echoes(res, ipv));
                                lemma_bulk_push_result(
                                    ipsv.take(idx as int),
                                    results@,
                                    errors@,
                                    ipv,
                                    res,
                                );
                            }
                            results.push(res);
                        },
                        Err(GeoIpError::NotFound) => {
                            let entry = BulkLookupError {
                                ip: ip_str.clone(),
                                code: McpErrorCode::NotFound.as_str().to_owned(),
                                message: String::from_str("IP address not found in database"),
                            };
                            proof {
                                assert(lookup_error_entry(entry, ipv));
                                lemma_bulk_push_error(
                                    ipsv.take(idx as int),
                                    results@,
                                    errors@,
                                    ipv,
                                    entry,
                                );
                            }
                            errors.push(entry);
                        },
                        Err(e) => {
                            let mut message = String::from_str("Lookup error: ");
                            let detail = e.describe();
                            message.append(detail.as_str());
                            let entry = BulkLookupError {
                                ip: ip_str.clone(),
                                code: McpErrorCode::InvalidIp.as_str().to_owned(),
                                message,
                            };
                            proof {
                                lemma_prefix_of_concat("Lookup error: "@, detail@);
                                assert(lookup_error_entry(entry, ipv));
                                lemma_bulk_push_error(
                                    ipsv.take(idx as int),
                                    results@,
                                    errors@,
                                    ipv,
                                    entry,
                                );
                            }
                            errors.push(entry);
                        },
                    }
                }
            },
        }
        idx = idx + 1;
    }
    proof {
        assert(ipsv.take(n as int) =~= ipsv);
    }
    CallToolResult {
        payload: ToolPayload::Bulk(BulkLookupResult { results, errors }),
        is_error: false,
    }
}

/// Handle the self lookup tool.
///
/// Without a transport-supplied caller address the tool fails with its
/// dedicated code rather than guessing; with one it behaves as the
/// single lookup does on that address.
pub fn handle_geoip_lookup_self<G: GeoIpLookup, T: TimezoneNamePort, D: TimezoneDetailPort>(
    geoip: &G,
    tz: &T,
    dt: &D,
    caller_ip: Option<&str>,
    input: Result<GeoIpLookupSelfInput, String>,
) -> (r: CallToolResult)
    ensures
        geoip_self_post(opt_str_view(caller_ip), input, r),
{
    let input = match input {
        Ok(i) => i,
        Err(m) => {
            return error_result_with(McpErrorCode::InvalidIp, "Invalid input: ", m.as_str());
        },
    };
    let ip = match caller_ip {
        Some(ip) => ip,
        None => {
            return error_result(
                McpErrorCode::StdioNoCallerIp,
                "geoip_lookup_self is not available over STDIO transport. Use geoip_lookup with an explicit IP address instead, or use SSE transport which provides caller IP information.",
            );
        },
    };
    let parsed = match parse_ip(ip) {
        Some(p) => p,
        None => {
            return error_result_with(McpErrorCode::InvalidIp, "Invalid IP address: ", ip);
        },
    };
    if is_private_ip(&parsed) {
        proof {
            lemma_private_matches(ip@, parsed);
        }
        return error_result_with(
            McpErrorCode::PrivateIp,
            "Private/loopback IP address not supported: ",
            ip,
        );
    }
    proof {
        lemma_private_matches(ip@, parsed);
    }
    match geoip.lookup(ip) {
        Ok(geo_data) => {
            if str_eq(input.format.as_str(), "simple") {
                CallToolResult {
                    payload: ToolPayload::Simple(build_simple_response(tz, &geo_data)),
                    is_error: false,
                }
            } else {
                CallToolResult {
                    payload: ToolPayload::Full(build_full_response(tz, dt, ip, &geo_data)),
                    is_error: false,
                }
            }
        },
        Err(GeoIpError::NotFound) => error_result_with(
            McpErrorCode::NotFound,
            "IP address not found in database: ",
            ip,
        ),
        Err(e) => {
            let detail = e.describe();
            proof {
                lemma_prefix_of_concat("Lookup error: "@, detail@);
            }
            error_result_with(McpErrorCode::InvalidIp, "Lookup error: ", detail.as_str())
        },
    }
}

/// Handle the timezone lookup tool.
///
/// Coordinates are validated in order, echoing the offending value;
/// in range, the zone is resolved and the `format` field picks the
/// name-only or the detailed shape.
pub fn handle_timezone_lookup<T: TimezoneNamePort, D: TimezoneDetailPort>(
    tz: &T,
    dt: &D,
    input: Result<TimezoneLookupInput, String>,
) -> (r: CallToolResult)
    ensures
        timezone_post(input, r),
{
    let input = match input {
        Ok(i) => i,
        Err(m) => {
            return error_result_with(McpErrorCode::InvalidLatitude, "Invalid input: ", m.as_str());
        },
    };
    if !(-LATITUDE_MAX_E7 <= input.lat && input.lat <= LATITUDE_MAX_E7) {
        let shown = e7_display(input.lat);
        return error_result_with(
            McpErrorCode::InvalidLatitude,
            "Latitude must be between -90 and 90, got: ",
            shown.as_str(),
        );
    }
    if !(-LONGITUDE_MAX_E7 <= input.lon && input.lon <= LONGITUDE_MAX_E7) {
        let shown = e7_display(input.lon);
        return error_result_with(
            McpErrorCode::InvalidLongitude,
            "Longitude must be between -180 and 180, got: ",
            shown.as_str(),
        );
    }
    let name = tz.resolve(input.lat, input.lon);
    if str_eq(input.format.as_str(), "simple") {
        let timezone = match name {
            Some(n) => n,
            None => String::new(),
        };
        CallToolResult {
            payload: ToolPayload::Tz(TimezoneResponse { timezone }),
            is_error: false,
        }
    } else {
        let details = match &name {
            Some(n) => dt.details(n.as_str()),
            None => None,
        };
        CallToolResult {
            payload: ToolPayload::TzFull(compose_timezone_full(name, details)),
            is_error: false,
        }
    }
}

} // verus!
