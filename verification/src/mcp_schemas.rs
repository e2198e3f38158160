//! JSON Schema documents describing the tool inputs and the response
//! shapes, served through the discovery endpoints and the schema
//! resource.  Each is a fixed document held as text.

use vstd::prelude::*;

verus! {

/// JSON Schema text of the geoip lookup input shape.
pub fn geoip_lookup_input_schema() -> (r: String)
    ensures
        r@.len() > 0,
{
    let text = "{\"type\":\"object\",\"properties\":{\"ip\":{\"type\":\"string\",\"description\":\"IPv4 or IPv6 address to lookup\"},\"format\":{\"type\":\"string\",\"enum\":[\"simple\",\"full\"],\"default\":\"full\",\"description\":\"Response format: 'simple' for basic data, 'full' for comprehensive details\"}},\"required\":[\"ip\"]}";
    proof {
        reveal_strlit("{\"type\":\"object\",\"properties\":{\"ip\":{\"type\":\"string\",\"description\":\"IPv4 or IPv6 address to lookup\"},\"format\":{\"type\":\"string\",\"enum\":[\"simple\",\"full\"],\"default\":\"full\",\"description\":\"Response format: 'simple' for basic data, 'full' for comprehensive details\"}},\"required\":[\"ip\"]}");
    }
    text.to_owned()
}

/// JSON Schema text of the geoip bulk lookup input shape.
pub fn geoip_bulk_lookup_input_schema() -> (r: String)
    ensures
        r@.len() > 0,
{
    let text = "{\"type\":\"object\",\"properties\":{\"ips\":{\"type\":\"array\",\"items\":{\"type\":\"string\"},\"maxItems\":100,\"description\":\"Array of IPv4 or IPv6 addresses to lookup (max 100)\"},\"format\":{\"type\":\"string\",\"enum\":[\"simple\",\"full\"],\"default\":\"full\",\"description\":\"Response format: 'simple' for basic data, 'full' for comprehensive details\"}},\"required\":[\"ips\"]}";
    proof {
        reveal_strlit("{\"type\":\"object\",\"properties\":{\"ips\":{\"type\":\"array\",\"items\":{\"type\":\"string\"},\"maxItems\":100,\"description\":\"Array of IPv4 or IPv6 addresses to lookup (max 100)\"},\"format\":{\"type\":\"string\",\"enum\":[\"simple\",\"full\"],\"default\":\"full\",\"description\":\"Response format: 'simple' for basic data, 'full' for comprehensive details\"}},\"required\":[\"ips\"]}");
    }
    text.to_owned()
}

/// JSON Schema text of the geoip lookup self input shape.
pub fn geoip_lookup_self_input_schema() -> (r: String)
    ensures
        r@.len() > 0,
{
    let text = "{\"type\":\"object\",\"properties\":{\"format\":{\"type\":\"string\",\"enum\":[\"simple\",\"full\"],\"default\":\"full\",\"description\":\"Response format: 'simple' for basic data, 'full' for comprehensive details\"}}}";
    proof {
        reveal_strlit("{\"type\":\"object\",\"properties\":{\"format\":{\"type\":\"string\",\"enum\":[\"simple\",\"full\"],\"default\":\"full\",\"description\":\"Response format: 'simple' for basic data, 'full' for comprehensive details\"}}}");
    }
    text.to_owned()
}

/// JSON Schema text of the timezone lookup input shape.
pub fn timezone_lookup_input_schema() -> (r: String)
    ensures
        r@.len() > 0,
{
    let text = "{\"type\":\"object\",\"properties\":{\"lat\":{\"type\":\"number\",\"minimum\":-90,\"maximum\":90,\"description\":\"Latitude coordinate (-90 to 90)\"},\"lon\":{\"type\":\"number\",\"minimum\":-180,\"maximum\":180,\"description\":\"Longitude coordinate (-180 to 180)\"},\"format\":{\"type\":\"string\",\"enum\":[\"simple\",\"full\"],\"default\":\"full\",\"description\":\"Response format: 'simple' for timezone name only, 'full' for comprehensive details\"}},\"required\":[\"lat\",\"lon\"]}";
    proof {
        reveal_strlit("{\"type\":\"object\",\"properties\":{\"lat\":{\"type\":\"number\",\"minimum\":-90,\"maximum\":90,\"description\":\"Latitude coordinate (-90 to 90)\"},\"lon\":{\"type\":\"number\",\"minimum\":-180,\"maximum\":180,\"description\":\"Longitude coordinate (-180 to 180)\"},\"format\":{\"type\":\"string\",\"enum\":[\"simple\",\"full\"],\"default\":\"full\",\"description\":\"Response format: 'simple' for timezone name only, 'full' for comprehensive details\"}},\"required\":[\"lat\",\"lon\"]}");
    }
    text.to_owned()
}

/// JSON Schema text of the ip geo response simple shape.
pub fn ip_geo_response_simple_schema() -> (r: String)
    ensures
        r@.len() > 0,
{
    let text = "{\"type\":\"object\",\"properties\":{\"latitude\":{\"type\":[\"number\",\"null\"],\"description\":\"Latitude of the location\"},\"longitude\":{\"type\":[\"number\",\"null\"],\"description\":\"Longitude of the location\"},\"city\":{\"type\":\"string\",\"description\":\"City name (empty string if unknown)\"},\"country_name\":{\"type\":\"string\",\"description\":\"Country name (empty string if unknown)\"},\"time_zone\":{\"type\":\"object\",\"properties\":{\"name\":{\"type\":\"string\",\"description\":\"IANA timezone name\"}}},\"languages\":{\"type\":\"string\",\"description\":\"Comma-separated language codes\"}}}";
    proof {
        reveal_strlit("{\"type\":\"object\",\"properties\":{\"latitude\":{\"type\":[\"number\",\"null\"],\"description\":\"Latitude of the location\"},\"longitude\":{\"type\":[\"number\",\"null\"],\"description\":\"Longitude of the location\"},\"city\":{\"type\":\"string\",\"description\":\"City name (empty string if unknown)\"},\"country_name\":{\"type\":\"string\",\"description\":\"Country name (empty string if unknown)\"},\"time_zone\":{\"type\":\"object\",\"properties\":{\"name\":{\"type\":\"string\",\"description\":\"IANA timezone name\"}}},\"languages\":{\"type\":\"string\",\"description\":\"Comma-separated language codes\"}}}");
    }
    text.to_owned()
}

/// JSON Schema text of the ip geo response full shape.
pub fn ip_geo_response_full_schema() -> (r: String)
    ensures
        r@.len() > 0,
{
    let text = "{\"type\":\"object\",\"properties\":{\"ip\":{\"type\":\"string\",\"description\":\"The queried IP address\"},\"location\":{\"type\":\"object\",\"properties\":{\"continent_code\":{\"type\":\"string\"},\"continent_name\":{\"type\":\"string\"},\"country_code2\":{\"type\":\"string\"},\"country_code3\":{\"type\":\"string\"},\"country_name\":{\"type\":\"string\"},\"country_name_official\":{\"type\":\"string\"},\"country_capital\":{\"type\":\"string\"},\"state_prov\":{\"type\":\"string\"},\"state_code\":{\"type\":\"string\"},\"district\":{\"type\":\"string\"},\"city\":{\"type\":\"string\"},\"zipcode\":{\"type\":\"string\"},\"latitude\":{\"type\":\"string\"},\"longitude\":{\"type\":\"string\"},\"is_eu\":{\"type\":\"boolean\"},\"country_flag\":{\"type\":\"string\"},\"geoname_id\":{\"type\":\"string\"},\"country_emoji\":{\"type\":\"string\"}}},\"country_metadata\":{\"type\":\"object\",\"properties\":{\"calling_code\":{\"type\":\"string\"},\"tld\":{\"type\":\"string\"},\"languages\":{\"type\":\"array\",\"items\":{\"type\":\"string\"}}}},\"currency\":{\"type\":\"object\",\"properties\":{\"code\":{\"type\":\"string\"},\"name\":{\"type\":\"string\"},\"symbol\":{\"type\":\"string\"}}},\"time_zone\":{\"type\":\"object\",\"properties\":{\"name\":{\"type\":\"string\"},\"offset\":{\"type\":\"integer\"},\"offset_with_dst\":{\"type\":\"integer\"},\"current_time\":{\"type\":\"string\"},\"current_time_unix\":{\"type\":\"number\"},\"is_dst\":{\"type\":\"boolean\"},\"dst_savings\":{\"type\":\"integer\"},\"dst_exists\":{\"type\":\"boolean\"}}}}}";
    proof {
        reveal_strlit("{\"type\":\"object\",\"properties\":{\"ip\":{\"type\":\"string\",\"description\":\"The queried IP address\"},\"location\":{\"type\":\"object\",\"properties\":{\"continent_code\":{\"type\":\"string\"},\"continent_name\":{\"type\":\"string\"},\"country_code2\":{\"type\":\"string\"},\"country_code3\":{\"type\":\"string\"},\"country_name\":{\"type\":\"string\"},\"country_name_official\":{\"type\":\"string\"},\"country_capital\":{\"type\":\"string\"},\"state_prov\":{\"type\":\"string\"},\"state_code\":{\"type\":\"string\"},\"district\":{\"type\":\"string\"},\"city\":{\"type\":\"string\"},\"zipcode\":{\"type\":\"string\"},\"latitude\":{\"type\":\"string\"},\"longitude\":{\"type\":\"string\"},\"is_eu\":{\"type\":\"boolean\"},\"country_flag\":{\"type\":\"string\"},\"geoname_id\":{\"type\":\"string\"},\"country_emoji\":{\"type\":\"string\"}}},\"country_metadata\":{\"type\":\"object\",\"properties\":{\"calling_code\":{\"type\":\"string\"},\"tld\":{\"type\":\"string\"},\"languages\":{\"type\":\"array\",\"items\":{\"type\":\"string\"}}}},\"currency\":{\"type\":\"object\",\"properties\":{\"code\":{\"type\":\"string\"},\"name\":{\"type\":\"string\"},\"symbol\":{\"type\":\"string\"}}},\"time_zone\":{\"type\":\"object\",\"properties\":{\"name\":{\"type\":\"string\"},\"offset\":{\"type\":\"integer\"},\"offset_with_dst\":{\"type\":\"integer\"},\"current_time\":{\"type\":\"string\"},\"current_time_unix\":{\"type\":\"number\"},\"is_dst\":{\"type\":\"boolean\"},\"dst_savings\":{\"type\":\"integer\"},\"dst_exists\":{\"type\":\"boolean\"}}}}}");
    }
    text.to_owned()
}

/// JSON Schema text of the bulk lookup response shape.
pub fn bulk_lookup_response_schema() -> (r: String)
    ensures
        r@.len() > 0,
{
    let text = "{\"type\":\"object\",\"properties\":{\"results\":{\"type\":\"array\",\"description\":\"Successful lookups\",\"items\":{\"type\":\"object\"}},\"errors\":{\"type\":\"array\",\"description\":\"Failed lookups\",\"items\":{\"type\":\"object\",\"properties\":{\"ip\":{\"type\":\"string\"},\"code\":{\"type\":\"string\"},\"message\":{\"type\":\"string\"}}}}}}";
    proof {
        reveal_strlit("{\"type\":\"object\",\"properties\":{\"results\":{\"type\":\"array\",\"description\":\"Successful lookups\",\"items\":{\"type\":\"object\"}},\"errors\":{\"type\":\"array\",\"description\":\"Failed lookups\",\"items\":{\"type\":\"object\",\"properties\":{\"ip\":{\"type\":\"string\"},\"code\":{\"type\":\"string\"},\"message\":{\"type\":\"string\"}}}}}}");
    }
    text.to_owned()
}

/// JSON Schema text of the timezone response simple shape.
pub fn timezone_response_simple_schema() -> (r: String)
    ensures
        r@.len() > 0,
{
    let text = "{\"type\":\"object\",\"properties\":{\"timezone\":{\"type\":\"string\",\"description\":\"IANA timezone name\"}}}";
    proof {
        reveal_strlit("{\"type\":\"object\",\"properties\":{\"timezone\":{\"type\":\"string\",\"description\":\"IANA timezone name\"}}}");
    }
    text.to_owned()
}

/// JSON Schema text of the timezone response full shape.
pub fn timezone_response_full_schema() -> (r: String)
    ensures
        r@.len() > 0,
{
    let text = "{\"type\":\"object\",\"properties\":{\"timezone\":{\"type\":\"string\",\"description\":\"IANA timezone name\"},\"offset\":{\"type\":\"integer\"},\"offset_with_dst\":{\"type\":\"integer\"},\"current_time\":{\"type\":\"string\"},\"current_time_unix\":{\"type\":\"number\"},\"is_dst\":{\"type\":\"boolean\"},\"dst_exists\":{\"type\":\"boolean\"}}}";
    proof {
        reveal_strlit("{\"type\":\"object\",\"properties\":{\"timezone\":{\"type\":\"string\",\"description\":\"IANA timezone name\"},\"offset\":{\"type\":\"integer\"},\"offset_with_dst\":{\"type\":\"integer\"},\"current_time\":{\"type\":\"string\"},\"current_time_unix\":{\"type\":\"number\"},\"is_dst\":{\"type\":\"boolean\"},\"dst_exists\":{\"type\":\"boolean\"}}}");
    }
    text.to_owned()
}

/// The catalog served by the tool listing: the four tools with their
/// descriptions and input schemas, as one JSON document.
pub fn tools_list_document() -> (r: String)
    ensures
        r@.len() > 0,
{
    let mut text = String::from_str("{\"tools\":[{\"name\":\"geoip_lookup\",\"description\":\"Look up geographic location for an IP address. Returns city, country, coordinates, timezone, currency, and other location metadata.\",\"inputSchema\":");
    proof {
        reveal_strlit("{\"tools\":[{\"name\":\"geoip_lookup\",\"description\":\"Look up geographic location for an IP address. Returns city, country, coordinates, timezone, currency, and other location metadata.\",\"inputSchema\":");
    }
    let a = geoip_lookup_input_schema();
    text.append(a.as_str());
    text.append("}");
    text.append(",{\"name\":\"geoip_bulk_lookup\",\"description\":\"Look up geographic locations for multiple IP addresses in a single request. Maximum 100 IPs per request. Returns results and errors separately.\",\"inputSchema\":");
    let b = geoip_bulk_lookup_input_schema();
    text.append(b.as_str());
    text.append("}");
    text.append(",{\"name\":\"geoip_lookup_self\",\"description\":\"Look up geographic location for the caller's IP address. Available via HTTP transport.\",\"inputSchema\":");
    let c = geoip_lookup_self_input_schema();
    text.append(c.as_str());
    text.append("}");
    text.append(",{\"name\":\"timezone_lookup\",\"description\":\"Look up IANA timezone for geographic coordinates. Returns timezone name, current offset, DST information, and current local time.\",\"inputSchema\":");
    let d = timezone_lookup_input_schema();
    text.append(d.as_str());
    text.append("}]}");
    text
}

} // verus!
