//! The readable resources of the JSON-RPC surface: fixed documents
//! describing the response schemas, the data sources, the operational
//! limits and the privacy practices.

use vstd::prelude::*;

use crate::mcp_schemas::bulk_lookup_response_schema;
use crate::mcp_schemas::ip_geo_response_full_schema;
use crate::mcp_schemas::ip_geo_response_simple_schema;
use crate::mcp_schemas::timezone_response_full_schema;
use crate::mcp_schemas::timezone_response_simple_schema;
use crate::strutil::str_eq;

verus! {

/// The scheme under which every resource lives.
pub const RESOURCE_URI_PREFIX: &'static str = "geoip://";

/// A catalog row of the resource listing.
#[derive(Debug, Clone)]
pub struct ResourceInfo {
    pub uri: String,
    pub name: String,
    pub description: String,
    pub mime_type: String,
}

/// The content of one resource.
#[derive(Debug, Clone)]
pub struct ResourceContent {
    pub uri: String,
    pub text: String,
    pub mime_type: String,
}

/// The response schema document, assembled from the schema texts.
pub fn get_schema_resource() -> (r: ResourceContent)
    ensures
        r.uri@ == "geoip://schema"@,
        r.mime_type@ == "application/json"@,
{
    let mut text = String::from_str("{\"$schema\":\"http://json-schema.org/draft-07/schema#\",\"title\":\"IP Geolocation API Response Schemas\",\"description\":\"JSON Schema definitions for all response types from the IP Geolocation API\",\"definitions\":{\"IpGeoResponseSimple\":");
    let a = ip_geo_response_simple_schema();
    text.append(a.as_str());
    text.append(",\"IpGeoResponseFull\":");
    let b = ip_geo_response_full_schema();
    text.append(b.as_str());
    text.append(",\"TimezoneResponseSimple\":");
    let c = timezone_response_simple_schema();
    text.append(c.as_str());
    text.append(",\"TimezoneResponseFull\":");
    let d = timezone_response_full_schema();
    text.append(d.as_str());
    text.append(",\"BulkLookupResult\":");
    let e = bulk_lookup_response_schema();
    text.append(e.as_str());
    text.append("}}");
    ResourceContent {
        uri: String::from_str("geoip://schema"),
        text,
        mime_type: String::from_str("application/json"),
    }
}

/// The data source document.
pub fn get_data_source_resource() -> (r: ResourceContent)
    ensures
        r.uri@ == "geoip://data-source"@,
        r.mime_type@ == "application/json"@,
{
    ResourceContent {
        uri: String::from_str("geoip://data-source"),
        text: String::from_str("{\"title\":\"IP Geolocation Data Sources\",\"description\":\"Information about the data sources used by this API\",\"sources\":{\"ip_geolocation\":{\"name\":\"MaxMind GeoLite2-City\",\"description\":\"Free IP geolocation database providing city-level accuracy\",\"license\":\"CC BY-SA 4.0\",\"attribution\":\"This product includes GeoLite2 Data created by MaxMind, available from https://www.maxmind.com\",\"update_frequency\":\"Weekly (typically Tuesday)\",\"coverage\":\"Global IP address space\",\"accuracy\":\"City-level for most IPs, country-level guaranteed\"},\"timezone_boundaries\":{\"name\":\"tzf-rs\",\"description\":\"Timezone boundary lookup library compiled from OpenStreetMap timezone data\",\"license\":\"MIT\",\"source_data\":\"Timezone boundaries derived from OpenStreetMap\",\"update_frequency\":\"Compiled into binary at build time\"},\"country_metadata\":{\"name\":\"Embedded country dataset\",\"description\":\"Static dataset of country metadata including currencies, languages, and calling codes\",\"fields\":[\"Country name (common and official)\",\"ISO 3166-1 alpha-2 and alpha-3 codes\",\"Continent\",\"Capital city\",\"Currency (code, name, symbol)\",\"Languages\",\"Calling code\",\"Top-level domain\",\"EU membership status\",\"Flag emoji\"]}}}"),
        mime_type: String::from_str("application/json"),
    }
}

/// The limits document.
pub fn get_limits_resource() -> (r: ResourceContent)
    ensures
        r.uri@ == "geoip://limits"@,
        r.mime_type@ == "application/json"@,
{
    ResourceContent {
        uri: String::from_str("geoip://limits"),
        text: String::from_str("{\"title\":\"API Limits and Constraints\",\"description\":\"Information about rate limits and operational constraints\",\"limits\":{\"bulk_lookup\":{\"max_ips_per_request\":100,\"description\":\"Maximum number of IP addresses that can be looked up in a single bulk request\"},\"cache\":{\"description\":\"Responses are cached to improve performance\",\"cache_ttl_seconds\":3600,\"cache_control_header\":\"public, max-age=1209600\",\"note\":\"IP geolocation data changes infrequently, so aggressive caching is safe\"},\"rate_limiting\":{\"enabled\":false,\"description\":\"No rate limiting is currently enforced. The API is designed for high-throughput usage.\"},\"coordinate_ranges\":{\"latitude\":{\"min\":-90,\"max\":90},\"longitude\":{\"min\":-180,\"max\":180}}},\"supported_formats\":{\"ip_addresses\":[\"IPv4\",\"IPv6\"],\"response_formats\":[\"simple\",\"full\"],\"content_types\":[\"application/json\",\"application/x-protobuf\"]}}"),
        mime_type: String::from_str("application/json"),
    }
}

/// The privacy document.
pub fn get_privacy_resource() -> (r: ResourceContent)
    ensures
        r.uri@ == "geoip://privacy"@,
        r.mime_type@ == "application/json"@,
{
    ResourceContent {
        uri: String::from_str("geoip://privacy"),
        text: String::from_str("{\"title\":\"Privacy Information\",\"description\":\"Information about data handling and privacy practices\",\"privacy_practices\":{\"ip_logging\":{\"enabled\":false,\"description\":\"IP addresses are NOT logged or stored. All lookups are stateless.\"},\"pii_retention\":{\"enabled\":false,\"description\":\"No personally identifiable information is retained. Lookups are processed in memory and results are not persisted.\"},\"stateless_operation\":{\"description\":\"Each lookup is independent and stateless. No session tracking or user identification is performed.\"},\"data_sharing\":{\"third_parties\":false,\"description\":\"Query data is not shared with any third parties. All processing happens locally using embedded databases.\"},\"cache_behavior\":{\"description\":\"Responses may be cached in memory for performance. Cache entries contain only the lookup result, not the requesting client's information.\"}},\"data_sources\":{\"note\":\"IP geolocation data is sourced from MaxMind GeoLite2. This data maps IP addresses to approximate geographic locations but does not identify individuals.\"},\"private_ip_handling\":{\"description\":\"Private IP addresses (RFC 1918, loopback, link-local) are rejected and not processed. These addresses have no meaningful geographic location.\"}}"),
        mime_type: String::from_str("application/json"),
    }
}

/// A URI names one of the four resources.
pub open spec fn spec_known_resource(uri: Seq<char>) -> bool {
    ||| uri == "geoip://schema"@
    ||| uri == "geoip://data-source"@
    ||| uri == "geoip://limits"@
    ||| uri == "geoip://privacy"@
}

/// The fixed catalog: four rows, one per resource URI, in this order.
pub open spec fn catalog_matches(r: Seq<ResourceInfo>) -> bool {
    &&& r.len() == 4
    &&& r[0].uri@ == "geoip://schema"@
    &&& r[1].uri@ == "geoip://data-source"@
    &&& r[2].uri@ == "geoip://limits"@
    &&& r[3].uri@ == "geoip://privacy"@
    &&& forall|i: int| 0 <= i < 4 ==> (#[trigger] r[i].mime_type@) == "application/json"@
}

/// The catalog of the four resources.
pub fn list_resource_infos() -> (r: Vec<ResourceInfo>)
    ensures
        catalog_matches(r@),
{
    let mut infos: Vec<ResourceInfo> = Vec::new();
    infos.push(
        ResourceInfo {
            uri: String::from_str("geoip://schema"),
            name: String::from_str("API Response Schemas"),
            description: String::from_str("JSON Schema definitions for all response types"),
            mime_type: String::from_str("application/json"),
        },
    );
    infos.push(
        ResourceInfo {
            uri: String::from_str("geoip://data-source"),
            name: String::from_str("Data Sources"),
            description: String::from_str(
                "Information about MaxMind GeoLite2, tzf-rs, and other data sources",
            ),
            mime_type: String::from_str("application/json"),
        },
    );
    infos.push(
        ResourceInfo {
            uri: String::from_str("geoip://limits"),
            name: String::from_str("API Limits"),
            description: String::from_str(
                "Bulk lookup cap (100), cache TTL, and operational constraints",
            ),
            mime_type: String::from_str("application/json"),
        },
    );
    infos.push(
        ResourceInfo {
            uri: String::from_str("geoip://privacy"),
            name: String::from_str("Privacy Information"),
            description: String::from_str("No IP logging, no PII retention, stateless lookups"),
            mime_type: String::from_str("application/json"),
        },
    );
    infos
}

/// Look a resource up by URI: exactly the four catalog URIs answer,
/// each with its own document, echoing the URI.
pub fn read_resource(uri: &str) -> (r: Option<ResourceContent>)
    ensures
        r is Some <==> spec_known_resource(uri@),
        r matches Some(c) ==> c.uri@ == uri@ && c.mime_type@ == "application/json"@,
{
    if str_eq(uri, "geoip://schema") {
        Some(get_schema_resource())
    } else if str_eq(uri, "geoip://data-source") {
        Some(get_data_source_resource())
    } else if str_eq(uri, "geoip://limits") {
        Some(get_limits_resource())
    } else if str_eq(uri, "geoip://privacy") {
        Some(get_privacy_resource())
    } else {
        None
    }
}

/// The resource side of the tool surface as one handler: the catalog
/// and the lookup by URI.
pub struct GeoIpResourceHandler;

impl GeoIpResourceHandler {
    /// Read one resource; an unknown URI is an error naming it.
    pub fn read(&self, uri: &str) -> (r: Result<ResourceContent, String>)
        ensures
            r is Ok <==> spec_known_resource(uri@),
            r matches Ok(c) ==> c.uri@ == uri@,
    {
        match read_resource(uri) {
            Some(contents) => Ok(contents),
            None => {
                let mut message = String::from_str("Resource not found: ");
                message.append(uri);
                Err(message)
            },
        }
    }

    /// The catalog of the four resources.
    pub fn list(&self) -> (r: Vec<ResourceInfo>)
        ensures
            catalog_matches(r@),
    {
        list_resource_infos()
    }
}

} // verus!
