//! The REST pipeline: parameter validation, cache policy, lookup,
//! composition and content negotiation, as one decision layer.
//!
//! The transport hands in the already-extracted query parameters and
//! header values as plain strings and serializes whatever comes back;
//! every rule about what is returned, cached or rejected lives here.

use vstd::prelude::*;

use crate::builder::build_full_response;
use crate::builder::build_simple_response;
use crate::builder::compose_timezone_full;
use crate::cache::GeoCache;
use crate::ip::lemma_split_len;
use crate::ip::spec_split;
use crate::ip::split_str;
use crate::ip::views_of;
use crate::languages::opt_str_view;
use crate::models::ApiErrorResponse;
use crate::models::IpGeoQuery;
use crate::models::IpGeoResponse;
use crate::models::IpGeoResponseFull;
use crate::models::TimezoneQuery;
use crate::models::TimezoneResponse;
use crate::ports::GeoIpLookup;
use crate::ports::TimezoneDetailPort;
use crate::ports::TimezoneNamePort;
use crate::strutil::spec_contains;
use crate::strutil::spec_trim;
use crate::strutil::str_contains;
use crate::strutil::trim;
use crate::validate::spec_lat_in_range;
use crate::validate::spec_lon_in_range;
use crate::validate::validate_ip;
use crate::validate::validate_latitude;
use crate::validate::validate_longitude;
use crate::ip::spec_valid_ip;
use crate::models::TimezoneResponseFull;

verus! {

/// Cache-control directive attached to REST responses: a two-week
/// public lifetime for downstream caches, deliberately longer than the
/// server-side TTL (the one governs browser caching, the other server
/// memory).
pub const CACHE_CONTROL: &'static str = "public, max-age=1209600";

/// The content type of binary-encoded responses.
pub const PROTOBUF_CONTENT_TYPE: &'static str = "application/x-protobuf";

/// The Accept header asks for protobuf when it names either the
/// canonical or the legacy protobuf media type.
pub open spec fn spec_accepts_protobuf(accept: Option<Seq<char>>) -> bool {
    match accept {
        Some(a) => spec_contains(a, "application/x-protobuf"@) || spec_contains(
            a,
            "application/protobuf"@,
        ),
        None => false,
    }
}

pub fn accepts_protobuf(accept: Option<&str>) -> (r: bool)
    ensures
        r == spec_accepts_protobuf(opt_str_view(accept)),
{
    match accept {
        Some(a) => str_contains(a, "application/x-protobuf") || str_contains(
            a,
            "application/protobuf",
        ),
        None => false,
    }
}

/// The `fields` parameter switches to the full shape when it mentions
/// `*` or `location`.
pub open spec fn spec_use_full(fields: Option<Seq<char>>) -> bool {
    match fields {
        Some(f) => spec_contains(f, "*"@) || spec_contains(f, "location"@),
        None => false,
    }
}

fn use_full_format(fields: &Option<String>) -> (r: bool)
    ensures
        r == spec_use_full(crate::builder::opt_view(*fields)),
{
    match fields {
        Some(f) => str_contains(f.as_str(), "*") || str_contains(f.as_str(), "location"),
        None => false,
    }
}

/// The caller's address, by header precedence: the CDN header first,
/// then the reverse proxy's, then the first hop of the forwarding
/// chain, and the peer address last; `-` when nothing is known.
pub open spec fn spec_client_ip(
    cf: Option<Seq<char>>,
    real_ip: Option<Seq<char>>,
    fwd: Option<Seq<char>>,
    peer: Option<Seq<char>>,
) -> Seq<char> {
    match cf {
        Some(v) => v,
        None => match real_ip {
            Some(v) => v,
            None => match fwd {
                Some(v) => spec_trim(spec_split(v, ',')[0]),
                None => match peer {
                    Some(v) => v,
                    None => "-"@,
                },
            },
        },
    }
}

pub fn extract_client_ip(
    cf: Option<&str>,
    real_ip: Option<&str>,
    fwd: Option<&str>,
    peer: Option<&str>,
) -> (r: String)
    ensures
        r@ == spec_client_ip(
            opt_str_view(cf),
            opt_str_view(real_ip),
            opt_str_view(fwd),
            opt_str_view(peer),
        ),
{
    match cf {
        Some(v) => v.to_owned(),
        None => match real_ip {
            Some(v) => v.to_owned(),
            None => match fwd {
                Some(v) => {
                    let parts = split_str(v, ',');
                    proof {
                        lemma_split_len(v@, ',');
                        assert(views_of(parts@)[0] == parts@[0]@);
                    }
                    trim(parts[0].as_str())
                },
                None => match peer {
                    Some(v) => v.to_owned(),
                    None => String::from_str("-"),
                },
            },
        },
    }
}

/// What an address lookup endpoint answers.
pub enum IpGeoReply {
    Simple(IpGeoResponse),
    Full(IpGeoResponseFull),
    Invalid(ApiErrorResponse),
}

/// The address lookup pipeline: trim, validate, consult the cache on
/// the plain simple path, look up, compose, fill the cache.
///
/// An invalid address is rejected with `INVALID_IP`; a valid one always
/// gets a response in the shape the `fields` parameter selects, empty
/// when the database knows nothing (the soft-fail rule: absence of data
/// is not an error).  Only the JSON simple path reads or writes the
/// cache; a full or binary answer embeds a live time and is always
/// recomputed.
pub fn ipgeo_request<G: GeoIpLookup, T: TimezoneNamePort, D: TimezoneDetailPort>(
    geoip: &G,
    tz: &T,
    dt: &D,
    cache: &GeoCache,
    params: &IpGeoQuery,
    accept: Option<&str>,
) -> (r: IpGeoReply)
    ensures
        !spec_valid_ip(spec_trim(params.ip@)) ==> (r matches IpGeoReply::Invalid(e) && e.code@
            == "INVALID_IP"@ && e.error@ == "Invalid IP address: "@ + spec_trim(params.ip@)),
        spec_valid_ip(spec_trim(params.ip@)) && spec_use_full(crate::builder::opt_view(params.fields))
            ==> (r matches IpGeoReply::Full(f) && f.ip matches Some(s) && s@ == spec_trim(
            params.ip@,
        )),
        spec_valid_ip(spec_trim(params.ip@)) && !spec_use_full(
            crate::builder::opt_view(params.fields),
        ) ==> r is Simple,
{
    let ip_string = trim(params.ip.as_str());
    let use_protobuf = accepts_protobuf(accept);
    match validate_ip(ip_string.as_str()) {
        Err(e) => {
            return IpGeoReply::Invalid(e);
        },
        Ok(()) => {},
    }
    let use_full = use_full_format(&params.fields);
    if use_full {
        match geoip.lookup(ip_string.as_str()) {
            Ok(geo_data) => IpGeoReply::Full(
                build_full_response(tz, dt, ip_string.as_str(), &geo_data),
            ),
            Err(_) => IpGeoReply::Full(IpGeoResponseFull::ip_only(ip_string)),
        }
    } else {
        if params.fields.is_none() && !use_protobuf {
            match cache.get(ip_string.as_str()) {
                Some(cached) => {
                    return IpGeoReply::Simple(cached);
                },
                None => {},
            }
        }
        let response = match geoip.lookup(ip_string.as_str()) {
            Ok(geo_data) => build_simple_response(tz, &geo_data),
            Err(_) => IpGeoResponse::empty(),
        };
        if !use_protobuf {
            cache.insert(ip_string, response.clone());
        }
        IpGeoReply::Simple(response)
    }
}

/// The self-lookup pipeline of the root endpoint: the caller's address
/// by header precedence, then the plain simple pipeline with the same
/// cache policy.
pub fn root_request<G: GeoIpLookup, T: TimezoneNamePort>(
    geoip: &G,
    tz: &T,
    cache: &GeoCache,
    cf: Option<&str>,
    real_ip: Option<&str>,
    fwd: Option<&str>,
    peer: Option<&str>,
    accept: Option<&str>,
) -> (r: IpGeoReply)
    ensures
        ({
            let ip = spec_client_ip(
                opt_str_view(cf),
                opt_str_view(real_ip),
                opt_str_view(fwd),
                opt_str_view(peer),
            );
            &&& !spec_valid_ip(ip) ==> (r matches IpGeoReply::Invalid(e) && e.code@
                == "INVALID_IP"@ && e.error@ == "Invalid IP address: "@ + ip)
            &&& spec_valid_ip(ip) ==> r is Simple
        }),
{
    let ip_string = extract_client_ip(cf, real_ip, fwd, peer);
    let use_protobuf = accepts_protobuf(accept);
    match validate_ip(ip_string.as_str()) {
        Err(e) => {
            return IpGeoReply::Invalid(e);
        },
        Ok(()) => {},
    }
    if !use_protobuf {
        match cache.get(ip_string.as_str()) {
            Some(cached) => {
                return IpGeoReply::Simple(cached);
            },
            None => {},
        }
    }
    let response = match geoip.lookup(ip_string.as_str()) {
        Ok(geo_data) => build_simple_response(tz, &geo_data),
        Err(_) => IpGeoResponse::empty(),
    };
    if !use_protobuf {
        cache.insert(ip_string, response.clone());
    }
    IpGeoReply::Simple(response)
}

/// What a timezone endpoint answers.
pub enum TimezoneReply {
    Simple(TimezoneResponse),
    Full(TimezoneResponseFull),
    Invalid(ApiErrorResponse),
}

/// The simple timezone pipeline: both coordinates validated in order,
/// then the zone name, empty when the point lies in no zone.
pub fn timezone_request<T: TimezoneNamePort>(tz: &T, params: &TimezoneQuery) -> (r: TimezoneReply)
    ensures
        !spec_lat_in_range(params.lat as int) ==> (r matches TimezoneReply::Invalid(e) && e.code@
            == "INVALID_LATITUDE"@),
        spec_lat_in_range(params.lat as int) && !spec_lon_in_range(params.long as int) ==> (r matches
            TimezoneReply::Invalid(e) && e.code@ == "INVALID_LONGITUDE"@),
        spec_lat_in_range(params.lat as int) && spec_lon_in_range(params.long as int) ==> r
            is Simple,
{
    match validate_latitude(params.lat) {
        Err(e) => {
            return TimezoneReply::Invalid(e);
        },
        Ok(()) => {},
    }
    match validate_longitude(params.long) {
        Err(e) => {
            return TimezoneReply::Invalid(e);
        },
        Ok(()) => {},
    }
    let timezone = match tz.resolve(params.lat, params.long) {
        Some(name) => name,
        None => String::new(),
    };
    TimezoneReply::Simple(TimezoneResponse { timezone })
}

/// The full timezone pipeline: validation as above, then the zone name
/// and, when one was found, its details.
pub fn timezone_full_request<T: TimezoneNamePort, D: TimezoneDetailPort>(
    tz: &T,
    dt: &D,
    params: &TimezoneQuery,
) -> (r: TimezoneReply)
    ensures
        !spec_lat_in_range(params.lat as int) ==> (r matches TimezoneReply::Invalid(e) && e.code@
            == "INVALID_LATITUDE"@),
        spec_lat_in_range(params.lat as int) && !spec_lon_in_range(params.long as int) ==> (r matches
            TimezoneReply::Invalid(e) && e.code@ == "INVALID_LONGITUDE"@),
        spec_lat_in_range(params.lat as int) && spec_lon_in_range(params.long as int) ==> r
            is Full,
{
    match validate_latitude(params.lat) {
        Err(e) => {
            return TimezoneReply::Invalid(e);
        },
        Ok(()) => {},
    }
    match validate_longitude(params.long) {
        Err(e) => {
            return TimezoneReply::Invalid(e);
        },
        Ok(()) => {},
    }
    let name = tz.resolve(params.lat, params.long);
    let details = match &name {
        Some(n) => dt.details(n.as_str()),
        None => None,
    };
    TimezoneReply::Full(compose_timezone_full(name, details))
}

} // verus!
