//! Syntactic and range validation shared by every surface.

use vstd::prelude::*;

use crate::ip::spec_valid_ip;
use crate::ip::parse_ip;
use crate::models::ApiErrorResponse;
use crate::strutil::e7_display;
use crate::strutil::spec_e7_display;

verus! {

/// Largest admissible latitude, in E7: 90 degrees.
pub const LATITUDE_MAX_E7: i64 = 900_000_000;

/// Largest admissible longitude, in E7: 180 degrees.
pub const LONGITUDE_MAX_E7: i64 = 1_800_000_000;

/// Most addresses a bulk lookup may carry.
pub const BULK_LOOKUP_MAX_IPS: usize = 100;

pub open spec fn spec_lat_in_range(lat: int) -> bool {
    -900_000_000 <= lat <= 900_000_000
}

pub open spec fn spec_lon_in_range(lon: int) -> bool {
    -1_800_000_000 <= lon <= 1_800_000_000
}

/// An address passes when and only when it is an IPv4 or IPv6 literal;
/// anything else earns the `INVALID_IP` error echoing the input.
pub fn validate_ip(ip: &str) -> (r: Result<(), ApiErrorResponse>)
    ensures
        r is Ok <==> spec_valid_ip(ip@),
        r matches Err(e) ==> e.code@ == "INVALID_IP"@ && e.error@ == "Invalid IP address: "@
            + ip@,
{
    match parse_ip(ip) {
        Some(_) => Ok(()),
        None => {
            let mut msg = String::from_str("Invalid IP address: ");
            msg.append(ip);
            Err(ApiErrorResponse { error: msg, code: String::from_str("INVALID_IP") })
        },
    }
}

/// A latitude passes when and only when it lies in [-90, 90] degrees
/// inclusive; anything else earns `INVALID_LATITUDE` echoing the value.
pub fn validate_latitude(lat: i64) -> (r: Result<(), ApiErrorResponse>)
    ensures
        r is Ok <==> spec_lat_in_range(lat as int),
        r matches Err(e) ==> e.code@ == "INVALID_LATITUDE"@ && e.error@
            == "Latitude must be between -90 and 90, got: "@ + spec_e7_display(lat as int),
{
    if -LATITUDE_MAX_E7 <= lat && lat <= LATITUDE_MAX_E7 {
        Ok(())
    } else {
        let mut msg = String::from_str("Latitude must be between -90 and 90, got: ");
        let shown = e7_display(lat);
        msg.append(shown.as_str());
        Err(ApiErrorResponse { error: msg, code: String::from_str("INVALID_LATITUDE") })
    }
}

/// A longitude passes when and only when it lies in [-180, 180] degrees
/// inclusive; anything else earns `INVALID_LONGITUDE` echoing the value.
pub fn validate_longitude(lng: i64) -> (r: Result<(), ApiErrorResponse>)
    ensures
        r is Ok <==> spec_lon_in_range(lng as int),
        r matches Err(e) ==> e.code@ == "INVALID_LONGITUDE"@ && e.error@
            == "Longitude must be between -180 and 180, got: "@ + spec_e7_display(lng as int),
{
    if -LONGITUDE_MAX_E7 <= lng && lng <= LONGITUDE_MAX_E7 {
        Ok(())
    } else {
        let mut msg = String::from_str("Longitude must be between -180 and 180, got: ");
        let shown = e7_display(lng);
        msg.append(shown.as_str());
        Err(ApiErrorResponse { error: msg, code: String::from_str("INVALID_LONGITUDE") })
    }
}

/// A batch passes when and only when it holds at most `max` entries.
pub fn validate_bulk_size(n: usize, max: usize) -> (r: bool)
    ensures
        r <==> n <= max,
{
    n <= max
}

} // verus!
