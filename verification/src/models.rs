//! The data transfer objects of the service.
//!
//! Coordinates are E7 fixed-point integers (ten-millionths of a degree);
//! the moment `current_time_unix` is in milliseconds.  The transport
//! layer converts between these plain representations and its wire
//! types.

use vstd::prelude::*;

verus! {

/// A geolocation record as the lookup port hands it over.
#[derive(Debug, Clone)]
pub struct GeoData {
    pub latitude: Option<i64>,
    pub longitude: Option<i64>,
    pub city: Option<String>,
    pub country_name: Option<String>,
    pub country_code: Option<String>,
    pub state_prov: Option<String>,
    pub state_code: Option<String>,
    pub postal_code: Option<String>,
    pub geoname_id: Option<u32>,
}

/// Timezone name alone.
#[derive(Debug, Clone)]
pub struct TimeZoneInfo {
    pub name: String,
}

/// The simple, cacheable response shape.
#[derive(Debug, Clone)]
pub struct IpGeoResponse {
    pub latitude: Option<i64>,
    pub longitude: Option<i64>,
    pub city: String,
    pub country_name: String,
    pub time_zone: TimeZoneInfo,
    pub languages: String,
}

impl IpGeoResponse {
    /// All fields empty; the soft-fail shape returned when a lookup
    /// found nothing.
    pub fn empty() -> (r: IpGeoResponse)
        ensures
            r.latitude is None,
            r.longitude is None,
            r.city@ == Seq::<char>::empty(),
            r.country_name@ == Seq::<char>::empty(),
            r.time_zone.name@ == Seq::<char>::empty(),
            r.languages@ == Seq::<char>::empty(),
    {
        IpGeoResponse {
            latitude: None,
            longitude: None,
            city: String::new(),
            country_name: String::new(),
            time_zone: TimeZoneInfo { name: String::new() },
            languages: String::new(),
        }
    }
}

impl Default for IpGeoResponse {
    fn default() -> (r: IpGeoResponse)
        ensures
            r.latitude is None,
            r.longitude is None,
            r.city@ == Seq::<char>::empty(),
            r.country_name@ == Seq::<char>::empty(),
            r.time_zone.name@ == Seq::<char>::empty(),
            r.languages@ == Seq::<char>::empty(),
    {
        IpGeoResponse::empty()
    }
}

/// The location block of the full response shape.
#[derive(Debug, Clone)]
pub struct LocationInfo {
    pub continent_code: Option<String>,
    pub continent_name: Option<String>,
    pub country_code2: Option<String>,
    pub country_code3: Option<String>,
    pub country_name: Option<String>,
    pub country_name_official: Option<String>,
    pub country_capital: Option<String>,
    pub state_prov: Option<String>,
    pub state_code: Option<String>,
    pub district: Option<String>,
    pub city: Option<String>,
    pub zipcode: Option<String>,
    pub latitude: Option<String>,
    pub longitude: Option<String>,
    pub is_eu: Option<bool>,
    pub country_flag: Option<String>,
    pub geoname_id: Option<String>,
    pub country_emoji: Option<String>,
}

/// Country calling code, top-level domain and languages.
#[derive(Debug, Clone)]
pub struct CountryMetadataInfo {
    pub calling_code: Option<String>,
    pub tld: Option<String>,
    pub languages: Option<Vec<String>>,
}

/// Currency of the country.
#[derive(Debug, Clone)]
pub struct CurrencyInfo {
    pub code: Option<String>,
    pub name: Option<String>,
    pub symbol: Option<String>,
}

/// The timezone block of the full response shape.
#[derive(Debug, Clone)]
pub struct TimeZoneInfoFull {
    pub name: Option<String>,
    pub offset: Option<i32>,
    pub offset_with_dst: Option<i32>,
    pub current_time: Option<String>,
    /// Unix time in milliseconds.
    pub current_time_unix: Option<i64>,
    pub is_dst: Option<bool>,
    pub dst_savings: Option<i32>,
    pub dst_exists: Option<bool>,
}

/// The full, never-cached response shape.
#[derive(Debug, Clone)]
pub struct IpGeoResponseFull {
    pub ip: Option<String>,
    pub location: Option<LocationInfo>,
    pub country_metadata: Option<CountryMetadataInfo>,
    pub currency: Option<CurrencyInfo>,
    pub time_zone: Option<TimeZoneInfoFull>,
}

impl IpGeoResponseFull {
    /// Only the echoed address; the soft-fail shape of the full format.
    pub fn ip_only(ip: String) -> (r: IpGeoResponseFull)
        ensures
            r.ip matches Some(s) && s@ == ip@,
            r.location is None,
            r.country_metadata is None,
            r.currency is None,
            r.time_zone is None,
    {
        IpGeoResponseFull {
            ip: Some(ip),
            location: None,
            country_metadata: None,
            currency: None,
            time_zone: None,
        }
    }
}

/// Simple timezone response.
#[derive(Debug, Clone)]
pub struct TimezoneResponse {
    pub timezone: String,
}

/// Extended timezone response.
#[derive(Debug, Clone)]
pub struct TimezoneResponseFull {
    pub timezone: String,
    pub offset: Option<i32>,
    pub offset_with_dst: Option<i32>,
    pub current_time: Option<String>,
    /// Unix time in milliseconds.
    pub current_time_unix: Option<i64>,
    pub is_dst: Option<bool>,
    pub dst_exists: Option<bool>,
}

/// Error body of a rejected request.
#[derive(Debug, Clone)]
pub struct ApiErrorResponse {
    pub error: String,
    pub code: String,
}

/// What the timezone detail port reports for a named zone.
#[derive(Debug, Clone)]
pub struct TimezoneDetails {
    pub name: String,
    pub offset_hours: i32,
    pub offset_with_dst_hours: i32,
    pub current_time: String,
    /// Unix time in milliseconds.
    pub current_time_unix: i64,
    pub is_dst: bool,
    pub dst_exists: bool,
    pub dst_savings_hours: i32,
}

/// Query parameters of the address lookup endpoints.
#[derive(Debug)]
pub struct IpGeoQuery {
    /// Accepted for backward compatibility, never validated.
    pub api_key: Option<String>,
    pub ip: String,
    pub fields: Option<String>,
}

/// Query parameters of the timezone endpoints; coordinates in E7.
#[derive(Debug)]
pub struct TimezoneQuery {
    /// Accepted for backward compatibility, never validated.
    pub api_key: Option<String>,
    pub lat: i64,
    pub long: i64,
}

} // verus!
