//! Response composition, the cache, and the REST pipeline.

use std::cell::Cell;
use std::collections::HashMap;

use ipgeolocation::builder::build_full_response;
use ipgeolocation::builder::build_simple_response;
use ipgeolocation::builder::compose_full;
use ipgeolocation::builder::compose_simple;
use ipgeolocation::cache::CacheConfig;
use ipgeolocation::cache::GeoCache;
use ipgeolocation::models::GeoData;
use ipgeolocation::models::IpGeoQuery;
use ipgeolocation::models::IpGeoResponse;
use ipgeolocation::models::TimeZoneInfo;
use ipgeolocation::models::TimezoneQuery;
use ipgeolocation::models::TimezoneResponse;
use ipgeolocation::ports::GeoIpError;
use ipgeolocation::ports::GeoIpLookup;
use ipgeolocation::ports::TimezoneDetailPort;
use ipgeolocation::ports::TimezoneNamePort;
use ipgeolocation::models::TimezoneDetails;
use ipgeolocation::rest::extract_client_ip;
use ipgeolocation::rest::ipgeo_request;
use ipgeolocation::rest::root_request;
use ipgeolocation::rest::timezone_request;
use ipgeolocation::rest::accepts_protobuf;
use ipgeolocation::rest::IpGeoReply;
use ipgeolocation::rest::TimezoneReply;
use ipgeolocation::rest::CACHE_CONTROL;

/// Map-backed lookup double, counting its calls.
struct MockGeoIpReader {
    responses: HashMap<String, Result<GeoData, GeoIpError>>,
    calls: Cell<usize>,
}

impl MockGeoIpReader {
    fn new() -> Self {
        MockGeoIpReader { responses: HashMap::new(), calls: Cell::new(0) }
    }

    fn with_response(mut self, ip: &str, response: Result<GeoData, GeoIpError>) -> Self {
        self.responses.insert(ip.to_string(), response);
        self
    }
}

impl GeoIpLookup for MockGeoIpReader {
    fn lookup(&self, ip_str: &str) -> Result<GeoData, GeoIpError> {
        self.calls.set(self.calls.get() + 1);
        match self.responses.get(ip_str) {
            Some(Ok(data)) => Ok(data.clone()),
            Some(Err(_)) => Err(GeoIpError::NotFound),
            None => Err(GeoIpError::NotFound),
        }
    }
}

/// Timezone name port over the real boundary engine; E7 to degrees.
struct TzfPort {
    finder: tzf_rs::DefaultFinder,
}

impl TzfPort {
    fn new() -> Self {
        TzfPort { finder: tzf_rs::DefaultFinder::new() }
    }
}

impl TimezoneNamePort for TzfPort {
    fn resolve(&self, lat: i64, lng: i64) -> Option<String> {
        if !(-900_000_000..=900_000_000).contains(&lat)
            || !(-1_800_000_000..=1_800_000_000).contains(&lng)
        {
            return None;
        }
        let name = self.finder.get_tz_name(lng as f64 / 1e7, lat as f64 / 1e7);
        if name.is_empty() {
            None
        } else {
            Some(name.to_string())
        }
    }
}

/// A name port that resolves nothing.
struct NoZonePort;

impl TimezoneNamePort for NoZonePort {
    fn resolve(&self, _lat: i64, _lng: i64) -> Option<String> {
        None
    }
}

/// A detail port that knows nothing.
struct NoDetailPort;

impl TimezoneDetailPort for NoDetailPort {
    fn details(&self, _tz_name: &str) -> Option<TimezoneDetails> {
        None
    }
}

fn london_record() -> GeoData {
    GeoData {
        latitude: Some(515_074_000),
        longitude: Some(-1_278_000),
        city: Some("London".to_string()),
        country_name: Some("United Kingdom".to_string()),
        country_code: Some("GB".to_string()),
        state_prov: None,
        state_code: None,
        postal_code: None,
        geoname_id: None,
    }
}

fn us_record() -> GeoData {
    GeoData {
        latitude: Some(377_510_000),
        longitude: Some(-978_220_000),
        city: Some("Test City".to_string()),
        country_name: Some("United States".to_string()),
        country_code: Some("US".to_string()),
        state_prov: Some("Kansas".to_string()),
        state_code: Some("KS".to_string()),
        postal_code: Some("67401".to_string()),
        geoname_id: Some(123456),
    }
}

#[test]
fn test_ipgeo_response_default() {
    let response = IpGeoResponse::default();
    assert!(response.latitude.is_none());
    assert!(response.longitude.is_none());
    assert_eq!(response.city, "");
    assert_eq!(response.country_name, "");
    assert_eq!(response.time_zone.name, "");
    assert_eq!(response.languages, "");
}

#[test]
fn test_ipgeo_response_default_empty_strings() {
    let response = IpGeoResponse::default();
    assert!(response.latitude.is_none());
    assert!(response.longitude.is_none());
    assert!(response.city.is_empty());
    assert!(response.country_name.is_empty());
    assert!(response.time_zone.name.is_empty());
    assert!(response.languages.is_empty());
}

#[test]
fn test_timezone_info_clone() {
    let tz = TimeZoneInfo { name: "Europe/London".to_string() };
    let cloned = tz.clone();
    assert_eq!(tz.name, cloned.name);
}

#[test]
fn test_timezone_response_creation() {
    let response = TimezoneResponse { timezone: "Asia/Tokyo".to_string() };
    assert_eq!(response.timezone, "Asia/Tokyo");
}

#[test]
fn test_geo_data_default() {
    let data = us_record();
    assert_eq!(data.latitude, Some(377_510_000));
    assert_eq!(data.city, Some("Test City".to_string()));
    assert_eq!(data.country_code, Some("US".to_string()));
}

#[test]
fn test_geo_data_none() {
    let data = GeoData {
        latitude: None,
        longitude: None,
        city: None,
        country_name: None,
        country_code: None,
        state_prov: None,
        state_code: None,
        postal_code: None,
        geoname_id: None,
    };
    assert!(data.latitude.is_none());
    assert!(data.city.is_none());
}

#[test]
fn test_geo_data_clone() {
    let data = london_record();
    let cloned = data.clone();
    assert_eq!(data.city, cloned.city);
    assert_eq!(data.latitude, cloned.latitude);
}

#[test]
fn test_geoip_error_display() {
    let err = GeoIpError::NotFound;
    assert_eq!(err.describe(), "IP address not found in database");
}

#[test]
fn test_mock_geoip_reader_found() {
    let mock = MockGeoIpReader::new().with_response("8.8.8.8", Ok(us_record()));
    let result = mock.lookup("8.8.8.8");
    assert!(result.is_ok());
    let data = result.unwrap();
    assert_eq!(data.city, Some("Test City".to_string()));
    assert_eq!(data.country_code, Some("US".to_string()));
}

#[test]
fn test_mock_geoip_reader_not_found() {
    let mock = MockGeoIpReader::new();
    assert!(mock.lookup("1.2.3.4").is_err());
}

#[test]
fn test_mock_geoip_reader_with_error() {
    let mock = MockGeoIpReader::new().with_response("0.0.0.0", Err(GeoIpError::NotFound));
    assert!(mock.lookup("0.0.0.0").is_err());
}

#[test]
fn test_build_simple_response() {
    let tz = TzfPort::new();
    let response = build_simple_response(&tz, &london_record());
    assert_eq!(response.latitude, Some(515_074_000));
    assert_eq!(response.city, "London");
    assert_eq!(response.time_zone.name, "Europe/London");
}

#[test]
fn test_build_full_response() {
    let tz = TzfPort::new();
    let response = build_full_response(&tz, &NoDetailPort, "8.8.8.8", &us_record());
    assert_eq!(response.ip, Some("8.8.8.8".to_string()));
    assert!(response.location.is_some());
    let location = response.location.unwrap();
    assert_eq!(location.country_code2, Some("US".to_string()));
    assert_eq!(location.country_code3, Some("USA".to_string()));
    assert_eq!(location.is_eu, Some(false));
}

#[test]
fn test_full_location_coordinates_fixed5() {
    let response = compose_full("8.8.8.8", &us_record(), None);
    let location = response.location.unwrap();
    assert_eq!(location.latitude, Some("37.75100".to_string()));
    assert_eq!(location.longitude, Some("-97.82200".to_string()));
    assert_eq!(location.state_code, Some("US-KS".to_string()));
    assert_eq!(location.geoname_id, Some("123456".to_string()));
    assert_eq!(location.country_flag, Some("/static/flags/us.svg".to_string()));
}

#[test]
fn test_full_response_germany() {
    let record = GeoData {
        latitude: Some(525_200_000),
        longitude: Some(134_050_000),
        city: Some("Berlin".to_string()),
        country_name: Some("Germany".to_string()),
        country_code: Some("DE".to_string()),
        state_prov: None,
        state_code: None,
        postal_code: None,
        geoname_id: None,
    };
    let response = compose_full("2.2.2.2", &record, None);
    let currency = response.currency.unwrap();
    assert_eq!(currency.code, Some("EUR".to_string()));
    let location = response.location.unwrap();
    assert_eq!(location.is_eu, Some(true));
    assert_eq!(location.country_code3, Some("DEU".to_string()));
}

#[test]
fn test_simple_without_coordinates_has_empty_timezone() {
    let record = GeoData {
        latitude: None,
        longitude: None,
        city: Some("Nowhere".to_string()),
        country_name: None,
        country_code: None,
        state_prov: None,
        state_code: None,
        postal_code: None,
        geoname_id: None,
    };
    // even a port that would resolve something is never consulted
    let tz = TzfPort::new();
    let response = build_simple_response(&tz, &record);
    assert_eq!(response.time_zone.name, "");
}

#[test]
fn test_simple_build_idempotent() {
    let record = london_record();
    let a = compose_simple(&record, Some("Europe/London".to_string()));
    let b = compose_simple(&record, Some("Europe/London".to_string()));
    assert_eq!(a.latitude, b.latitude);
    assert_eq!(a.longitude, b.longitude);
    assert_eq!(a.city, b.city);
    assert_eq!(a.country_name, b.country_name);
    assert_eq!(a.time_zone.name, b.time_zone.name);
    assert_eq!(a.languages, b.languages);
}

#[test]
fn test_cache_config_default() {
    let config = CacheConfig::default();
    assert_eq!(config.max_capacity, 10000);
    assert_eq!(config.ttl_secs, 3600);
}

#[test]
fn test_cache_config_custom() {
    let config = CacheConfig { max_capacity: 5000, ttl_secs: 1800 };
    assert_eq!(config.max_capacity, 5000);
    assert_eq!(config.ttl_secs, 1800);
}

#[test]
fn test_cache_insert_and_get() {
    let cache = GeoCache::new(CacheConfig::default());
    let response = IpGeoResponse {
        latitude: Some(377_510_000),
        longitude: Some(-978_220_000),
        city: "Test City".to_string(),
        country_name: "Test Country".to_string(),
        time_zone: TimeZoneInfo { name: "America/Chicago".to_string() },
        languages: "en-US,en".to_string(),
    };
    cache.insert("8.8.8.8".to_string(), response.clone());
    let cached = cache.get("8.8.8.8");
    assert!(cached.is_some());
    let cached = cached.unwrap();
    assert_eq!(cached.city, "Test City");
    assert_eq!(cached.latitude, Some(377_510_000));
}

#[test]
fn test_cache_miss() {
    let cache = GeoCache::new(CacheConfig::default());
    assert!(cache.get("1.2.3.4").is_none());
}

#[test]
fn test_cache_len() {
    let cache = GeoCache::new(CacheConfig::default());
    let response = IpGeoResponse::default();
    cache.insert("1.1.1.1".to_string(), response.clone());
    cache.insert("2.2.2.2".to_string(), response);
    assert!(cache.get("1.1.1.1").is_some());
    assert!(cache.get("2.2.2.2").is_some());
}

#[test]
fn test_cache_overwrite() {
    let cache = GeoCache::new(CacheConfig::default());
    let mut response1 = IpGeoResponse::default();
    response1.city = "City1".to_string();
    let mut response2 = IpGeoResponse::default();
    response2.city = "City2".to_string();
    cache.insert("1.1.1.1".to_string(), response1);
    cache.insert("1.1.1.1".to_string(), response2);
    let cached = cache.get("1.1.1.1").unwrap();
    assert_eq!(cached.city, "City2");
}

#[test]
fn test_cache_different_ips() {
    let cache = GeoCache::new(CacheConfig::default());
    let mut response_us = IpGeoResponse::default();
    response_us.country_name = "United States".to_string();
    let mut response_uk = IpGeoResponse::default();
    response_uk.country_name = "United Kingdom".to_string();
    cache.insert("8.8.8.8".to_string(), response_us);
    cache.insert("1.1.1.1".to_string(), response_uk);
    let us = cache.get("8.8.8.8").unwrap();
    let uk = cache.get("1.1.1.1").unwrap();
    assert_eq!(us.country_name, "United States");
    assert_eq!(uk.country_name, "United Kingdom");
}

#[test]
fn test_cache_is_empty_on_new() {
    let cache = GeoCache::new(CacheConfig::default());
    assert!(cache.get("nonexistent").is_none());
}

#[test]
fn test_cache_is_empty_method() {
    let cache = GeoCache::new(CacheConfig::default());
    let _ = cache.is_empty();
}

#[test]
fn test_cache_len_method() {
    let cache = GeoCache::new(CacheConfig::default());
    let len = cache.len();
    assert!(len <= cache.len() + 1);
}

#[test]
fn test_cache_control_constant() {
    assert_eq!(CACHE_CONTROL, "public, max-age=1209600");
}

#[test]
fn test_accepts_protobuf() {
    assert!(accepts_protobuf(Some("application/x-protobuf")));
    assert!(accepts_protobuf(Some("application/protobuf")));
    assert!(accepts_protobuf(Some("application/json, application/x-protobuf")));
    assert!(!accepts_protobuf(Some("application/json")));
    assert!(!accepts_protobuf(None));
}

#[test]
fn test_accepts_protobuf_helper() {
    assert!(accepts_protobuf(Some("application/x-protobuf")));
    assert!(!accepts_protobuf(Some("application/json")));
}

#[test]
fn test_extract_client_ip_precedence() {
    assert_eq!(
        extract_client_ip(Some("1.1.1.1"), Some("2.2.2.2"), Some("3.3.3.3"), Some("4.4.4.4")),
        "1.1.1.1"
    );
    assert_eq!(
        extract_client_ip(None, Some("2.2.2.2"), Some("3.3.3.3"), Some("4.4.4.4")),
        "2.2.2.2"
    );
    assert_eq!(
        extract_client_ip(None, None, Some(" 3.3.3.3 , 9.9.9.9"), Some("4.4.4.4")),
        "3.3.3.3"
    );
    assert_eq!(extract_client_ip(None, None, None, Some("4.4.4.4")), "4.4.4.4");
    assert_eq!(extract_client_ip(None, None, None, None), "-");
}

#[test]
fn test_cache_hit_suppresses_lookup() {
    let geoip = MockGeoIpReader::new().with_response("8.8.8.8", Ok(us_record()));
    let cache = GeoCache::new(CacheConfig::default());
    let params = IpGeoQuery { api_key: None, ip: "8.8.8.8".to_string(), fields: None };
    let first = ipgeo_request(&geoip, &NoZonePort, &NoDetailPort, &cache, &params, None);
    assert!(matches!(first, IpGeoReply::Simple(_)));
    assert_eq!(geoip.calls.get(), 1);
    let second = ipgeo_request(&geoip, &NoZonePort, &NoDetailPort, &cache, &params, None);
    assert!(matches!(second, IpGeoReply::Simple(_)));
    assert_eq!(geoip.calls.get(), 1, "a cache hit must not invoke the lookup port again");
}

#[test]
fn test_protobuf_path_bypasses_cache() {
    let geoip = MockGeoIpReader::new().with_response("8.8.8.8", Ok(us_record()));
    let cache = GeoCache::new(CacheConfig::default());
    let params = IpGeoQuery { api_key: None, ip: "8.8.8.8".to_string(), fields: None };
    let accept = Some("application/x-protobuf");
    let _ = ipgeo_request(&geoip, &NoZonePort, &NoDetailPort, &cache, &params, accept);
    let _ = ipgeo_request(&geoip, &NoZonePort, &NoDetailPort, &cache, &params, accept);
    assert_eq!(geoip.calls.get(), 2, "binary answers are always recomputed");
}

#[test]
fn test_ipgeo_request_invalid_ip() {
    let geoip = MockGeoIpReader::new();
    let cache = GeoCache::new(CacheConfig::default());
    let params = IpGeoQuery { api_key: None, ip: " not-an-ip ".to_string(), fields: None };
    match ipgeo_request(&geoip, &NoZonePort, &NoDetailPort, &cache, &params, None) {
        IpGeoReply::Invalid(e) => {
            assert_eq!(e.code, "INVALID_IP");
            assert_eq!(e.error, "Invalid IP address: not-an-ip");
        }
        _ => panic!("expected a validation failure"),
    }
    assert_eq!(geoip.calls.get(), 0);
}

#[test]
fn test_ipgeo_request_soft_fail_is_empty_success() {
    let geoip = MockGeoIpReader::new();
    let cache = GeoCache::new(CacheConfig::default());
    let params = IpGeoQuery { api_key: None, ip: "9.9.9.9".to_string(), fields: None };
    match ipgeo_request(&geoip, &NoZonePort, &NoDetailPort, &cache, &params, None) {
        IpGeoReply::Simple(r) => {
            assert!(r.latitude.is_none());
            assert_eq!(r.city, "");
            assert_eq!(r.country_name, "");
        }
        _ => panic!("a lookup miss is not an error on the REST path"),
    }
}

#[test]
fn test_ipgeo_request_full_format_on_miss_echoes_ip() {
    let geoip = MockGeoIpReader::new();
    let cache = GeoCache::new(CacheConfig::default());
    let params = IpGeoQuery {
        api_key: None,
        ip: "9.9.9.9".to_string(),
        fields: Some("*".to_string()),
    };
    match ipgeo_request(&geoip, &NoZonePort, &NoDetailPort, &cache, &params, None) {
        IpGeoReply::Full(r) => {
            assert_eq!(r.ip, Some("9.9.9.9".to_string()));
            assert!(r.location.is_none());
            assert!(r.currency.is_none());
        }
        _ => panic!("expected the full shape"),
    }
}

#[test]
fn test_root_request_uses_header_address() {
    let geoip = MockGeoIpReader::new().with_response("8.8.8.8", Ok(us_record()));
    let cache = GeoCache::new(CacheConfig::default());
    match root_request(
        &geoip,
        &NoZonePort,
        &cache,
        Some("8.8.8.8"),
        None,
        None,
        Some("5.5.5.5"),
        None,
    ) {
        IpGeoReply::Simple(r) => {
            assert_eq!(r.city, "Test City");
        }
        _ => panic!("expected the simple shape"),
    }
}

#[test]
fn test_timezone_lookup_stockholm() {
    let tz = TzfPort::new();
    let params = TimezoneQuery { api_key: None, lat: 593_295_040, long: 180_695_320 };
    match timezone_request(&tz, &params) {
        TimezoneReply::Simple(r) => assert_eq!(r.timezone, "Europe/Stockholm"),
        _ => panic!("expected the simple shape"),
    }
}

#[test]
fn test_timezone_lookup_new_york() {
    let tz = TzfPort::new();
    let params = TimezoneQuery { api_key: None, lat: 407_128_000, long: -740_060_000 };
    match timezone_request(&tz, &params) {
        TimezoneReply::Simple(r) => assert_eq!(r.timezone, "America/New_York"),
        _ => panic!("expected the simple shape"),
    }
}

#[test]
fn test_timezone_lookup_invalid() {
    let tz = TzfPort::new();
    let params = TimezoneQuery { api_key: None, lat: 9_990_000_000, long: 9_990_000_000 };
    match timezone_request(&tz, &params) {
        TimezoneReply::Invalid(e) => {
            assert_eq!(e.code, "INVALID_LATITUDE");
            assert_eq!(e.error, "Latitude must be between -90 and 90, got: 999");
        }
        _ => panic!("out-of-range coordinates must be rejected"),
    }
}

#[test]
fn test_tokyo_timezone() {
    let tz = TzfPort::new();
    let params = TimezoneQuery { api_key: None, lat: 356_762_000, long: 1_396_503_000 };
    match timezone_request(&tz, &params) {
        TimezoneReply::Simple(r) => assert_eq!(r.timezone, "Asia/Tokyo"),
        _ => panic!("expected the simple shape"),
    }
}

#[test]
fn test_london_timezone() {
    let tz = TzfPort::new();
    let params = TimezoneQuery { api_key: None, lat: 515_074_000, long: -1_278_000 };
    match timezone_request(&tz, &params) {
        TimezoneReply::Simple(r) => assert_eq!(r.timezone, "Europe/London"),
        _ => panic!("expected the simple shape"),
    }
}

#[test]
fn test_full_build_differs_only_in_time() {
    let record = us_record();
    let early = TimezoneDetails {
        name: "America/Chicago".to_string(),
        offset_hours: -6,
        offset_with_dst_hours: -6,
        current_time: "2024-01-15 08:30:00.000-0600".to_string(),
        current_time_unix: 1_705_329_000_000,
        is_dst: false,
        dst_exists: true,
        dst_savings_hours: 1,
    };
    let mut late = early.clone();
    late.current_time = "2024-01-15 08:30:05.000-0600".to_string();
    late.current_time_unix = 1_705_329_005_000;
    let a = compose_full("8.8.8.8", &record, Some(early));
    let b = compose_full("8.8.8.8", &record, Some(late));
    assert_eq!(a.ip, b.ip);
    let (la, lb) = (a.location.unwrap(), b.location.unwrap());
    assert_eq!(la.latitude, lb.latitude);
    assert_eq!(la.city, lb.city);
    assert_eq!(la.country_code3, lb.country_code3);
    let (ca, cb) = (a.currency.unwrap(), b.currency.unwrap());
    assert_eq!(ca.code, cb.code);
    let (ta, tb) = (a.time_zone.unwrap(), b.time_zone.unwrap());
    assert_eq!(ta.name, tb.name);
    assert_eq!(ta.offset, tb.offset);
    assert_eq!(ta.is_dst, tb.is_dst);
    assert_ne!(ta.current_time, tb.current_time);
    assert_ne!(ta.current_time_unix, tb.current_time_unix);
}

#[test]
fn test_lookup_miss_is_cached_too() {
    // the empty soft-fail response is cached like a hit, so repeated
    // queries for an unresolvable address do not repeat the lookup
    let geoip = MockGeoIpReader::new();
    let cache = GeoCache::new(CacheConfig::default());
    let params = IpGeoQuery { api_key: None, ip: "203.0.113.7".to_string(), fields: None };
    let _ = ipgeo_request(&geoip, &NoZonePort, &NoDetailPort, &cache, &params, None);
    assert_eq!(geoip.calls.get(), 1);
    let second = ipgeo_request(&geoip, &NoZonePort, &NoDetailPort, &cache, &params, None);
    assert_eq!(geoip.calls.get(), 1);
    match second {
        IpGeoReply::Simple(r) => assert_eq!(r.city, ""),
        _ => panic!("expected the cached empty response"),
    }
}

#[test]
fn test_full_response_unknown_country() {
    // a present but unknown code falls back to the placeholder row
    let record = GeoData {
        latitude: None,
        longitude: None,
        city: None,
        country_name: None,
        country_code: Some("XX".to_string()),
        state_prov: None,
        state_code: None,
        postal_code: None,
        geoname_id: None,
    };
    let response = compose_full("5.6.7.8", &record, None);
    let location = response.location.unwrap();
    assert_eq!(location.country_code3, Some("UNK".to_string()));
    assert_eq!(location.continent_code, Some("XX".to_string()));
    let currency = response.currency.unwrap();
    assert_eq!(currency.code, Some("".to_string()));
    // with no code at all the metadata blocks stay absent
    let bare = GeoData {
        latitude: None,
        longitude: None,
        city: None,
        country_name: None,
        country_code: None,
        state_prov: None,
        state_code: None,
        postal_code: None,
        geoname_id: None,
    };
    let empty = compose_full("5.6.7.8", &bare, None);
    assert!(empty.currency.is_none());
    assert_eq!(empty.location.unwrap().country_code3, None);
}
