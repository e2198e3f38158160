//! Composition of a geolocation record and the reference data into the
//! response shapes.
//!
//! `compose_simple` and `compose_full` are pure: they take the answers
//! of the timezone ports as arguments and their contracts pin every
//! field of the result.  `build_simple_response` and
//! `build_full_response` drive the ports and compose.

use vstd::prelude::*;

use crate::country_data::get_country_metadata_or_fallback;
use crate::country_data::get_flag_path;
use crate::country_data::spec_country_fallback;
use crate::country_data::CountryMetaSpec;
use crate::ip::spec_split;
use crate::ip::split_str;
use crate::ip::views_of;
use crate::languages::get_languages;
use crate::languages::spec_languages;
use crate::models::CountryMetadataInfo;
use crate::models::CurrencyInfo;
use crate::models::GeoData;
use crate::models::IpGeoResponse;
use crate::models::IpGeoResponseFull;
use crate::models::LocationInfo;
use crate::models::TimeZoneInfo;
use crate::models::TimeZoneInfoFull;
use crate::models::TimezoneDetails;
use crate::models::TimezoneResponseFull;
use crate::ports::TimezoneDetailPort;
use crate::ports::TimezoneNamePort;
use crate::strutil::e7_fixed5;
use crate::strutil::push_char;
use crate::strutil::spec_e7_fixed5;
use crate::strutil::spec_dec;
use crate::strutil::spec_lower;
use crate::strutil::u32_to_string;

verus! {

// ---------------------------------------------------------------------------
// Small option helpers
// ---------------------------------------------------------------------------

/// The view of an optional string, the empty sequence standing in for
/// absence.
pub open spec fn spec_opt_str(o: Option<String>) -> Seq<char> {
    match o {
        Some(s) => s@,
        None => Seq::<char>::empty(),
    }
}

/// The view of an optional string, kept optional.
pub open spec fn opt_view(o: Option<String>) -> Option<Seq<char>> {
    match o {
        Some(s) => Some(s@),
        None => None,
    }
}

/// The optional string carries exactly the optional view.
pub open spec fn opt_match(o: Option<String>, v: Option<Seq<char>>) -> bool {
    match (o, v) {
        (Some(s), Some(t)) => s@ == t,
        (None, None) => true,
        _ => false,
    }
}

/// Two optional strings agree, by view.
pub open spec fn opt_str_eq(a: Option<String>, b: Option<String>) -> bool {
    match (a, b) {
        (Some(x), Some(y)) => x@ == y@,
        (None, None) => true,
        _ => false,
    }
}

fn opt_or_empty(o: &Option<String>) -> (r: String)
    ensures
        r@ == spec_opt_str(*o),
{
    match o {
        Some(s) => s.clone(),
        None => String::new(),
    }
}

fn opt_clone(o: &Option<String>) -> (r: Option<String>)
    ensures
        opt_match(r, opt_view(*o)),
{
    match o {
        Some(s) => Some(s.clone()),
        None => None,
    }
}

// ---------------------------------------------------------------------------
// The simple shape
// ---------------------------------------------------------------------------

/// The fields of a simple response that do not depend on the timezone
/// port: each is a function of the record alone.
pub open spec fn simple_core_matches(r: IpGeoResponse, g: GeoData) -> bool {
    &&& r.latitude == g.latitude
    &&& r.longitude == g.longitude
    &&& r.city@ == spec_opt_str(g.city)
    &&& r.country_name@ == spec_opt_str(g.country_name)
    &&& r.languages@ == spec_languages(opt_view(g.country_code))
}

/// A simple response composed from a record and a resolved timezone
/// name: the core fields, and the timezone name only when the record
/// carries both coordinates.
pub open spec fn simple_response_matches(
    r: IpGeoResponse,
    g: GeoData,
    tz_name: Option<String>,
) -> bool {
    &&& simple_core_matches(r, g)
    &&& r.time_zone.name@ == if g.latitude is Some && g.longitude is Some {
        spec_opt_str(tz_name)
    } else {
        Seq::<char>::empty()
    }
}

/// Compose the simple response shape; `tz_name` is what the timezone
/// port answered for the record's coordinates (it is ignored unless
/// both coordinates are present).
pub fn compose_simple(record: &GeoData, tz_name: Option<String>) -> (r: IpGeoResponse)
    ensures
        simple_response_matches(r, *record, tz_name),
{
    let timezone_name: String = if record.latitude.is_some() && record.longitude.is_some() {
        match tz_name {
            Some(n) => n,
            None => String::new(),
        }
    } else {
        String::new()
    };
    IpGeoResponse {
        latitude: record.latitude,
        longitude: record.longitude,
        city: opt_or_empty(&record.city),
        country_name: opt_or_empty(&record.country_name),
        time_zone: TimeZoneInfo { name: timezone_name },
        languages: match &record.country_code {
            Some(c) => get_languages(Some(c.as_str())),
            None => get_languages(None),
        },
    }
}

/// Two simple responses agree on every serialized field.
pub open spec fn simple_same_bytes(a: IpGeoResponse, b: IpGeoResponse) -> bool {
    &&& a.latitude == b.latitude
    &&& a.longitude == b.longitude
    &&& a.city@ == b.city@
    &&& a.country_name@ == b.country_name@
    &&& a.time_zone.name@ == b.time_zone.name@
    &&& a.languages@ == b.languages@
}

/// Composing the simple shape is idempotent: two responses built from
/// the same record and the same resolved timezone name agree on every
/// serialized field.
pub proof fn lemma_simple_build_idempotent(
    r1: IpGeoResponse,
    r2: IpGeoResponse,
    g: GeoData,
    tz_name: Option<String>,
)
    requires
        simple_response_matches(r1, g, tz_name),
        simple_response_matches(r2, g, tz_name),
    ensures
        simple_same_bytes(r1, r2),
{
}

// ---------------------------------------------------------------------------
// The full shape
// ---------------------------------------------------------------------------

/// The location block composed from the record and the country table
/// row; every field is pinned.
pub open spec fn location_matches(loc: LocationInfo, g: GeoData, meta: Option<CountryMetaSpec>) -> bool {
    &&& (match meta {
        Some(m) => loc.continent_code matches Some(s) && s@ == m.continent_code,
        None => loc.continent_code is None,
    })
    &&& (match meta {
        Some(m) => loc.continent_name matches Some(s) && s@ == m.continent_name,
        None => loc.continent_name is None,
    })
    &&& opt_match(loc.country_code2, opt_view(g.country_code))
    &&& (match meta {
        Some(m) => loc.country_code3 matches Some(s) && s@ == m.iso_code3,
        None => loc.country_code3 is None,
    })
    &&& opt_match(loc.country_name, opt_view(g.country_name))
    &&& (match meta {
        Some(m) => loc.country_name_official matches Some(s) && s@ == m.official_name,
        None => loc.country_name_official is None,
    })
    &&& (match meta {
        Some(m) => loc.country_capital matches Some(s) && s@ == m.capital,
        None => loc.country_capital is None,
    })
    &&& opt_match(loc.state_prov, opt_view(g.state_prov))
    &&& (match g.state_code {
        Some(sc) => loc.state_code matches Some(s) && s@ == spec_opt_str(g.country_code) + "-"@
            + sc@,
        None => loc.state_code is None,
    })
    &&& loc.district is None
    &&& opt_match(loc.city, opt_view(g.city))
    &&& opt_match(loc.zipcode, opt_view(g.postal_code))
    &&& (match g.latitude {
        Some(v) => loc.latitude matches Some(s) && s@ == spec_e7_fixed5(v as int),
        None => loc.latitude is None,
    })
    &&& (match g.longitude {
        Some(v) => loc.longitude matches Some(s) && s@ == spec_e7_fixed5(v as int),
        None => loc.longitude is None,
    })
    &&& (match meta {
        Some(m) => loc.is_eu == Some(m.is_eu),
        None => loc.is_eu is None,
    })
    &&& (match g.country_code {
        Some(cc) => loc.country_flag matches Some(s) && s@ == "/static/flags/"@ + spec_lower(cc@)
            + ".svg"@,
        None => loc.country_flag is None,
    })
    &&& (match g.geoname_id {
        Some(id) => loc.geoname_id matches Some(s) && s@ == spec_dec(id as nat),
        None => loc.geoname_id is None,
    })
    &&& (match meta {
        Some(m) => loc.country_emoji matches Some(s) && s@ == m.flag_emoji,
        None => loc.country_emoji is None,
    })
}

/// The country metadata block: calling code, TLD and the language list
/// split on commas; all absent when the country is unknown.
pub open spec fn cmeta_matches(cm: CountryMetadataInfo, meta: Option<CountryMetaSpec>) -> bool {
    match meta {
        Some(m) => {
            &&& cm.calling_code matches Some(s) && s@ == m.calling_code
            &&& cm.tld matches Some(s) && s@ == m.tld
            &&& cm.languages matches Some(ls) && views_of(ls@) == spec_split(m.languages, ',')
        },
        None => {
            &&& cm.calling_code is None
            &&& cm.tld is None
            &&& cm.languages is None
        },
    }
}

/// The currency block of a known country.
pub open spec fn currency_matches(c: CurrencyInfo, m: CountryMetaSpec) -> bool {
    &&& c.code matches Some(s) && s@ == m.currency_code
    &&& c.name matches Some(s) && s@ == m.currency_name
    &&& c.symbol matches Some(s) && s@ == m.currency_symbol
}

/// The timezone block carries exactly what the detail port reported.
pub open spec fn tz_full_matches(t: TimeZoneInfoFull, d: TimezoneDetails) -> bool {
    &&& t.name matches Some(s) && s@ == d.name@
    &&& t.offset == Some(d.offset_hours)
    &&& t.offset_with_dst == Some(d.offset_with_dst_hours)
    &&& t.current_time matches Some(s) && s@ == d.current_time@
    &&& t.current_time_unix == Some(d.current_time_unix)
    &&& t.is_dst == Some(d.is_dst)
    &&& t.dst_savings == Some(d.dst_savings_hours)
    &&& t.dst_exists == Some(d.dst_exists)
}

/// The parts of a full response that do not depend on the timezone
/// ports.
pub open spec fn full_core_matches(r: IpGeoResponseFull, ip: Seq<char>, g: GeoData) -> bool {
    let meta = spec_country_fallback(opt_view(g.country_code));
    &&& r.ip matches Some(s) && s@ == ip
    &&& r.location matches Some(loc) && location_matches(loc, g, meta)
    &&& r.country_metadata matches Some(cm) && cmeta_matches(cm, meta)
    &&& (match meta {
        Some(m) => r.currency matches Some(c) && currency_matches(c, m),
        None => r.currency is None,
    })
}

/// A full response composed from a record and the outcome of the
/// timezone port chain.
pub open spec fn full_response_matches(
    r: IpGeoResponseFull,
    ip: Seq<char>,
    g: GeoData,
    tz: Option<TimezoneDetails>,
) -> bool {
    &&& full_core_matches(r, ip, g)
    &&& (match tz {
        Some(d) => r.time_zone matches Some(t) && tz_full_matches(t, d),
        None => r.time_zone is None,
    })
}

/// Compose the full response shape; `tz_details` is what the timezone
/// port chain answered for the record's coordinates.  A present but
/// unknown country code falls back to the placeholder row, so the
/// metadata blocks are absent only when the record carries no code.
pub fn compose_full(ip: &str, record: &GeoData, tz_details: Option<TimezoneDetails>) -> (r:
    IpGeoResponseFull)
    ensures
        full_response_matches(r, ip@, *record, tz_details),
{
    let meta = match &record.country_code {
        Some(c) => get_country_metadata_or_fallback(Some(c.as_str())),
        None => get_country_metadata_or_fallback(None),
    };
    let state_code: Option<String> = match &record.state_code {
        Some(sc) => {
            let mut s = opt_or_empty(&record.country_code);
            push_char(&mut s, '-');
            s.append(sc.as_str());
            proof {
                reveal_strlit("-");
                assert(s@ =~= spec_opt_str(record.country_code) + "-"@ + sc@);
            }
            Some(s)
        },
        None => None,
    };
    let location = LocationInfo {
        continent_code: match &meta {
            Some(m) => Some(m.continent_code.clone()),
            None => None,
        },
        continent_name: match &meta {
            Some(m) => Some(m.continent_name.clone()),
            None => None,
        },
        country_code2: opt_clone(&record.country_code),
        country_code3: match &meta {
            Some(m) => Some(m.iso_code3.clone()),
            None => None,
        },
        country_name: opt_clone(&record.country_name),
        country_name_official: match &meta {
            Some(m) => Some(m.official_name.clone()),
            None => None,
        },
        country_capital: match &meta {
            Some(m) => Some(m.capital.clone()),
            None => None,
        },
        state_prov: opt_clone(&record.state_prov),
        state_code,
        district: None,
        city: opt_clone(&record.city),
        zipcode: opt_clone(&record.postal_code),
        latitude: match record.latitude {
            Some(v) => Some(e7_fixed5(v)),
            None => None,
        },
        longitude: match record.longitude {
            Some(v) => Some(e7_fixed5(v)),
            None => None,
        },
        is_eu: match &meta {
            Some(m) => Some(m.is_eu),
            None => None,
        },
        country_flag: match &record.country_code {
            Some(cc) => Some(get_flag_path(cc.as_str())),
            None => None,
        },
        geoname_id: match record.geoname_id {
            Some(id) => Some(u32_to_string(id)),
            None => None,
        },
        country_emoji: match &meta {
            Some(m) => Some(m.flag_emoji.clone()),
            None => None,
        },
    };
    let country_metadata = CountryMetadataInfo {
        calling_code: match &meta {
            Some(m) => Some(m.calling_code.clone()),
            None => None,
        },
        tld: match &meta {
            Some(m) => Some(m.tld.clone()),
            None => None,
        },
        languages: match &meta {
            Some(m) => Some(split_str(m.languages.as_str(), ',')),
            None => None,
        },
    };
    let currency: Option<CurrencyInfo> = match &meta {
        Some(m) => Some(
            CurrencyInfo {
                code: Some(m.currency_code.clone()),
                name: Some(m.currency_name.clone()),
                symbol: Some(m.currency_symbol.clone()),
            },
        ),
        None => None,
    };
    let time_zone: Option<TimeZoneInfoFull> = match tz_details {
        Some(d) => Some(
            TimeZoneInfoFull {
                name: Some(d.name),
                offset: Some(d.offset_hours),
                offset_with_dst: Some(d.offset_with_dst_hours),
                current_time: Some(d.current_time),
                current_time_unix: Some(d.current_time_unix),
                is_dst: Some(d.is_dst),
                dst_savings: Some(d.dst_savings_hours),
                dst_exists: Some(d.dst_exists),
            },
        ),
        None => None,
    };
    IpGeoResponseFull {
        ip: Some(ip.to_owned()),
        location: Some(location),
        country_metadata: Some(country_metadata),
        currency,
        time_zone,
    }
}

// ---------------------------------------------------------------------------
// The full timezone shape
// ---------------------------------------------------------------------------

/// The full timezone response composed from a resolved name and its
/// details: without a name everything is empty; with a name but no
/// details only the name is filled.
pub open spec fn tz_full_response_matches(
    r: TimezoneResponseFull,
    name: Option<String>,
    d: Option<TimezoneDetails>,
) -> bool {
    match name {
        Some(n) => {
            &&& r.timezone@ == n@
            &&& (match d {
                Some(dd) => {
                    &&& r.offset == Some(dd.offset_hours)
                    &&& r.offset_with_dst == Some(dd.offset_with_dst_hours)
                    &&& r.current_time matches Some(s) && s@ == dd.current_time@
                    &&& r.current_time_unix == Some(dd.current_time_unix)
                    &&& r.is_dst == Some(dd.is_dst)
                    &&& r.dst_exists == Some(dd.dst_exists)
                },
                None => {
                    &&& r.offset is None
                    &&& r.offset_with_dst is None
                    &&& r.current_time is None
                    &&& r.current_time_unix is None
                    &&& r.is_dst is None
                    &&& r.dst_exists is None
                },
            })
        },
        None => {
            &&& r.timezone@ == Seq::<char>::empty()
            &&& r.offset is None
            &&& r.offset_with_dst is None
            &&& r.current_time is None
            &&& r.current_time_unix is None
            &&& r.is_dst is None
            &&& r.dst_exists is None
        },
    }
}

/// Compose the full timezone response; `details` is consulted only
/// when a name was resolved.
pub fn compose_timezone_full(name: Option<String>, details: Option<TimezoneDetails>) -> (r:
    TimezoneResponseFull)
    ensures
        tz_full_response_matches(r, name, details),
{
    match name {
        Some(n) => {
            match details {
                Some(d) => TimezoneResponseFull {
                    timezone: n,
                    offset: Some(d.offset_hours),
                    offset_with_dst: Some(d.offset_with_dst_hours),
                    current_time: Some(d.current_time),
                    current_time_unix: Some(d.current_time_unix),
                    is_dst: Some(d.is_dst),
                    dst_exists: Some(d.dst_exists),
                },
                None => TimezoneResponseFull {
                    timezone: n,
                    offset: None,
                    offset_with_dst: None,
                    current_time: None,
                    current_time_unix: None,
                    is_dst: None,
                    dst_exists: None,
                },
            }
        },
        None => TimezoneResponseFull {
            timezone: String::new(),
            offset: None,
            offset_with_dst: None,
            current_time: None,
            current_time_unix: None,
            is_dst: None,
            dst_exists: None,
        },
    }
}

// ---------------------------------------------------------------------------
// Builders that drive the ports
// ---------------------------------------------------------------------------

/// Build the simple response, consulting the timezone name port only
/// when the record carries both coordinates: a record without them gets
/// the empty timezone name, with no resolution attempted.
pub fn build_simple_response<T: TimezoneNamePort>(tz: &T, record: &GeoData) -> (r: IpGeoResponse)
    ensures
        simple_core_matches(r, *record),
        !(record.latitude is Some && record.longitude is Some) ==> r.time_zone.name@
            == Seq::<char>::empty(),
{
    let name: Option<String> = match (record.latitude, record.longitude) {
        (Some(la), Some(lo)) => tz.resolve(la, lo),
        _ => None,
    };
    compose_simple(record, name)
}

/// Build the full response, resolving the timezone name and then its
/// details only when the record carries both coordinates.
pub fn build_full_response<T: TimezoneNamePort, D: TimezoneDetailPort>(
    tz: &T,
    dt: &D,
    ip: &str,
    record: &GeoData,
) -> (r: IpGeoResponseFull)
    ensures
        full_core_matches(r, ip@, *record),
        !(record.latitude is Some && record.longitude is Some) ==> r.time_zone is None,
{
    let name: Option<String> = match (record.latitude, record.longitude) {
        (Some(la), Some(lo)) => tz.resolve(la, lo),
        _ => None,
    };
    let details: Option<TimezoneDetails> = match name {
        Some(n) => dt.details(n.as_str()),
        None => None,
    };
    compose_full(ip, record, details)
}

// ---------------------------------------------------------------------------
// Idempotence of the full shape
// ---------------------------------------------------------------------------

/// Two port answers that agree on everything except the current-time
/// fields.
pub open spec fn details_agree_mod_time(d1: Option<TimezoneDetails>, d2: Option<TimezoneDetails>) -> bool {
    match (d1, d2) {
        (Some(a), Some(b)) => {
            &&& a.name@ == b.name@
            &&& a.offset_hours == b.offset_hours
            &&& a.offset_with_dst_hours == b.offset_with_dst_hours
            &&& a.is_dst == b.is_dst
            &&& a.dst_exists == b.dst_exists
            &&& a.dst_savings_hours == b.dst_savings_hours
        },
        (None, None) => true,
        _ => false,
    }
}

pub open spec fn location_same_bytes(a: LocationInfo, b: LocationInfo) -> bool {
    &&& opt_str_eq(a.continent_code, b.continent_code)
    &&& opt_str_eq(a.continent_name, b.continent_name)
    &&& opt_str_eq(a.country_code2, b.country_code2)
    &&& opt_str_eq(a.country_code3, b.country_code3)
    &&& opt_str_eq(a.country_name, b.country_name)
    &&& opt_str_eq(a.country_name_official, b.country_name_official)
    &&& opt_str_eq(a.country_capital, b.country_capital)
    &&& opt_str_eq(a.state_prov, b.state_prov)
    &&& opt_str_eq(a.state_code, b.state_code)
    &&& opt_str_eq(a.district, b.district)
    &&& opt_str_eq(a.city, b.city)
    &&& opt_str_eq(a.zipcode, b.zipcode)
    &&& opt_str_eq(a.latitude, b.latitude)
    &&& opt_str_eq(a.longitude, b.longitude)
    &&& a.is_eu == b.is_eu
    &&& opt_str_eq(a.country_flag, b.country_flag)
    &&& opt_str_eq(a.geoname_id, b.geoname_id)
    &&& opt_str_eq(a.country_emoji, b.country_emoji)
}

/// Two full responses agree on every serialized field outside the
/// current-time pair.
pub open spec fn full_same_bytes_mod_time(a: IpGeoResponseFull, b: IpGeoResponseFull) -> bool {
    &&& opt_str_eq(a.ip, b.ip)
    &&& (match (a.location, b.location) {
        (Some(x), Some(y)) => location_same_bytes(x, y),
        (None, None) => true,
        _ => false,
    })
    &&& (match (a.country_metadata, b.country_metadata) {
        (Some(x), Some(y)) => {
            &&& opt_str_eq(x.calling_code, y.calling_code)
            &&& opt_str_eq(x.tld, y.tld)
            &&& (match (x.languages, y.languages) {
                (Some(v), Some(w)) => views_of(v@) == views_of(w@),
                (None, None) => true,
                _ => false,
            })
        },
        (None, None) => true,
        _ => false,
    })
    &&& (match (a.currency, b.currency) {
        (Some(x), Some(y)) => opt_str_eq(x.code, y.code) && opt_str_eq(x.name, y.name)
            && opt_str_eq(x.symbol, y.symbol),
        (None, None) => true,
        _ => false,
    })
    &&& (match (a.time_zone, b.time_zone) {
        (Some(x), Some(y)) => {
            &&& opt_str_eq(x.name, y.name)
            &&& x.offset == y.offset
            &&& x.offset_with_dst == y.offset_with_dst
            &&& x.is_dst == y.is_dst
            &&& x.dst_savings == y.dst_savings
            &&& x.dst_exists == y.dst_exists
        },
        (None, None) => true,
        _ => false,
    })
}

/// Composing the full shape twice from the same record and address can
/// differ only in the current-time fields of the timezone block, and
/// only because the clock behind the detail port moved between the two
/// builds.
pub proof fn lemma_full_build_idempotent_mod_time(
    r1: IpGeoResponseFull,
    r2: IpGeoResponseFull,
    ip: Seq<char>,
    g: GeoData,
    d1: Option<TimezoneDetails>,
    d2: Option<TimezoneDetails>,
)
    requires
        full_response_matches(r1, ip, g, d1),
        full_response_matches(r2, ip, g, d2),
        details_agree_mod_time(d1, d2),
    ensures
        full_same_bytes_mod_time(r1, r2),
{
}

} // verus!
