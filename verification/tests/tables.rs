//! The country metadata and language reference tables.

use ipgeolocation::country_data::get_country_metadata;
use ipgeolocation::country_data::get_country_metadata_or_fallback;
use ipgeolocation::country_data::get_flag_path;
use ipgeolocation::languages::get_languages;

#[test]
fn test_get_country_metadata_us() {
    let meta = get_country_metadata(Some("US")).unwrap();
    assert_eq!(meta.name, "United States");
    assert_eq!(meta.capital, "Washington, D.C.");
    assert_eq!(meta.currency_code, "USD");
    assert!(!meta.is_eu);
}

#[test]
fn test_get_country_metadata_de() {
    let meta = get_country_metadata(Some("DE")).unwrap();
    assert_eq!(meta.name, "Germany");
    assert!(meta.is_eu);
    assert_eq!(meta.currency_code, "EUR");
}

#[test]
fn test_get_country_metadata_lowercase() {
    let meta = get_country_metadata(Some("se")).unwrap();
    assert_eq!(meta.name, "Sweden");
}

#[test]
fn test_get_country_metadata_unknown() {
    assert!(get_country_metadata(Some("XX")).is_none());
}

#[test]
fn test_get_country_metadata_none() {
    assert!(get_country_metadata(None).is_none());
}

#[test]
fn test_get_country_metadata_or_fallback_known() {
    let meta = get_country_metadata_or_fallback(Some("US")).unwrap();
    assert_eq!(meta.name, "United States");
    assert_eq!(meta.currency_code, "USD");
}

#[test]
fn test_get_country_metadata_or_fallback_unknown() {
    let meta = get_country_metadata_or_fallback(Some("XX")).unwrap();
    assert_eq!(meta.name, "Unknown");
    assert_eq!(meta.flag_emoji, "\u{1f3f3}\u{fe0f}");
    assert!(!meta.is_eu);
}

#[test]
fn test_get_country_metadata_or_fallback_none() {
    assert!(get_country_metadata_or_fallback(None).is_none());
}

#[test]
fn test_fallback_iso_code3_is_unk() {
    let meta = get_country_metadata_or_fallback(Some("ZZ")).unwrap();
    assert_eq!(meta.iso_code3, "UNK");
    assert_eq!(meta.calling_code, "");
    assert_eq!(meta.currency_code, "");
}

#[test]
fn test_get_flag_path() {
    assert_eq!(get_flag_path("US"), "/static/flags/us.svg");
}

#[test]
fn test_flag_path() {
    let path = get_flag_path("US");
    assert_eq!(path, "/static/flags/us.svg");
}

#[test]
fn test_flag_path_mixed_case() {
    assert_eq!(get_flag_path("Gb"), "/static/flags/gb.svg");
}

#[test]
fn test_country_metadata_us() {
    let meta = get_country_metadata(Some("US")).unwrap();
    assert_eq!(meta.name, "United States");
    assert_eq!(meta.currency_code, "USD");
}

#[test]
fn handlers_test_get_languages_us() {
    let langs = get_languages(Some("US"));
    assert_eq!(langs, "en-US,en");
}

#[test]
fn handlers_test_get_languages_unknown() {
    let langs = get_languages(Some("XX"));
    assert_eq!(langs, "");
}

#[test]
fn languages_test_get_languages_us() {
    assert_eq!(get_languages(Some("US")), "en-US,en");
    assert_eq!(get_languages(Some("us")), "en-US,en");
}

#[test]
fn test_get_languages_sweden() {
    assert_eq!(get_languages(Some("SE")), "sv-SE,sv");
}

#[test]
fn languages_test_get_languages_unknown() {
    assert_eq!(get_languages(Some("XX")), "");
}

#[test]
fn test_get_languages_none() {
    assert_eq!(get_languages(None), "");
}

#[test]
fn test_get_languages_long_code() {
    assert_eq!(get_languages(Some("USA")), "");
    assert_eq!(get_languages(Some("U")), "");
    assert_eq!(get_languages(Some("")), "");
}
