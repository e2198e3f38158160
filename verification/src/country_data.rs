//! The static country metadata reference table.
//!
//! Keyed by ISO 3166-1 alpha-2 code.  Unknown codes may fall back to a
//! placeholder record whose alpha-3 code is `UNK`.

use vstd::prelude::*;

use crate::languages::opt_str_view;
use crate::strutil::spec_lower;
use crate::strutil::lower_string;
use crate::strutil::spec_upper_char;
use crate::strutil::upper_char;

verus! {

/// One row of the table.
#[derive(Debug, Clone)]
pub struct CountryMetadata {
    pub name: String,
    pub official_name: String,
    pub iso_code3: String,
    pub capital: String,
    pub continent_code: String,
    pub continent_name: String,
    pub calling_code: String,
    pub tld: String,
    pub currency_code: String,
    pub currency_name: String,
    pub currency_symbol: String,
    pub languages: String,
    pub flag_emoji: String,
    pub is_eu: bool,
}

/// The mathematical image of a row: the same fields as views.
pub struct CountryMetaSpec {
    pub name: Seq<char>,
    pub official_name: Seq<char>,
    pub iso_code3: Seq<char>,
    pub capital: Seq<char>,
    pub continent_code: Seq<char>,
    pub continent_name: Seq<char>,
    pub calling_code: Seq<char>,
    pub tld: Seq<char>,
    pub currency_code: Seq<char>,
    pub currency_name: Seq<char>,
    pub currency_symbol: Seq<char>,
    pub languages: Seq<char>,
    pub flag_emoji: Seq<char>,
    pub is_eu: bool,
}

/// A row carries exactly the fields of its image.
pub open spec fn meta_matches(m: CountryMetadata, s: CountryMetaSpec) -> bool {
    &&& m.name@ == s.name
    &&& m.official_name@ == s.official_name
    &&& m.iso_code3@ == s.iso_code3
    &&& m.capital@ == s.capital
    &&& m.continent_code@ == s.continent_code
    &&& m.continent_name@ == s.continent_name
    &&& m.calling_code@ == s.calling_code
    &&& m.tld@ == s.tld
    &&& m.currency_code@ == s.currency_code
    &&& m.currency_name@ == s.currency_name
    &&& m.currency_symbol@ == s.currency_symbol
    &&& m.languages@ == s.languages
    &&& m.flag_emoji@ == s.flag_emoji
    &&& m.is_eu == s.is_eu
}

/// The table row for an upper-case code pair.
pub open spec fn spec_country_entry(a: char, b: char) -> Option<CountryMetaSpec> {
    match (a, b) {
        ('U', 'S') => Some(CountryMetaSpec {
            name: "United States"@,
            official_name: "United States of America"@,
            iso_code3: "USA"@,
            capital: "Washington, D.C."@,
            continent_code: "NA"@,
            continent_name: "North America"@,
            calling_code: "+1"@,
            tld: ".us"@,
            currency_code: "USD"@,
            currency_name: "US Dollar"@,
            currency_symbol: "$"@,
            languages: "en-US,es-US"@,
            flag_emoji: "ğŸ‡ºğŸ‡¸"@,
            is_eu: false,
        }),
        ('C', 'A') => Some(CountryMetaSpec {
            name: "Canada"@,
            official_name: "Canada"@,
            iso_code3: "CAN"@,
            capital: "Ottawa"@,
            continent_code: "NA"@,
            continent_name: "North America"@,
            calling_code: "+1"@,
            tld: ".ca"@,
            currency_code: "CAD"@,
            currency_name: "Canadian Dollar"@,
            currency_symbol: "$"@,
            languages: "en-CA,fr-CA"@,
            flag_emoji: "ğŸ‡¨ğŸ‡¦"@,
            is_eu: false,
        }),
        ('M', 'X') => Some(CountryMetaSpec {
            name: "Mexico"@,
            official_name: "United Mexican States"@,
            iso_code3: "MEX"@,
            capital: "Mexico City"@,
            continent_code: "NA"@,
            continent_name: "North America"@,
            calling_code: "+52"@,
            tld: ".mx"@,
            currency_code: "MXN"@,
            currency_name: "Mexican Peso"@,
            currency_symbol: "$"@,
            languages: "es-MX"@,
            flag_emoji: "ğŸ‡²ğŸ‡½"@,
            is_eu: false,
        }),
        ('G', 'B') => Some(CountryMetaSpec {
            name: "United Kingdom"@,
            official_name: "United Kingdom of Great Britain and Northern Ireland"@,
            iso_code3: "GBR"@,
            capital: "London"@,
            continent_code: "EU"@,
            continent_name: "Europe"@,
            calling_code: "+44"@,
            tld: ".uk"@,
            currency_code: "GBP"@,
            currency_name: "British Pound"@,
            currency_symbol: "Â£"@,
            languages: "en-GB"@,
            flag_emoji: "ğŸ‡¬ğŸ‡§"@,
            is_eu: false,
        }),
        ('D', 'E') => Some(CountryMetaSpec {
            name: "Germany"@,
            official_name: "Federal Republic of Germany"@,
            iso_code3: "DEU"@,
            capital: "Berlin"@,
            continent_code: "EU"@,
            continent_name: "Europe"@,
            calling_code: "+49"@,
            tld: ".de"@,
            currency_code: "EUR"@,
            currency_name: "Euro"@,
            currency_symbol: "â‚¬"@,
            languages: "de-DE"@,
            flag_emoji: "ğŸ‡©ğŸ‡ª"@,
            is_eu: true,
        }),
        ('F', 'R') => Some(CountryMetaSpec {
            name: "France"@,
            official_name: "French Republic"@,
            iso_code3: "FRA"@,
            capital: "Paris"@,
            continent_code: "EU"@,
            continent_name: "Europe"@,
            calling_code: "+33"@,
            tld: ".fr"@,
            currency_code: "EUR"@,
            currency_name: "Euro"@,
            currency_symbol: "â‚¬"@,
            languages: "fr-FR"@,
            flag_emoji: "ğŸ‡«ğŸ‡·"@,
            is_eu: true,
        }),
        ('I', 'T') => Some(CountryMetaSpec {
            name: "Italy"@,
            official_name: "Italian Republic"@,
            iso_code3: "ITA"@,
            capital: "Rome"@,
            continent_code: "EU"@,
            continent_name: "Europe"@,
            calling_code: "+39"@,
            tld: ".it"@,
            currency_code: "EUR"@,
            currency_name: "Euro"@,
            currency_symbol: "â‚¬"@,
            languages: "it-IT"@,
            flag_emoji: "ğŸ‡®ğŸ‡¹"@,
            is_eu: true,
        }),
        ('E', 'S') => Some(CountryMetaSpec {
            name: "Spain"@,
            official_name: "Kingdom of Spain"@,
            iso_code3: "ESP"@,
            capital: "Madrid"@,
            continent_code: "EU"@,
            continent_name: "Europe"@,
            calling_code: "+34"@,
            tld: ".es"@,
            currency_code: "EUR"@,
            currency_name: "Euro"@,
            currency_symbol: "â‚¬"@,
            languages: "es-ES"@,
            flag_emoji: "ğŸ‡ªğŸ‡¸"@,
            is_eu: true,
        }),
        ('P', 'T') => Some(CountryMetaSpec {
            name: "Portugal"@,
            official_name: "Portuguese Republic"@,
            iso_code3: "PRT"@,
            capital: "Lisbon"@,
            continent_code: "EU"@,
            continent_name: "Europe"@,
            calling_code: "+351"@,
            tld: ".pt"@,
            currency_code: "EUR"@,
            currency_name: "Euro"@,
            currency_symbol: "â‚¬"@,
            languages: "pt-PT"@,
            flag_emoji: "ğŸ‡µğŸ‡¹"@,
            is_eu: true,
        }),
        ('N', 'L') => Some(CountryMetaSpec {
            name: "Netherlands"@,
            official_name: "Kingdom of the Netherlands"@,
            iso_code3: "NLD"@,
            capital: "Amsterdam"@,
            continent_code: "EU"@,
            continent_name: "Europe"@,
            calling_code: "+31"@,
            tld: ".nl"@,
            currency_code: "EUR"@,
            currency_name: "Euro"@,
            currency_symbol: "â‚¬"@,
            languages: "nl-NL"@,
            flag_emoji: "ğŸ‡³ğŸ‡±"@,
            is_eu: true,
        }),
        ('B', 'E') => Some(CountryMetaSpec {
            name: "Belgium"@,
            official_name: "Kingdom of Belgium"@,
            iso_code3: "BEL"@,
            capital: "Brussels"@,
            continent_code: "EU"@,
            continent_name: "Europe"@,
            calling_code: "+32"@,
            tld: ".be"@,
            currency_code: "EUR"@,
            currency_name: "Euro"@,
            currency_symbol: "â‚¬"@,
            languages: "nl-BE,fr-BE,de-BE"@,
            flag_emoji: "ğŸ‡§ğŸ‡ª"@,
            is_eu: true,
        }),
        ('A', 'T') => Some(CountryMetaSpec {
            name: "Austria"@,
            official_name: "Republic of Austria"@,
            iso_code3: "AUT"@,
            capital: "Vienna"@,
            continent_code: "EU"@,
            continent_name: "Europe"@,
            calling_code: "+43"@,
            tld: ".at"@,
            currency_code: "EUR"@,
            currency_name: "Euro"@,
            currency_symbol: "â‚¬"@,
            languages: "de-AT"@,
            flag_emoji: "ğŸ‡¦ğŸ‡¹"@,
            is_eu: true,
        }),
        ('C', 'H') => Some(CountryMetaSpec {
            name: "Switzerland"@,
            official_name: "Swiss Confederation"@,
            iso_code3: "CHE"@,
            capital: "Bern"@,
            continent_code: "EU"@,
            continent_name: "Europe"@,
            calling_code: "+41"@,
            tld: ".ch"@,
            currency_code: "CHF"@,
            currency_name: "Swiss Franc"@,
            currency_symbol: "CHF"@,
            languages: "de-CH,fr-CH,it-CH,rm-CH"@,
            flag_emoji: "ğŸ‡¨ğŸ‡­"@,
            is_eu: false,
        }),
        ('S', 'E') => Some(CountryMetaSpec {
            name: "Sweden"@,
            official_name: "Kingdom of Sweden"@,
            iso_code3: "SWE"@,
            capital: "Stockholm"@,
            continent_code: "EU"@,
            continent_name: "Europe"@,
            calling_code: "+46"@,
            tld: ".se"@,
            currency_code: "SEK"@,
            currency_name: "Swedish Krona"@,
            currency_symbol: "kr"@,
            languages: "sv-SE"@,
            flag_emoji: "ğŸ‡¸ğŸ‡ª"@,
            is_eu: true,
        }),
        ('N', 'O') => Some(CountryMetaSpec {
            name: "Norway"@,
            official_name: "Kingdom of Norway"@,
            iso_code3: "NOR"@,
            capital: "Oslo"@,
            continent_code: "EU"@,
            continent_name: "Europe"@,
            calling_code: "+47"@,
            tld: ".no"@,
            currency_code: "NOK"@,
            currency_name: "Norwegian Krone"@,
            currency_symbol: "kr"@,
            languages: "nb-NO,nn-NO"@,
            flag_emoji: "ğŸ‡³ğŸ‡´"@,
            is_eu: false,
        }),
        ('D', 'K') => Some(CountryMetaSpec {
            name: "Denmark"@,
            official_name: "Kingdom of Denmark"@,
            iso_code3: "DNK"@,
            capital: "Copenhagen"@,
            continent_code: "EU"@,
            continent_name: "Europe"@,
            calling_code: "+45"@,
            tld: ".dk"@,
            currency_code: "DKK"@,
            currency_name: "Danish Krone"@,
            currency_symbol: "kr"@,
            languages: "da-DK"@,
            flag_emoji: "ğŸ‡©ğŸ‡°"@,
            is_eu: true,
        }),
        ('F', 'I') => Some(CountryMetaSpec {
            name: "Finland"@,
            official_name: "Republic of Finland"@,
            iso_code3: "FIN"@,
            capital: "Helsinki"@,
            continent_code: "EU"@,
            continent_name: "Europe"@,
            calling_code: "+358"@,
            tld: ".fi"@,
            currency_code: "EUR"@,
            currency_name: "Euro"@,
            currency_symbol: "â‚¬"@,
            languages: "fi-FI,sv-FI"@,
            flag_emoji: "ğŸ‡«ğŸ‡®"@,
            is_eu: true,
        }),
        ('P', 'L') => Some(CountryMetaSpec {
            name: "Poland"@,
            official_name: "Republic of Poland"@,
            iso_code3: "POL"@,
            capital: "Warsaw"@,
            continent_code: "EU"@,
            continent_name: "Europe"@,
            calling_code: "+48"@,
            tld: ".pl"@,
            currency_code: "PLN"@,
            currency_name: "Polish Zloty"@,
            currency_symbol: "zÅ‚"@,
            languages: "pl-PL"@,
            flag_emoji: "ğŸ‡µğŸ‡±"@,
            is_eu: true,
        }),
        ('C', 'Z') => Some(CountryMetaSpec {
            name: "Czechia"@,
            official_name: "Czech Republic"@,
            iso_code3: "CZE"@,
            capital: "Prague"@,
            continent_code: "EU"@,
            continent_name: "Europe"@,
            calling_code: "+420"@,
            tld: ".cz"@,
            currency_code: "CZK"@,
            currency_name: "Czech Koruna"@,
            currency_symbol: "KÄ"@,
            languages: "cs-CZ"@,
            flag_emoji: "ğŸ‡¨ğŸ‡¿"@,
            is_eu: true,
        }),
        ('G', 'R') => Some(CountryMetaSpec {
            name: "Greece"@,
            official_name: "Hellenic Republic"@,
            iso_code3: "GRC"@,
            capital: "Athens"@,
            continent_code: "EU"@,
            continent_name: "Europe"@,
            calling_code: "+30"@,
            tld: ".gr"@,
            currency_code: "EUR"@,
            currency_name: "Euro"@,
            currency_symbol: "â‚¬"@,
            languages: "el-GR"@,
            flag_emoji: "ğŸ‡¬ğŸ‡·"@,
            is_eu: true,
        }),
        ('I', 'E') => Some(CountryMetaSpec {
            name: "Ireland"@,
            official_name: "Republic of Ireland"@,
            iso_code3: "IRL"@,
            capital: "Dublin"@,
            continent_code: "EU"@,
            continent_name: "Europe"@,
            calling_code: "+353"@,
            tld: ".ie"@,
            currency_code: "EUR"@,
            currency_name: "Euro"@,
            currency_symbol: "â‚¬"@,
            languages: "en-IE,ga-IE"@,
            flag_emoji: "ğŸ‡®ğŸ‡ª"@,
            is_eu: true,
        }),
        ('R', 'U') => Some(CountryMetaSpec {
            name: "Russia"@,
            official_name: "Russian Federation"@,
            iso_code3: "RUS"@,
            capital: "Moscow"@,
            continent_code: "EU"@,
            continent_name: "Europe"@,
            calling_code: "+7"@,
            tld: ".ru"@,
            currency_code: "RUB"@,
            currency_name: "Russian Ruble"@,
            currency_symbol: "â‚½"@,
            languages: "ru-RU"@,
            flag_emoji: "ğŸ‡·ğŸ‡º"@,
            is_eu: false,
        }),
        ('U', 'A') => Some(CountryMetaSpec {
            name: "Ukraine"@,
            official_name: "Ukraine"@,
            iso_code3: "UKR"@,
            capital: "Kyiv"@,
            continent_code: "EU"@,
            continent_name: "Europe"@,
            calling_code: "+380"@,
            tld: ".ua"@,
            currency_code: "UAH"@,
            currency_name: "Ukrainian Hryvnia"@,
            currency_symbol: "â‚´"@,
            languages: "uk-UA"@,
            flag_emoji: "ğŸ‡ºğŸ‡¦"@,
            is_eu: false,
        }),
        ('R', 'O') => Some(CountryMetaSpec {
            name: "Romania"@,
            official_name: "Romania"@,
            iso_code3: "ROU"@,
            capital: "Bucharest"@,
            continent_code: "EU"@,
            continent_name: "Europe"@,
            calling_code: "+40"@,
            tld: ".ro"@,
            currency_code: "RON"@,
            currency_name: "Romanian Leu"@,
            currency_symbol: "lei"@,
            languages: "ro-RO"@,
            flag_emoji: "ğŸ‡·ğŸ‡´"@,
            is_eu: true,
        }),
        ('H', 'U') => Some(CountryMetaSpec {
            name: "Hungary"@,
            official_name: "Hungary"@,
            iso_code3: "HUN"@,
            capital: "Budapest"@,
            continent_code: "EU"@,
            continent_name: "Europe"@,
            calling_code: "+36"@,
            tld: ".hu"@,
            currency_code: "HUF"@,
            currency_name: "Hungarian Forint"@,
            currency_symbol: "Ft"@,
            languages: "hu-HU"@,
            flag_emoji: "ğŸ‡­ğŸ‡º"@,
            is_eu: true,
        }),
        ('J', 'P') => Some(CountryMetaSpec {
            name: "Japan"@,
            official_name: "Japan"@,
            iso_code3: "JPN"@,
            capital: "Tokyo"@,
            continent_code: "AS"@,
            continent_name: "Asia"@,
            calling_code: "+81"@,
            tld: ".jp"@,
            currency_code: "JPY"@,
            currency_name: "Japanese Yen"@,
            currency_symbol: "Â¥"@,
            languages: "ja-JP"@,
            flag_emoji: "ğŸ‡¯ğŸ‡µ"@,
            is_eu: false,
        }),
        ('C', 'N') => Some(CountryMetaSpec {
            name: "China"@,
            official_name: "People's Republic of China"@,
            iso_code3: "CHN"@,
            capital: "Beijing"@,
            continent_code: "AS"@,
            continent_name: "Asia"@,
            calling_code: "+86"@,
            tld: ".cn"@,
            currency_code: "CNY"@,
            currency_name: "Chinese Yuan"@,
            currency_symbol: "Â¥"@,
            languages: "zh-CN"@,
            flag_emoji: "ğŸ‡¨ğŸ‡³"@,
            is_eu: false,
        }),
        ('K', 'R') => Some(CountryMetaSpec {
            name: "South Korea"@,
            official_name: "Republic of Korea"@,
            iso_code3: "KOR"@,
            capital: "Seoul"@,
            continent_code: "AS"@,
            continent_name: "Asia"@,
            calling_code: "+82"@,
            tld: ".kr"@,
            currency_code: "KRW"@,
            currency_name: "South Korean Won"@,
            currency_symbol: "â‚©"@,
            languages: "ko-KR"@,
            flag_emoji: "ğŸ‡°ğŸ‡·"@,
            is_eu: false,
        }),
        ('I', 'N') => Some(CountryMetaSpec {
            name: "India"@,
            official_name: "Republic of India"@,
            iso_code3: "IND"@,
            capital: "New Delhi"@,
            continent_code: "AS"@,
            continent_name: "Asia"@,
            calling_code: "+91"@,
            tld: ".in"@,
            currency_code: "INR"@,
            currency_name: "Indian Rupee"@,
            currency_symbol: "â‚¹"@,
            languages: "hi-IN,en-IN"@,
            flag_emoji: "ğŸ‡®ğŸ‡³"@,
            is_eu: false,
        }),
        ('S', 'G') => Some(CountryMetaSpec {
            name: "Singapore"@,
            official_name: "Republic of Singapore"@,
            iso_code3: "SGP"@,
            capital: "Singapore"@,
            continent_code: "AS"@,
            continent_name: "Asia"@,
            calling_code: "+65"@,
            tld: ".sg"@,
            currency_code: "SGD"@,
            currency_name: "Singapore Dollar"@,
            currency_symbol: "$"@,
            languages: "en-SG,zh-SG,ms-SG,ta-SG"@,
            flag_emoji: "ğŸ‡¸ğŸ‡¬"@,
            is_eu: false,
        }),
        ('H', 'K') => Some(CountryMetaSpec {
            name: "Hong Kong"@,
            official_name: "Hong Kong Special Administrative Region"@,
            iso_code3: "HKG"@,
            capital: "Hong Kong"@,
            continent_code: "AS"@,
            continent_name: "Asia"@,
            calling_code: "+852"@,
            tld: ".hk"@,
            currency_code: "HKD"@,
            currency_name: "Hong Kong Dollar"@,
            currency_symbol: "$"@,
            languages: "zh-HK,en-HK"@,
            flag_emoji: "ğŸ‡­ğŸ‡°"@,
            is_eu: false,
        }),
        ('T', 'W') => Some(CountryMetaSpec {
            name: "Taiwan"@,
            official_name: "Republic of China (Taiwan)"@,
            iso_code3: "TWN"@,
            capital: "Taipei"@,
            continent_code: "AS"@,
            continent_name: "Asia"@,
            calling_code: "+886"@,
            tld: ".tw"@,
            currency_code: "TWD"@,
            currency_name: "New Taiwan Dollar"@,
            currency_symbol: "NT$"@,
            languages: "zh-TW"@,
            flag_emoji: "ğŸ‡¹ğŸ‡¼"@,
            is_eu: false,
        }),
        ('T', 'H') => Some(CountryMetaSpec {
            name: "Thailand"@,
            official_name: "Kingdom of Thailand"@,
            iso_code3: "THA"@,
            capital: "Bangkok"@,
            continent_code: "AS"@,
            continent_name: "Asia"@,
            calling_code: "+66"@,
            tld: ".th"@,
            currency_code: "THB"@,
            currency_name: "Thai Baht"@,
            currency_symbol: "à¸¿"@,
            languages: "th-TH"@,
            flag_emoji: "ğŸ‡¹ğŸ‡­"@,
            is_eu: false,
        }),
        ('V', 'N') => Some(CountryMetaSpec {
            name: "Vietnam"@,
            official_name: "Socialist Republic of Vietnam"@,
            iso_code3: "VNM"@,
            capital: "Hanoi"@,
            continent_code: "AS"@,
            continent_name: "Asia"@,
            calling_code: "+84"@,
            tld: ".vn"@,
            currency_code: "VND"@,
            currency_name: "Vietnamese Dong"@,
            currency_symbol: "â‚«"@,
            languages: "vi-VN"@,
            flag_emoji: "ğŸ‡»ğŸ‡³"@,
            is_eu: false,
        }),
        ('I', 'D') => Some(CountryMetaSpec {
            name: "Indonesia"@,
            official_name: "Republic of Indonesia"@,
            iso_code3: "IDN"@,
            capital: "Jakarta"@,
            continent_code: "AS"@,
            continent_name: "Asia"@,
            calling_code: "+62"@,
            tld: ".id"@,
            currency_code: "IDR"@,
            currency_name: "Indonesian Rupiah"@,
            currency_symbol: "Rp"@,
            languages: "id-ID"@,
            flag_emoji: "ğŸ‡®ğŸ‡©"@,
            is_eu: false,
        }),
        ('M', 'Y') => Some(CountryMetaSpec {
            name: "Malaysia"@,
            official_name: "Malaysia"@,
            iso_code3: "MYS"@,
            capital: "Kuala Lumpur"@,
            continent_code: "AS"@,
            continent_name: "Asia"@,
            calling_code: "+60"@,
            tld: ".my"@,
            currency_code: "MYR"@,
            currency_name: "Malaysian Ringgit"@,
            currency_symbol: "RM"@,
            languages: "ms-MY,en-MY"@,
            flag_emoji: "ğŸ‡²ğŸ‡¾"@,
            is_eu: false,
        }),
        ('P', 'H') => Some(CountryMetaSpec {
            name: "Philippines"@,
            official_name: "Republic of the Philippines"@,
            iso_code3: "PHL"@,
            capital: "Manila"@,
            continent_code: "AS"@,
            continent_name: "Asia"@,
            calling_code: "+63"@,
            tld: ".ph"@,
            currency_code: "PHP"@,
            currency_name: "Philippine Peso"@,
            currency_symbol: "â‚±"@,
            languages: "tl-PH,en-PH"@,
            flag_emoji: "ğŸ‡µğŸ‡­"@,
            is_eu: false,
        }),
        ('A', 'E') => Some(CountryMetaSpec {
            name: "United Arab Emirates"@,
            official_name: "United Arab Emirates"@,
            iso_code3: "ARE"@,
            capital: "Abu Dhabi"@,
            continent_code: "AS"@,
            continent_name: "Asia"@,
            calling_code: "+971"@,
            tld: ".ae"@,
            currency_code: "AED"@,
            currency_name: "UAE Dirham"@,
            currency_symbol: "Ø¯.Ø¥"@,
            languages: "ar-AE,en-AE"@,
            flag_emoji: "ğŸ‡¦ğŸ‡ª"@,
            is_eu: false,
        }),
        ('S', 'A') => Some(CountryMetaSpec {
            name: "Saudi Arabia"@,
            official_name: "Kingdom of Saudi Arabia"@,
            iso_code3: "SAU"@,
            capital: "Riyadh"@,
            continent_code: "AS"@,
            continent_name: "Asia"@,
            calling_code: "+966"@,
            tld: ".sa"@,
            currency_code: "SAR"@,
            currency_name: "Saudi Riyal"@,
            currency_symbol: "ï·¼"@,
            languages: "ar-SA"@,
            flag_emoji: "ğŸ‡¸ğŸ‡¦"@,
            is_eu: false,
        }),
        ('I', 'L') => Some(CountryMetaSpec {
            name: "Israel"@,
            official_name: "State of Israel"@,
            iso_code3: "ISR"@,
            capital: "Jerusalem"@,
            continent_code: "AS"@,
            continent_name: "Asia"@,
            calling_code: "+972"@,
            tld: ".il"@,
            currency_code: "ILS"@,
            currency_name: "Israeli Shekel"@,
            currency_symbol: "â‚ª"@,
            languages: "he-IL,ar-IL"@,
            flag_emoji: "ğŸ‡®ğŸ‡±"@,
            is_eu: false,
        }),
        ('T', 'R') => Some(CountryMetaSpec {
            name: "Turkey"@,
            official_name: "Republic of TÃ¼rkiye"@,
            iso_code3: "TUR"@,
            capital: "Ankara"@,
            continent_code: "AS"@,
            continent_name: "Asia"@,
            calling_code: "+90"@,
            tld: ".tr"@,
            currency_code: "TRY"@,
            currency_name: "Turkish Lira"@,
            currency_symbol: "â‚º"@,
            languages: "tr-TR"@,
            flag_emoji: "ğŸ‡¹ğŸ‡·"@,
            is_eu: false,
        }),
        ('A', 'U') => Some(CountryMetaSpec {
            name: "Australia"@,
            official_name: "Commonwealth of Australia"@,
            iso_code3: "AUS"@,
            capital: "Canberra"@,
            continent_code: "OC"@,
            continent_name: "Oceania"@,
            calling_code: "+61"@,
            tld: ".au"@,
            currency_code: "AUD"@,
            currency_name: "Australian Dollar"@,
            currency_symbol: "$"@,
            languages: "en-AU"@,
            flag_emoji: "ğŸ‡¦ğŸ‡º"@,
            is_eu: false,
        }),
        ('N', 'Z') => Some(CountryMetaSpec {
            name: "New Zealand"@,
            official_name: "New Zealand"@,
            iso_code3: "NZL"@,
            capital: "Wellington"@,
            continent_code: "OC"@,
            continent_name: "Oceania"@,
            calling_code: "+64"@,
            tld: ".nz"@,
            currency_code: "NZD"@,
            currency_name: "New Zealand Dollar"@,
            currency_symbol: "$"@,
            languages: "en-NZ,mi-NZ"@,
            flag_emoji: "ğŸ‡³ğŸ‡¿"@,
            is_eu: false,
        }),
        ('B', 'R') => Some(CountryMetaSpec {
            name: "Brazil"@,
            official_name: "Federative Republic of Brazil"@,
            iso_code3: "BRA"@,
            capital: "BrasÃ­lia"@,
            continent_code: "SA"@,
            continent_name: "South America"@,
            calling_code: "+55"@,
            tld: ".br"@,
            currency_code: "BRL"@,
            currency_name: "Brazilian Real"@,
            currency_symbol: "R$"@,
            languages: "pt-BR"@,
            flag_emoji: "ğŸ‡§ğŸ‡·"@,
            is_eu: false,
        }),
        ('A', 'R') => Some(CountryMetaSpec {
            name: "Argentina"@,
            official_name: "Argentine Republic"@,
            iso_code3: "ARG"@,
            capital: "Buenos Aires"@,
            continent_code: "SA"@,
            continent_name: "South America"@,
            calling_code: "+54"@,
            tld: ".ar"@,
            currency_code: "ARS"@,
            currency_name: "Argentine Peso"@,
            currency_symbol: "$"@,
            languages: "es-AR"@,
            flag_emoji: "ğŸ‡¦ğŸ‡·"@,
            is_eu: false,
        }),
        ('C', 'L') => Some(CountryMetaSpec {
            name: "Chile"@,
            official_name: "Republic of Chile"@,
            iso_code3: "CHL"@,
            capital: "Santiago"@,
            continent_code: "SA"@,
            continent_name: "South America"@,
            calling_code: "+56"@,
            tld: ".cl"@,
            currency_code: "CLP"@,
            currency_name: "Chilean Peso"@,
            currency_symbol: "$"@,
            languages: "es-CL"@,
            flag_emoji: "ğŸ‡¨ğŸ‡±"@,
            is_eu: false,
        }),
        ('C', 'O') => Some(CountryMetaSpec {
            name: "Colombia"@,
            official_name: "Republic of Colombia"@,
            iso_code3: "COL"@,
            capital: "BogotÃ¡"@,
            continent_code: "SA"@,
            continent_name: "South America"@,
            calling_code: "+57"@,
            tld: ".co"@,
            currency_code: "COP"@,
            currency_name: "Colombian Peso"@,
            currency_symbol: "$"@,
            languages: "es-CO"@,
            flag_emoji: "ğŸ‡¨ğŸ‡´"@,
            is_eu: false,
        }),
        ('Z', 'A') => Some(CountryMetaSpec {
            name: "South Africa"@,
            official_name: "Republic of South Africa"@,
            iso_code3: "ZAF"@,
            capital: "Pretoria"@,
            continent_code: "AF"@,
            continent_name: "Africa"@,
            calling_code: "+27"@,
            tld: ".za"@,
            currency_code: "ZAR"@,
            currency_name: "South African Rand"@,
            currency_symbol: "R"@,
            languages: "en-ZA,af-ZA,zu-ZA"@,
            flag_emoji: "ğŸ‡¿ğŸ‡¦"@,
            is_eu: false,
        }),
        ('N', 'G') => Some(CountryMetaSpec {
            name: "Nigeria"@,
            official_name: "Federal Republic of Nigeria"@,
            iso_code3: "NGA"@,
            capital: "Abuja"@,
            continent_code: "AF"@,
            continent_name: "Africa"@,
            calling_code: "+234"@,
            tld: ".ng"@,
            currency_code: "NGN"@,
            currency_name: "Nigerian Naira"@,
            currency_symbol: "â‚¦"@,
            languages: "en-NG"@,
            flag_emoji: "ğŸ‡³ğŸ‡¬"@,
            is_eu: false,
        }),
        ('E', 'G') => Some(CountryMetaSpec {
            name: "Egypt"@,
            official_name: "Arab Republic of Egypt"@,
            iso_code3: "EGY"@,
            capital: "Cairo"@,
            continent_code: "AF"@,
            continent_name: "Africa"@,
            calling_code: "+20"@,
            tld: ".eg"@,
            currency_code: "EGP"@,
            currency_name: "Egyptian Pound"@,
            currency_symbol: "Â£"@,
            languages: "ar-EG"@,
            flag_emoji: "ğŸ‡ªğŸ‡¬"@,
            is_eu: false,
        }),
        ('K', 'E') => Some(CountryMetaSpec {
            name: "Kenya"@,
            official_name: "Republic of Kenya"@,
            iso_code3: "KEN"@,
            capital: "Nairobi"@,
            continent_code: "AF"@,
            continent_name: "Africa"@,
            calling_code: "+254"@,
            tld: ".ke"@,
            currency_code: "KES"@,
            currency_name: "Kenyan Shilling"@,
            currency_symbol: "KSh"@,
            languages: "sw-KE,en-KE"@,
            flag_emoji: "ğŸ‡°ğŸ‡ª"@,
            is_eu: false,
        }),
        _ => None,
    }
}

/// The placeholder image used for codes outside the table.
pub open spec fn spec_unknown_country() -> CountryMetaSpec {
    CountryMetaSpec {
        name: "Unknown"@,
        official_name: "Unknown"@,
        iso_code3: "UNK"@,
        capital: "Unknown"@,
        continent_code: "XX"@,
        continent_name: "Unknown"@,
        calling_code: Seq::<char>::empty(),
        tld: Seq::<char>::empty(),
        currency_code: Seq::<char>::empty(),
        currency_name: Seq::<char>::empty(),
        currency_symbol: Seq::<char>::empty(),
        languages: Seq::<char>::empty(),
        flag_emoji: "\u{1f3f3}\u{fe0f}"@,
        is_eu: false,
    }
}

/// The table row for an optional code string, case-insensitively.
pub open spec fn spec_country_lookup(code: Option<Seq<char>>) -> Option<CountryMetaSpec> {
    match code {
        None => None,
        Some(s) => if s.len() == 2 {
            spec_country_entry(spec_upper_char(s[0]), spec_upper_char(s[1]))
        } else {
            None
        },
    }
}

fn country_entry(a: char, b: char) -> (r: Option<CountryMetadata>)
    ensures
        r is Some <==> spec_country_entry(a, b) is Some,
        r matches Some(m) ==> meta_matches(m, spec_country_entry(a, b).unwrap()),
{
    match (a, b) {
        ('U', 'S') => Some(CountryMetadata {
            name: String::from_str("United States"),
            official_name: String::from_str("United States of America"),
            iso_code3: String::from_str("USA"),
            capital: String::from_str("Washington, D.C."),
            continent_code: String::from_str("NA"),
            continent_name: String::from_str("North America"),
            calling_code: String::from_str("+1"),
            tld: String::from_str(".us"),
            currency_code: String::from_str("USD"),
            currency_name: String::from_str("US Dollar"),
            currency_symbol: String::from_str("$"),
            languages: String::from_str("en-US,es-US"),
            flag_emoji: String::from_str("ğŸ‡ºğŸ‡¸"),
            is_eu: false,
        }),
        ('C', 'A') => Some(CountryMetadata {
            name: String::from_str("Canada"),
            official_name: String::from_str("Canada"),
            iso_code3: String::from_str("CAN"),
            capital: String::from_str("Ottawa"),
            continent_code: String::from_str("NA"),
            continent_name: String::from_str("North America"),
            calling_code: String::from_str("+1"),
            tld: String::from_str(".ca"),
            currency_code: String::from_str("CAD"),
            currency_name: String::from_str("Canadian Dollar"),
            currency_symbol: String::from_str("$"),
            languages: String::from_str("en-CA,fr-CA"),
            flag_emoji: String::from_str("ğŸ‡¨ğŸ‡¦"),
            is_eu: false,
        }),
        ('M', 'X') => Some(CountryMetadata {
            name: String::from_str("Mexico"),
            official_name: String::from_str("United Mexican States"),
            iso_code3: String::from_str("MEX"),
            capital: String::from_str("Mexico City"),
            continent_code: String::from_str("NA"),
            continent_name: String::from_str("North America"),
            calling_code: String::from_str("+52"),
            tld: String::from_str(".mx"),
            currency_code: String::from_str("MXN"),
            currency_name: String::from_str("Mexican Peso"),
            currency_symbol: String::from_str("$"),
            languages: String::from_str("es-MX"),
            flag_emoji: String::from_str("ğŸ‡²ğŸ‡½"),
            is_eu: false,
        }),
        ('G', 'B') => Some(CountryMetadata {
            name: String::from_str("United Kingdom"),
            official_name: String::from_str("United Kingdom of Great Britain and Northern Ireland"),
            iso_code3: String::from_str("GBR"),
            capital: String::from_str("London"),
            continent_code: String::from_str("EU"),
            continent_name: String::from_str("Europe"),
            calling_code: String::from_str("+44"),
            tld: String::from_str(".uk"),
            currency_code: String::from_str("GBP"),
            currency_name: String::from_str("British Pound"),
            currency_symbol: String::from_str("Â£"),
            languages: String::from_str("en-GB"),
            flag_emoji: String::from_str("ğŸ‡¬ğŸ‡§"),
            is_eu: false,
        }),
        ('D', 'E') => Some(CountryMetadata {
            name: String::from_str("Germany"),
            official_name: String::from_str("Federal Republic of Germany"),
            iso_code3: String::from_str("DEU"),
            capital: String::from_str("Berlin"),
            continent_code: String::from_str("EU"),
            continent_name: String::from_str("Europe"),
            calling_code: String::from_str("+49"),
            tld: String::from_str(".de"),
            currency_code: String::from_str("EUR"),
            currency_name: String::from_str("Euro"),
            currency_symbol: String::from_str("â‚¬"),
            languages: String::from_str("de-DE"),
            flag_emoji: String::from_str("ğŸ‡©ğŸ‡ª"),
            is_eu: true,
        }),
        ('F', 'R') => Some(CountryMetadata {
            name: String::from_str("France"),
            official_name: String::from_str("French Republic"),
            iso_code3: String::from_str("FRA"),
            capital: String::from_str("Paris"),
            continent_code: String::from_str("EU"),
            continent_name: String::from_str("Europe"),
            calling_code: String::from_str("+33"),
            tld: String::from_str(".fr"),
            currency_code: String::from_str("EUR"),
            currency_name: String::from_str("Euro"),
            currency_symbol: String::from_str("â‚¬"),
            languages: String::from_str("fr-FR"),
            flag_emoji: String::from_str("ğŸ‡«ğŸ‡·"),
            is_eu: true,
        }),
        ('I', 'T') => Some(CountryMetadata {
            name: String::from_str("Italy"),
            official_name: String::from_str("Italian Republic"),
            iso_code3: String::from_str("ITA"),
            capital: String::from_str("Rome"),
            continent_code: String::from_str("EU"),
            continent_name: String::from_str("Europe"),
            calling_code: String::from_str("+39"),
            tld: String::from_str(".it"),
            currency_code: String::from_str("EUR"),
            currency_name: String::from_str("Euro"),
            currency_symbol: String::from_str("â‚¬"),
            languages: String::from_str("it-IT"),
            flag_emoji: String::from_str("ğŸ‡®ğŸ‡¹"),
            is_eu: true,
        }),
        ('E', 'S') => Some(CountryMetadata {
            name: String::from_str("Spain"),
            official_name: String::from_str("Kingdom of Spain"),
            iso_code3: String::from_str("ESP"),
            capital: String::from_str("Madrid"),
            continent_code: String::from_str("EU"),
            continent_name: String::from_str("Europe"),
            calling_code: String::from_str("+34"),
            tld: String::from_str(".es"),
            currency_code: String::from_str("EUR"),
            currency_name: String::from_str("Euro"),
            currency_symbol: String::from_str("â‚¬"),
            languages: String::from_str("es-ES"),
            flag_emoji: String::from_str("ğŸ‡ªğŸ‡¸"),
            is_eu: true,
        }),
        ('P', 'T') => Some(CountryMetadata {
            name: String::from_str("Portugal"),
            official_name: String::from_str("Portuguese Republic"),
            iso_code3: String::from_str("PRT"),
            capital: String::from_str("Lisbon"),
            continent_code: String::from_str("EU"),
            continent_name: String::from_str("Europe"),
            calling_code: String::from_str("+351"),
            tld: String::from_str(".pt"),
            currency_code: String::from_str("EUR"),
            currency_name: String::from_str("Euro"),
            currency_symbol: String::from_str("â‚¬"),
            languages: String::from_str("pt-PT"),
            flag_emoji: String::from_str("ğŸ‡µğŸ‡¹"),
            is_eu: true,
        }),
        ('N', 'L') => Some(CountryMetadata {
            name: String::from_str("Netherlands"),
            official_name: String::from_str("Kingdom of the Netherlands"),
            iso_code3: String::from_str("NLD"),
            capital: String::from_str("Amsterdam"),
            continent_code: String::from_str("EU"),
            continent_name: String::from_str("Europe"),
            calling_code: String::from_str("+31"),
            tld: String::from_str(".nl"),
            currency_code: String::from_str("EUR"),
            currency_name: String::from_str("Euro"),
            currency_symbol: String::from_str("â‚¬"),
            languages: String::from_str("nl-NL"),
            flag_emoji: String::from_str("ğŸ‡³ğŸ‡±"),
            is_eu: true,
        }),
        ('B', 'E') => Some(CountryMetadata {
            name: String::from_str("Belgium"),
            official_name: String::from_str("Kingdom of Belgium"),
            iso_code3: String::from_str("BEL"),
            capital: String::from_str("Brussels"),
            continent_code: String::from_str("EU"),
            continent_name: String::from_str("Europe"),
            calling_code: String::from_str("+32"),
            tld: String::from_str(".be"),
            currency_code: String::from_str("EUR"),
            currency_name: String::from_str("Euro"),
            currency_symbol: String::from_str("â‚¬"),
            languages: String::from_str("nl-BE,fr-BE,de-BE"),
            flag_emoji: String::from_str("ğŸ‡§ğŸ‡ª"),
            is_eu: true,
        }),
        ('A', 'T') => Some(CountryMetadata {
            name: String::from_str("Austria"),
            official_name: String::from_str("Republic of Austria"),
            iso_code3: String::from_str("AUT"),
            capital: String::from_str("Vienna"),
            continent_code: String::from_str("EU"),
            continent_name: String::from_str("Europe"),
            calling_code: String::from_str("+43"),
            tld: String::from_str(".at"),
            currency_code: String::from_str("EUR"),
            currency_name: String::from_str("Euro"),
            currency_symbol: String::from_str("â‚¬"),
            languages: String::from_str("de-AT"),
            flag_emoji: String::from_str("ğŸ‡¦ğŸ‡¹"),
            is_eu: true,
        }),
        ('C', 'H') => Some(CountryMetadata {
            name: String::from_str("Switzerland"),
            official_name: String::from_str("Swiss Confederation"),
            iso_code3: String::from_str("CHE"),
            capital: String::from_str("Bern"),
            continent_code: String::from_str("EU"),
            continent_name: String::from_str("Europe"),
            calling_code: String::from_str("+41"),
            tld: String::from_str(".ch"),
            currency_code: String::from_str("CHF"),
            currency_name: String::from_str("Swiss Franc"),
            currency_symbol: String::from_str("CHF"),
            languages: String::from_str("de-CH,fr-CH,it-CH,rm-CH"),
            flag_emoji: String::from_str("ğŸ‡¨ğŸ‡­"),
            is_eu: false,
        }),
        ('S', 'E') => Some(CountryMetadata {
            name: String::from_str("Sweden"),
            official_name: String::from_str("Kingdom of Sweden"),
            iso_code3: String::from_str("SWE"),
            capital: String::from_str("Stockholm"),
            continent_code: String::from_str("EU"),
            continent_name: String::from_str("Europe"),
            calling_code: String::from_str("+46"),
            tld: String::from_str(".se"),
            currency_code: String::from_str("SEK"),
            currency_name: String::from_str("Swedish Krona"),
            currency_symbol: String::from_str("kr"),
            languages: String::from_str("sv-SE"),
            flag_emoji: String::from_str("ğŸ‡¸ğŸ‡ª"),
            is_eu: true,
        }),
        ('N', 'O') => Some(CountryMetadata {
            name: String::from_str("Norway"),
            official_name: String::from_str("Kingdom of Norway"),
            iso_code3: String::from_str("NOR"),
            capital: String::from_str("Oslo"),
            continent_code: String::from_str("EU"),
            continent_name: String::from_str("Europe"),
            calling_code: String::from_str("+47"),
            tld: String::from_str(".no"),
            currency_code: String::from_str("NOK"),
            currency_name: String::from_str("Norwegian Krone"),
            currency_symbol: String::from_str("kr"),
            languages: String::from_str("nb-NO,nn-NO"),
            flag_emoji: String::from_str("ğŸ‡³ğŸ‡´"),
            is_eu: false,
        }),
        ('D', 'K') => Some(CountryMetadata {
            name: String::from_str("Denmark"),
            official_name: String::from_str("Kingdom of Denmark"),
            iso_code3: String::from_str("DNK"),
            capital: String::from_str("Copenhagen"),
            continent_code: String::from_str("EU"),
            continent_name: String::from_str("Europe"),
            calling_code: String::from_str("+45"),
            tld: String::from_str(".dk"),
            currency_code: String::from_str("DKK"),
            currency_name: String::from_str("Danish Krone"),
            currency_symbol: String::from_str("kr"),
            languages: String::from_str("da-DK"),
            flag_emoji: String::from_str("ğŸ‡©ğŸ‡°"),
            is_eu: true,
        }),
        ('F', 'I') => Some(CountryMetadata {
            name: String::from_str("Finland"),
            official_name: String::from_str("Republic of Finland"),
            iso_code3: String::from_str("FIN"),
            capital: String::from_str("Helsinki"),
            continent_code: String::from_str("EU"),
            continent_name: String::from_str("Europe"),
            calling_code: String::from_str("+358"),
            tld: String::from_str(".fi"),
            currency_code: String::from_str("EUR"),
            currency_name: String::from_str("Euro"),
            currency_symbol: String::from_str("â‚¬"),
            languages: String::from_str("fi-FI,sv-FI"),
            flag_emoji: String::from_str("ğŸ‡«ğŸ‡®"),
            is_eu: true,
        }),
        ('P', 'L') => Some(CountryMetadata {
            name: String::from_str("Poland"),
            official_name: String::from_str("Republic of Poland"),
            iso_code3: String::from_str("POL"),
            capital: String::from_str("Warsaw"),
            continent_code: String::from_str("EU"),
            continent_name: String::from_str("Europe"),
            calling_code: String::from_str("+48"),
            tld: String::from_str(".pl"),
            currency_code: String::from_str("PLN"),
            currency_name: String::from_str("Polish Zloty"),
            currency_symbol: String::from_str("zÅ‚"),
            languages: String::from_str("pl-PL"),
            flag_emoji: String::from_str("ğŸ‡µğŸ‡±"),
            is_eu: true,
        }),
        ('C', 'Z') => Some(CountryMetadata {
            name: String::from_str("Czechia"),
            official_name: String::from_str("Czech Republic"),
            iso_code3: String::from_str("CZE"),
            capital: String::from_str("Prague"),
            continent_code: String::from_str("EU"),
            continent_name: String::from_str("Europe"),
            calling_code: String::from_str("+420"),
            tld: String::from_str(".cz"),
            currency_code: String::from_str("CZK"),
            currency_name: String::from_str("Czech Koruna"),
            currency_symbol: String::from_str("KÄ"),
            languages: String::from_str("cs-CZ"),
            flag_emoji: String::from_str("ğŸ‡¨ğŸ‡¿"),
            is_eu: true,
        }),
        ('G', 'R') => Some(CountryMetadata {
            name: String::from_str("Greece"),
            official_name: String::from_str("Hellenic Republic"),
            iso_code3: String::from_str("GRC"),
            capital: String::from_str("Athens"),
            continent_code: String::from_str("EU"),
            continent_name: String::from_str("Europe"),
            calling_code: String::from_str("+30"),
            tld: String::from_str(".gr"),
            currency_code: String::from_str("EUR"),
            currency_name: String::from_str("Euro"),
            currency_symbol: String::from_str("â‚¬"),
            languages: String::from_str("el-GR"),
            flag_emoji: String::from_str("ğŸ‡¬ğŸ‡·"),
            is_eu: true,
        }),
        ('I', 'E') => Some(CountryMetadata {
            name: String::from_str("Ireland"),
            official_name: String::from_str("Republic of Ireland"),
            iso_code3: String::from_str("IRL"),
            capital: String::from_str("Dublin"),
            continent_code: String::from_str("EU"),
            continent_name: String::from_str("Europe"),
            calling_code: String::from_str("+353"),
            tld: String::from_str(".ie"),
            currency_code: String::from_str("EUR"),
            currency_name: String::from_str("Euro"),
            currency_symbol: String::from_str("â‚¬"),
            languages: String::from_str("en-IE,ga-IE"),
            flag_emoji: String::from_str("ğŸ‡®ğŸ‡ª"),
            is_eu: true,
        }),
        ('R', 'U') => Some(CountryMetadata {
            name: String::from_str("Russia"),
            official_name: String::from_str("Russian Federation"),
            iso_code3: String::from_str("RUS"),
            capital: String::from_str("Moscow"),
            continent_code: String::from_str("EU"),
            continent_name: String::from_str("Europe"),
            calling_code: String::from_str("+7"),
            tld: String::from_str(".ru"),
            currency_code: String::from_str("RUB"),
            currency_name: String::from_str("Russian Ruble"),
            currency_symbol: String::from_str("â‚½"),
            languages: String::from_str("ru-RU"),
            flag_emoji: String::from_str("ğŸ‡·ğŸ‡º"),
            is_eu: false,
        }),
        ('U', 'A') => Some(CountryMetadata {
            name: String::from_str("Ukraine"),
            official_name: String::from_str("Ukraine"),
            iso_code3: String::from_str("UKR"),
            capital: String::from_str("Kyiv"),
            continent_code: String::from_str("EU"),
            continent_name: String::from_str("Europe"),
            calling_code: String::from_str("+380"),
            tld: String::from_str(".ua"),
            currency_code: String::from_str("UAH"),
            currency_name: String::from_str("Ukrainian Hryvnia"),
            currency_symbol: String::from_str("â‚´"),
            languages: String::from_str("uk-UA"),
            flag_emoji: String::from_str("ğŸ‡ºğŸ‡¦"),
            is_eu: false,
        }),
        ('R', 'O') => Some(CountryMetadata {
            name: String::from_str("Romania"),
            official_name: String::from_str("Romania"),
            iso_code3: String::from_str("ROU"),
            capital: String::from_str("Bucharest"),
            continent_code: String::from_str("EU"),
            continent_name: String::from_str("Europe"),
            calling_code: String::from_str("+40"),
            tld: String::from_str(".ro"),
            currency_code: String::from_str("RON"),
            currency_name: String::from_str("Romanian Leu"),
            currency_symbol: String::from_str("lei"),
            languages: String::from_str("ro-RO"),
            flag_emoji: String::from_str("ğŸ‡·ğŸ‡´"),
            is_eu: true,
        }),
        ('H', 'U') => Some(CountryMetadata {
            name: String::from_str("Hungary"),
            official_name: String::from_str("Hungary"),
            iso_code3: String::from_str("HUN"),
            capital: String::from_str("Budapest"),
            continent_code: String::from_str("EU"),
            continent_name: String::from_str("Europe"),
            calling_code: String::from_str("+36"),
            tld: String::from_str(".hu"),
            currency_code: String::from_str("HUF"),
            currency_name: String::from_str("Hungarian Forint"),
            currency_symbol: String::from_str("Ft"),
            languages: String::from_str("hu-HU"),
            flag_emoji: String::from_str("ğŸ‡­ğŸ‡º"),
            is_eu: true,
        }),
        ('J', 'P') => Some(CountryMetadata {
            name: String::from_str("Japan"),
            official_name: String::from_str("Japan"),
            iso_code3: String::from_str("JPN"),
            capital: String::from_str("Tokyo"),
            continent_code: String::from_str("AS"),
            continent_name: String::from_str("Asia"),
            calling_code: String::from_str("+81"),
            tld: String::from_str(".jp"),
            currency_code: String::from_str("JPY"),
            currency_name: String::from_str("Japanese Yen"),
            currency_symbol: String::from_str("Â¥"),
            languages: String::from_str("ja-JP"),
            flag_emoji: String::from_str("ğŸ‡¯ğŸ‡µ"),
            is_eu: false,
        }),
        ('C', 'N') => Some(CountryMetadata {
            name: String::from_str("China"),
            official_name: String::from_str("People's Republic of China"),
            iso_code3: String::from_str("CHN"),
            capital: String::from_str("Beijing"),
            continent_code: String::from_str("AS"),
            continent_name: String::from_str("Asia"),
            calling_code: String::from_str("+86"),
            tld: String::from_str(".cn"),
            currency_code: String::from_str("CNY"),
            currency_name: String::from_str("Chinese Yuan"),
            currency_symbol: String::from_str("Â¥"),
            languages: String::from_str("zh-CN"),
            flag_emoji: String::from_str("ğŸ‡¨ğŸ‡³"),
            is_eu: false,
        }),
        ('K', 'R') => Some(CountryMetadata {
            name: String::from_str("South Korea"),
            official_name: String::from_str("Republic of Korea"),
            iso_code3: String::from_str("KOR"),
            capital: String::from_str("Seoul"),
            continent_code: String::from_str("AS"),
            continent_name: String::from_str("Asia"),
            calling_code: String::from_str("+82"),
            tld: String::from_str(".kr"),
            currency_code: String::from_str("KRW"),
            currency_name: String::from_str("South Korean Won"),
            currency_symbol: String::from_str("â‚©"),
            languages: String::from_str("ko-KR"),
            flag_emoji: String::from_str("ğŸ‡°ğŸ‡·"),
            is_eu: false,
        }),
        ('I', 'N') => Some(CountryMetadata {
            name: String::from_str("India"),
            official_name: String::from_str("Republic of India"),
            iso_code3: String::from_str("IND"),
            capital: String::from_str("New Delhi"),
            continent_code: String::from_str("AS"),
            continent_name: String::from_str("Asia"),
            calling_code: String::from_str("+91"),
            tld: String::from_str(".in"),
            currency_code: String::from_str("INR"),
            currency_name: String::from_str("Indian Rupee"),
            currency_symbol: String::from_str("â‚¹"),
            languages: String::from_str("hi-IN,en-IN"),
            flag_emoji: String::from_str("ğŸ‡®ğŸ‡³"),
            is_eu: false,
        }),
        ('S', 'G') => Some(CountryMetadata {
            name: String::from_str("Singapore"),
            official_name: String::from_str("Republic of Singapore"),
            iso_code3: String::from_str("SGP"),
            capital: String::from_str("Singapore"),
            continent_code: String::from_str("AS"),
            continent_name: String::from_str("Asia"),
            calling_code: String::from_str("+65"),
            tld: String::from_str(".sg"),
            currency_code: String::from_str("SGD"),
            currency_name: String::from_str("Singapore Dollar"),
            currency_symbol: String::from_str("$"),
            languages: String::from_str("en-SG,zh-SG,ms-SG,ta-SG"),
            flag_emoji: String::from_str("ğŸ‡¸ğŸ‡¬"),
            is_eu: false,
        }),
        ('H', 'K') => Some(CountryMetadata {
            name: String::from_str("Hong Kong"),
            official_name: String::from_str("Hong Kong Special Administrative Region"),
            iso_code3: String::from_str("HKG"),
            capital: String::from_str("Hong Kong"),
            continent_code: String::from_str("AS"),
            continent_name: String::from_str("Asia"),
            calling_code: String::from_str("+852"),
            tld: String::from_str(".hk"),
            currency_code: String::from_str("HKD"),
            currency_name: String::from_str("Hong Kong Dollar"),
            currency_symbol: String::from_str("$"),
            languages: String::from_str("zh-HK,en-HK"),
            flag_emoji: String::from_str("ğŸ‡­ğŸ‡°"),
            is_eu: false,
        }),
        ('T', 'W') => Some(CountryMetadata {
            name: String::from_str("Taiwan"),
            official_name: String::from_str("Republic of China (Taiwan)"),
            iso_code3: String::from_str("TWN"),
            capital: String::from_str("Taipei"),
            continent_code: String::from_str("AS"),
            continent_name: String::from_str("Asia"),
            calling_code: String::from_str("+886"),
            tld: String::from_str(".tw"),
            currency_code: String::from_str("TWD"),
            currency_name: String::from_str("New Taiwan Dollar"),
            currency_symbol: String::from_str("NT$"),
            languages: String::from_str("zh-TW"),
            flag_emoji: String::from_str("ğŸ‡¹ğŸ‡¼"),
            is_eu: false,
        }),
        ('T', 'H') => Some(CountryMetadata {
            name: String::from_str("Thailand"),
            official_name: String::from_str("Kingdom of Thailand"),
            iso_code3: String::from_str("THA"),
            capital: String::from_str("Bangkok"),
            continent_code: String::from_str("AS"),
            continent_name: String::from_str("Asia"),
            calling_code: String::from_str("+66"),
            tld: String::from_str(".th"),
            currency_code: String::from_str("THB"),
            currency_name: String::from_str("Thai Baht"),
            currency_symbol: String::from_str("à¸¿"),
            languages: String::from_str("th-TH"),
            flag_emoji: String::from_str("ğŸ‡¹ğŸ‡­"),
            is_eu: false,
        }),
        ('V', 'N') => Some(CountryMetadata {
            name: String::from_str("Vietnam"),
            official_name: String::from_str("Socialist Republic of Vietnam"),
            iso_code3: String::from_str("VNM"),
            capital: String::from_str("Hanoi"),
            continent_code: String::from_str("AS"),
            continent_name: String::from_str("Asia"),
            calling_code: String::from_str("+84"),
            tld: String::from_str(".vn"),
            currency_code: String::from_str("VND"),
            currency_name: String::from_str("Vietnamese Dong"),
            currency_symbol: String::from_str("â‚«"),
            languages: String::from_str("vi-VN"),
            flag_emoji: String::from_str("ğŸ‡»ğŸ‡³"),
            is_eu: false,
        }),
        ('I', 'D') => Some(CountryMetadata {
            name: String::from_str("Indonesia"),
            official_name: String::from_str("Republic of Indonesia"),
            iso_code3: String::from_str("IDN"),
            capital: String::from_str("Jakarta"),
            continent_code: String::from_str("AS"),
            continent_name: String::from_str("Asia"),
            calling_code: String::from_str("+62"),
            tld: String::from_str(".id"),
            currency_code: String::from_str("IDR"),
            currency_name: String::from_str("Indonesian Rupiah"),
            currency_symbol: String::from_str("Rp"),
            languages: String::from_str("id-ID"),
            flag_emoji: String::from_str("ğŸ‡®ğŸ‡©"),
            is_eu: false,
        }),
        ('M', 'Y') => Some(CountryMetadata {
            name: String::from_str("Malaysia"),
            official_name: String::from_str("Malaysia"),
            iso_code3: String::from_str("MYS"),
            capital: String::from_str("Kuala Lumpur"),
            continent_code: String::from_str("AS"),
            continent_name: String::from_str("Asia"),
            calling_code: String::from_str("+60"),
            tld: String::from_str(".my"),
            currency_code: String::from_str("MYR"),
            currency_name: String::from_str("Malaysian Ringgit"),
            currency_symbol: String::from_str("RM"),
            languages: String::from_str("ms-MY,en-MY"),
            flag_emoji: String::from_str("ğŸ‡²ğŸ‡¾"),
            is_eu: false,
        }),
        ('P', 'H') => Some(CountryMetadata {
            name: String::from_str("Philippines"),
            official_name: String::from_str("Republic of the Philippines"),
            iso_code3: String::from_str("PHL"),
            capital: String::from_str("Manila"),
            continent_code: String::from_str("AS"),
            continent_name: String::from_str("Asia"),
            calling_code: String::from_str("+63"),
            tld: String::from_str(".ph"),
            currency_code: String::from_str("PHP"),
            currency_name: String::from_str("Philippine Peso"),
            currency_symbol: String::from_str("â‚±"),
            languages: String::from_str("tl-PH,en-PH"),
            flag_emoji: String::from_str("ğŸ‡µğŸ‡­"),
            is_eu: false,
        }),
        ('A', 'E') => Some(CountryMetadata {
            name: String::from_str("United Arab Emirates"),
            official_name: String::from_str("United Arab Emirates"),
            iso_code3: String::from_str("ARE"),
            capital: String::from_str("Abu Dhabi"),
            continent_code: String::from_str("AS"),
            continent_name: String::from_str("Asia"),
            calling_code: String::from_str("+971"),
            tld: String::from_str(".ae"),
            currency_code: String::from_str("AED"),
            currency_name: String::from_str("UAE Dirham"),
            currency_symbol: String::from_str("Ø¯.Ø¥"),
            languages: String::from_str("ar-AE,en-AE"),
            flag_emoji: String::from_str("ğŸ‡¦ğŸ‡ª"),
            is_eu: false,
        }),
        ('S', 'A') => Some(CountryMetadata {
            name: String::from_str("Saudi Arabia"),
            official_name: String::from_str("Kingdom of Saudi Arabia"),
            iso_code3: String::from_str("SAU"),
            capital: String::from_str("Riyadh"),
            continent_code: String::from_str("AS"),
            continent_name: String::from_str("Asia"),
            calling_code: String::from_str("+966"),
            tld: String::from_str(".sa"),
            currency_code: String::from_str("SAR"),
            currency_name: String::from_str("Saudi Riyal"),
            currency_symbol: String::from_str("ï·¼"),
            languages: String::from_str("ar-SA"),
            flag_emoji: String::from_str("ğŸ‡¸ğŸ‡¦"),
            is_eu: false,
        }),
        ('I', 'L') => Some(CountryMetadata {
            name: String::from_str("Israel"),
            official_name: String::from_str("State of Israel"),
            iso_code3: String::from_str("ISR"),
            capital: String::from_str("Jerusalem"),
            continent_code: String::from_str("AS"),
            continent_name: String::from_str("Asia"),
            calling_code: String::from_str("+972"),
            tld: String::from_str(".il"),
            currency_code: String::from_str("ILS"),
            currency_name: String::from_str("Israeli Shekel"),
            currency_symbol: String::from_str("â‚ª"),
            languages: String::from_str("he-IL,ar-IL"),
            flag_emoji: String::from_str("ğŸ‡®ğŸ‡±"),
            is_eu: false,
        }),
        ('T', 'R') => Some(CountryMetadata {
            name: String::from_str("Turkey"),
            official_name: String::from_str("Republic of TÃ¼rkiye"),
            iso_code3: String::from_str("TUR"),
            capital: String::from_str("Ankara"),
            continent_code: String::from_str("AS"),
            continent_name: String::from_str("Asia"),
            calling_code: String::from_str("+90"),
            tld: String::from_str(".tr"),
            currency_code: String::from_str("TRY"),
            currency_name: String::from_str("Turkish Lira"),
            currency_symbol: String::from_str("â‚º"),
            languages: String::from_str("tr-TR"),
            flag_emoji: String::from_str("ğŸ‡¹ğŸ‡·"),
            is_eu: false,
        }),
        ('A', 'U') => Some(CountryMetadata {
            name: String::from_str("Australia"),
            official_name: String::from_str("Commonwealth of Australia"),
            iso_code3: String::from_str("AUS"),
            capital: String::from_str("Canberra"),
            continent_code: String::from_str("OC"),
            continent_name: String::from_str("Oceania"),
            calling_code: String::from_str("+61"),
            tld: String::from_str(".au"),
            currency_code: String::from_str("AUD"),
            currency_name: String::from_str("Australian Dollar"),
            currency_symbol: String::from_str("$"),
            languages: String::from_str("en-AU"),
            flag_emoji: String::from_str("ğŸ‡¦ğŸ‡º"),
            is_eu: false,
        }),
        ('N', 'Z') => Some(CountryMetadata {
            name: String::from_str("New Zealand"),
            official_name: String::from_str("New Zealand"),
            iso_code3: String::from_str("NZL"),
            capital: String::from_str("Wellington"),
            continent_code: String::from_str("OC"),
            continent_name: String::from_str("Oceania"),
            calling_code: String::from_str("+64"),
            tld: String::from_str(".nz"),
            currency_code: String::from_str("NZD"),
            currency_name: String::from_str("New Zealand Dollar"),
            currency_symbol: String::from_str("$"),
            languages: String::from_str("en-NZ,mi-NZ"),
            flag_emoji: String::from_str("ğŸ‡³ğŸ‡¿"),
            is_eu: false,
        }),
        ('B', 'R') => Some(CountryMetadata {
            name: String::from_str("Brazil"),
            official_name: String::from_str("Federative Republic of Brazil"),
            iso_code3: String::from_str("BRA"),
            capital: String::from_str("BrasÃ­lia"),
            continent_code: String::from_str("SA"),
            continent_name: String::from_str("South America"),
            calling_code: String::from_str("+55"),
            tld: String::from_str(".br"),
            currency_code: String::from_str("BRL"),
            currency_name: String::from_str("Brazilian Real"),
            currency_symbol: String::from_str("R$"),
            languages: String::from_str("pt-BR"),
            flag_emoji: String::from_str("ğŸ‡§ğŸ‡·"),
            is_eu: false,
        }),
        ('A', 'R') => Some(CountryMetadata {
            name: String::from_str("Argentina"),
            official_name: String::from_str("Argentine Republic"),
            iso_code3: String::from_str("ARG"),
            capital: String::from_str("Buenos Aires"),
            continent_code: String::from_str("SA"),
            continent_name: String::from_str("South America"),
            calling_code: String::from_str("+54"),
            tld: String::from_str(".ar"),
            currency_code: String::from_str("ARS"),
            currency_name: String::from_str("Argentine Peso"),
            currency_symbol: String::from_str("$"),
            languages: String::from_str("es-AR"),
            flag_emoji: String::from_str("ğŸ‡¦ğŸ‡·"),
            is_eu: false,
        }),
        ('C', 'L') => Some(CountryMetadata {
            name: String::from_str("Chile"),
            official_name: String::from_str("Republic of Chile"),
            iso_code3: String::from_str("CHL"),
            capital: String::from_str("Santiago"),
            continent_code: String::from_str("SA"),
            continent_name: String::from_str("South America"),
            calling_code: String::from_str("+56"),
            tld: String::from_str(".cl"),
            currency_code: String::from_str("CLP"),
            currency_name: String::from_str("Chilean Peso"),
            currency_symbol: String::from_str("$"),
            languages: String::from_str("es-CL"),
            flag_emoji: String::from_str("ğŸ‡¨ğŸ‡±"),
            is_eu: false,
        }),
        ('C', 'O') => Some(CountryMetadata {
            name: String::from_str("Colombia"),
            official_name: String::from_str("Republic of Colombia"),
            iso_code3: String::from_str("COL"),
            capital: String::from_str("BogotÃ¡"),
            continent_code: String::from_str("SA"),
            continent_name: String::from_str("South America"),
            calling_code: String::from_str("+57"),
            tld: String::from_str(".co"),
            currency_code: String::from_str("COP"),
            currency_name: String::from_str("Colombian Peso"),
            currency_symbol: String::from_str("$"),
            languages: String::from_str("es-CO"),
            flag_emoji: String::from_str("ğŸ‡¨ğŸ‡´"),
            is_eu: false,
        }),
        ('Z', 'A') => Some(CountryMetadata {
            name: String::from_str("South Africa"),
            official_name: String::from_str("Republic of South Africa"),
            iso_code3: String::from_str("ZAF"),
            capital: String::from_str("Pretoria"),
            continent_code: String::from_str("AF"),
            continent_name: String::from_str("Africa"),
            calling_code: String::from_str("+27"),
            tld: String::from_str(".za"),
            currency_code: String::from_str("ZAR"),
            currency_name: String::from_str("South African Rand"),
            currency_symbol: String::from_str("R"),
            languages: String::from_str("en-ZA,af-ZA,zu-ZA"),
            flag_emoji: String::from_str("ğŸ‡¿ğŸ‡¦"),
            is_eu: false,
        }),
        ('N', 'G') => Some(CountryMetadata {
            name: String::from_str("Nigeria"),
            official_name: String::from_str("Federal Republic of Nigeria"),
            iso_code3: String::from_str("NGA"),
            capital: String::from_str("Abuja"),
            continent_code: String::from_str("AF"),
            continent_name: String::from_str("Africa"),
            calling_code: String::from_str("+234"),
            tld: String::from_str(".ng"),
            currency_code: String::from_str("NGN"),
            currency_name: String::from_str("Nigerian Naira"),
            currency_symbol: String::from_str("â‚¦"),
            languages: String::from_str("en-NG"),
            flag_emoji: String::from_str("ğŸ‡³ğŸ‡¬"),
            is_eu: false,
        }),
        ('E', 'G') => Some(CountryMetadata {
            name: String::from_str("Egypt"),
            official_name: String::from_str("Arab Republic of Egypt"),
            iso_code3: String::from_str("EGY"),
            capital: String::from_str("Cairo"),
            continent_code: String::from_str("AF"),
            continent_name: String::from_str("Africa"),
            calling_code: String::from_str("+20"),
            tld: String::from_str(".eg"),
            currency_code: String::from_str("EGP"),
            currency_name: String::from_str("Egyptian Pound"),
            currency_symbol: String::from_str("Â£"),
            languages: String::from_str("ar-EG"),
            flag_emoji: String::from_str("ğŸ‡ªğŸ‡¬"),
            is_eu: false,
        }),
        ('K', 'E') => Some(CountryMetadata {
            name: String::from_str("Kenya"),
            official_name: String::from_str("Republic of Kenya"),
            iso_code3: String::from_str("KEN"),
            capital: String::from_str("Nairobi"),
            continent_code: String::from_str("AF"),
            continent_name: String::from_str("Africa"),
            calling_code: String::from_str("+254"),
            tld: String::from_str(".ke"),
            currency_code: String::from_str("KES"),
            currency_name: String::from_str("Kenyan Shilling"),
            currency_symbol: String::from_str("KSh"),
            languages: String::from_str("sw-KE,en-KE"),
            flag_emoji: String::from_str("ğŸ‡°ğŸ‡ª"),
            is_eu: false,
        }),
        _ => None,
    }
}

/// Country metadata by alpha-2 code, case-insensitively; `None` for an
/// absent or unknown code.
pub fn get_country_metadata(country_code: Option<&str>) -> (r: Option<CountryMetadata>)
    ensures
        r is Some <==> spec_country_lookup(opt_str_view(country_code)) is Some,
        r matches Some(m) ==> meta_matches(
            m,
            spec_country_lookup(opt_str_view(country_code)).unwrap(),
        ),
{
    match country_code {
        None => None,
        Some(code) => {
            if code.unicode_len() != 2 {
                None
            } else {
                let a = upper_char(code.get_char(0));
                let b = upper_char(code.get_char(1));
                country_entry(a, b)
            }
        },
    }
}

/// What the fallback lookup returns: the table row where the code is
/// known, the placeholder where it is not, and nothing where no code
/// was given at all.
pub open spec fn spec_country_fallback(code: Option<Seq<char>>) -> Option<CountryMetaSpec> {
    match code {
        None => None,
        Some(s) => match spec_country_lookup(code) {
            Some(m) => Some(m),
            None => Some(spec_unknown_country()),
        },
    }
}

fn unknown_country() -> (r: CountryMetadata)
    ensures
        meta_matches(r, spec_unknown_country()),
{
    CountryMetadata {
        name: String::from_str("Unknown"),
        official_name: String::from_str("Unknown"),
        iso_code3: String::from_str("UNK"),
        capital: String::from_str("Unknown"),
        continent_code: String::from_str("XX"),
        continent_name: String::from_str("Unknown"),
        calling_code: String::new(),
        tld: String::new(),
        currency_code: String::new(),
        currency_name: String::new(),
        currency_symbol: String::new(),
        languages: String::new(),
        flag_emoji: String::from_str("\u{1f3f3}\u{fe0f}"),
        is_eu: false,
    }
}

/// Country metadata with a placeholder for unknown codes: any given
/// code yields a record, and only an absent code yields none.
pub fn get_country_metadata_or_fallback(country_code: Option<&str>) -> (r: Option<CountryMetadata>)
    ensures
        r is Some <==> country_code is Some,
        r matches Some(m) ==> meta_matches(
            m,
            spec_country_fallback(opt_str_view(country_code)).unwrap(),
        ),
{
    match country_code {
        None => None,
        Some(code) => {
            match get_country_metadata(Some(code)) {
                Some(m) => Some(m),
                None => Some(unknown_country()),
            }
        },
    }
}

/// The flag asset path for a country code: the lower-cased code under
/// the static flags directory.
pub fn get_flag_path(country_code: &str) -> (r: String)
    ensures
        r@ == "/static/flags/"@ + spec_lower(country_code@) + ".svg"@,
{
    let mut r = String::from_str("/static/flags/");
    let lowered = lower_string(country_code);
    r.append(lowered.as_str());
    r.append(".svg");
    r
}

} // verus!
