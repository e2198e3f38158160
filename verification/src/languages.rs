//! The static country-to-languages reference table.
//!
//! Keys are ISO 3166-1 alpha-2 codes; values are comma-joined language
//! tags, the primary regional tag first.

use vstd::prelude::*;

use crate::strutil::spec_upper_char;
use crate::strutil::upper_char;

verus! {

/// The table row for an upper-case code pair; empty for unknown codes.
pub open spec fn spec_lang_pair(a: char, b: char) -> Seq<char> {
    match (a, b) {
        ('U', 'S') => "en-US,en"@,
        ('G', 'B') => "en-GB,en"@,
        ('C', 'A') => "en-CA,en,fr-CA,fr"@,
        ('A', 'U') => "en-AU,en"@,
        ('N', 'Z') => "en-NZ,en"@,
        ('I', 'E') => "en-IE,en,ga"@,
        ('D', 'E') => "de-DE,de"@,
        ('A', 'T') => "de-AT,de"@,
        ('C', 'H') => "de-CH,de,fr-CH,fr,it-CH,it"@,
        ('F', 'R') => "fr-FR,fr"@,
        ('B', 'E') => "nl-BE,nl,fr-BE,fr,de-BE,de"@,
        ('N', 'L') => "nl-NL,nl"@,
        ('E', 'S') => "es-ES,es"@,
        ('I', 'T') => "it-IT,it"@,
        ('P', 'T') => "pt-PT,pt"@,
        ('P', 'L') => "pl-PL,pl"@,
        ('S', 'E') => "sv-SE,sv"@,
        ('N', 'O') => "nb-NO,no,nn-NO"@,
        ('D', 'K') => "da-DK,da"@,
        ('F', 'I') => "fi-FI,fi,sv-FI,sv"@,
        ('G', 'R') => "el-GR,el"@,
        ('C', 'Z') => "cs-CZ,cs"@,
        ('S', 'K') => "sk-SK,sk"@,
        ('H', 'U') => "hu-HU,hu"@,
        ('R', 'O') => "ro-RO,ro"@,
        ('B', 'G') => "bg-BG,bg"@,
        ('H', 'R') => "hr-HR,hr"@,
        ('S', 'I') => "sl-SI,sl"@,
        ('R', 'S') => "sr-RS,sr"@,
        ('U', 'A') => "uk-UA,uk"@,
        ('R', 'U') => "ru-RU,ru"@,
        ('B', 'Y') => "be-BY,be,ru-BY,ru"@,
        ('L', 'T') => "lt-LT,lt"@,
        ('L', 'V') => "lv-LV,lv"@,
        ('E', 'E') => "et-EE,et"@,
        ('I', 'S') => "is-IS,is"@,
        ('L', 'U') => "lb-LU,lb,fr-LU,fr,de-LU,de"@,
        ('M', 'T') => "mt-MT,mt,en-MT,en"@,
        ('C', 'Y') => "el-CY,el,tr-CY,tr"@,
        ('A', 'L') => "sq-AL,sq"@,
        ('M', 'K') => "mk-MK,mk"@,
        ('B', 'A') => "bs-BA,bs,hr-BA,hr,sr-BA,sr"@,
        ('M', 'E') => "sr-ME,sr"@,
        ('X', 'K') => "sq-XK,sq,sr-XK,sr"@,
        ('M', 'D') => "ro-MD,ro"@,
        ('C', 'N') => "zh-CN,zh"@,
        ('T', 'W') => "zh-TW,zh"@,
        ('H', 'K') => "zh-HK,zh,en-HK,en"@,
        ('J', 'P') => "ja-JP,ja"@,
        ('K', 'R') => "ko-KR,ko"@,
        ('I', 'N') => "hi-IN,hi,en-IN,en"@,
        ('P', 'K') => "ur-PK,ur,en-PK,en"@,
        ('B', 'D') => "bn-BD,bn"@,
        ('I', 'D') => "id-ID,id"@,
        ('M', 'Y') => "ms-MY,ms,en-MY,en"@,
        ('S', 'G') => "en-SG,en,zh-SG,zh,ms-SG,ms,ta-SG,ta"@,
        ('T', 'H') => "th-TH,th"@,
        ('V', 'N') => "vi-VN,vi"@,
        ('P', 'H') => "tl-PH,tl,en-PH,en"@,
        ('M', 'M') => "my-MM,my"@,
        ('K', 'H') => "km-KH,km"@,
        ('L', 'A') => "lo-LA,lo"@,
        ('N', 'P') => "ne-NP,ne"@,
        ('L', 'K') => "si-LK,si,ta-LK,ta"@,
        ('M', 'N') => "mn-MN,mn"@,
        ('K', 'Z') => "kk-KZ,kk,ru-KZ,ru"@,
        ('U', 'Z') => "uz-UZ,uz,ru-UZ,ru"@,
        ('T', 'M') => "tk-TM,tk"@,
        ('T', 'J') => "tg-TJ,tg"@,
        ('K', 'G') => "ky-KG,ky,ru-KG,ru"@,
        ('A', 'F') => "ps-AF,ps,fa-AF,fa"@,
        ('T', 'R') => "tr-TR,tr"@,
        ('I', 'R') => "fa-IR,fa"@,
        ('I', 'Q') => "ar-IQ,ar,ku-IQ,ku"@,
        ('S', 'A') => "ar-SA,ar"@,
        ('A', 'E') => "ar-AE,ar,en-AE,en"@,
        ('I', 'L') => "he-IL,he,ar-IL,ar"@,
        ('J', 'O') => "ar-JO,ar"@,
        ('L', 'B') => "ar-LB,ar,fr-LB,fr"@,
        ('S', 'Y') => "ar-SY,ar"@,
        ('K', 'W') => "ar-KW,ar"@,
        ('Q', 'A') => "ar-QA,ar"@,
        ('B', 'H') => "ar-BH,ar"@,
        ('O', 'M') => "ar-OM,ar"@,
        ('Y', 'E') => "ar-YE,ar"@,
        ('E', 'G') => "ar-EG,ar"@,
        ('Z', 'A') => "en-ZA,en,af-ZA,af,zu-ZA,zu"@,
        ('N', 'G') => "en-NG,en"@,
        ('K', 'E') => "sw-KE,sw,en-KE,en"@,
        ('E', 'T') => "am-ET,am"@,
        ('G', 'H') => "en-GH,en"@,
        ('T', 'Z') => "sw-TZ,sw,en-TZ,en"@,
        ('U', 'G') => "en-UG,en,sw-UG,sw"@,
        ('M', 'A') => "ar-MA,ar,fr-MA,fr"@,
        ('D', 'Z') => "ar-DZ,ar,fr-DZ,fr"@,
        ('T', 'N') => "ar-TN,ar,fr-TN,fr"@,
        ('L', 'Y') => "ar-LY,ar"@,
        ('S', 'D') => "ar-SD,ar"@,
        ('S', 'N') => "fr-SN,fr"@,
        ('C', 'I') => "fr-CI,fr"@,
        ('C', 'M') => "fr-CM,fr,en-CM,en"@,
        ('C', 'D') => "fr-CD,fr"@,
        ('A', 'O') => "pt-AO,pt"@,
        ('M', 'Z') => "pt-MZ,pt"@,
        ('Z', 'W') => "en-ZW,en,sn-ZW,sn"@,
        ('Z', 'M') => "en-ZM,en"@,
        ('B', 'W') => "en-BW,en,tn-BW,tn"@,
        ('N', 'A') => "en-NA,en,af-NA,af"@,
        ('M', 'U') => "en-MU,en,fr-MU,fr"@,
        ('M', 'G') => "mg-MG,mg,fr-MG,fr"@,
        ('R', 'W') => "rw-RW,rw,en-RW,en,fr-RW,fr"@,
        ('M', 'X') => "es-MX,es"@,
        ('B', 'R') => "pt-BR,pt"@,
        ('A', 'R') => "es-AR,es"@,
        ('C', 'O') => "es-CO,es"@,
        ('P', 'E') => "es-PE,es"@,
        ('V', 'E') => "es-VE,es"@,
        ('C', 'L') => "es-CL,es"@,
        ('E', 'C') => "es-EC,es"@,
        ('B', 'O') => "es-BO,es"@,
        ('P', 'Y') => "es-PY,es,gn-PY,gn"@,
        ('U', 'Y') => "es-UY,es"@,
        ('G', 'Y') => "en-GY,en"@,
        ('S', 'R') => "nl-SR,nl"@,
        ('C', 'R') => "es-CR,es"@,
        ('P', 'A') => "es-PA,es"@,
        ('N', 'I') => "es-NI,es"@,
        ('H', 'N') => "es-HN,es"@,
        ('S', 'V') => "es-SV,es"@,
        ('G', 'T') => "es-GT,es"@,
        ('B', 'Z') => "en-BZ,en,es-BZ,es"@,
        ('C', 'U') => "es-CU,es"@,
        ('D', 'O') => "es-DO,es"@,
        ('P', 'R') => "es-PR,es,en-PR,en"@,
        ('J', 'M') => "en-JM,en"@,
        ('T', 'T') => "en-TT,en"@,
        ('H', 'T') => "fr-HT,fr,ht-HT,ht"@,
        ('F', 'J') => "en-FJ,en,fj-FJ,fj"@,
        ('P', 'G') => "en-PG,en"@,
        ('N', 'C') => "fr-NC,fr"@,
        ('P', 'F') => "fr-PF,fr"@,
        ('G', 'U') => "en-GU,en,ch-GU,ch"@,
        _ => Seq::<char>::empty(),
    }
}

/// The view of an optional code string.
pub open spec fn opt_str_view(o: Option<&str>) -> Option<Seq<char>> {
    match o {
        Some(s) => Some(s@),
        None => None,
    }
}

/// What `get_languages` returns: the table row for the upper-cased
/// two-character code, and the empty string for any other input.
pub open spec fn spec_languages(code: Option<Seq<char>>) -> Seq<char> {
    match code {
        None => Seq::<char>::empty(),
        Some(s) => if s.len() == 2 {
            spec_lang_pair(spec_upper_char(s[0]), spec_upper_char(s[1]))
        } else {
            Seq::<char>::empty()
        },
    }
}

fn lang_pair(a: char, b: char) -> (r: String)
    ensures
        r@ == spec_lang_pair(a, b),
{
    match (a, b) {
        ('U', 'S') => String::from_str("en-US,en"),
        ('G', 'B') => String::from_str("en-GB,en"),
        ('C', 'A') => String::from_str("en-CA,en,fr-CA,fr"),
        ('A', 'U') => String::from_str("en-AU,en"),
        ('N', 'Z') => String::from_str("en-NZ,en"),
        ('I', 'E') => String::from_str("en-IE,en,ga"),
        ('D', 'E') => String::from_str("de-DE,de"),
        ('A', 'T') => String::from_str("de-AT,de"),
        ('C', 'H') => String::from_str("de-CH,de,fr-CH,fr,it-CH,it"),
        ('F', 'R') => String::from_str("fr-FR,fr"),
        ('B', 'E') => String::from_str("nl-BE,nl,fr-BE,fr,de-BE,de"),
        ('N', 'L') => String::from_str("nl-NL,nl"),
        ('E', 'S') => String::from_str("es-ES,es"),
        ('I', 'T') => String::from_str("it-IT,it"),
        ('P', 'T') => String::from_str("pt-PT,pt"),
        ('P', 'L') => String::from_str("pl-PL,pl"),
        ('S', 'E') => String::from_str("sv-SE,sv"),
        ('N', 'O') => String::from_str("nb-NO,no,nn-NO"),
        ('D', 'K') => String::from_str("da-DK,da"),
        ('F', 'I') => String::from_str("fi-FI,fi,sv-FI,sv"),
        ('G', 'R') => String::from_str("el-GR,el"),
        ('C', 'Z') => String::from_str("cs-CZ,cs"),
        ('S', 'K') => String::from_str("sk-SK,sk"),
        ('H', 'U') => String::from_str("hu-HU,hu"),
        ('R', 'O') => String::from_str("ro-RO,ro"),
        ('B', 'G') => String::from_str("bg-BG,bg"),
        ('H', 'R') => String::from_str("hr-HR,hr"),
        ('S', 'I') => String::from_str("sl-SI,sl"),
        ('R', 'S') => String::from_str("sr-RS,sr"),
        ('U', 'A') => String::from_str("uk-UA,uk"),
        ('R', 'U') => String::from_str("ru-RU,ru"),
        ('B', 'Y') => String::from_str("be-BY,be,ru-BY,ru"),
        ('L', 'T') => String::from_str("lt-LT,lt"),
        ('L', 'V') => String::from_str("lv-LV,lv"),
        ('E', 'E') => String::from_str("et-EE,et"),
        ('I', 'S') => String::from_str("is-IS,is"),
        ('L', 'U') => String::from_str("lb-LU,lb,fr-LU,fr,de-LU,de"),
        ('M', 'T') => String::from_str("mt-MT,mt,en-MT,en"),
        ('C', 'Y') => String::from_str("el-CY,el,tr-CY,tr"),
        ('A', 'L') => String::from_str("sq-AL,sq"),
        ('M', 'K') => String::from_str("mk-MK,mk"),
        ('B', 'A') => String::from_str("bs-BA,bs,hr-BA,hr,sr-BA,sr"),
        ('M', 'E') => String::from_str("sr-ME,sr"),
        ('X', 'K') => String::from_str("sq-XK,sq,sr-XK,sr"),
        ('M', 'D') => String::from_str("ro-MD,ro"),
        ('C', 'N') => String::from_str("zh-CN,zh"),
        ('T', 'W') => String::from_str("zh-TW,zh"),
        ('H', 'K') => String::from_str("zh-HK,zh,en-HK,en"),
        ('J', 'P') => String::from_str("ja-JP,ja"),
        ('K', 'R') => String::from_str("ko-KR,ko"),
        ('I', 'N') => String::from_str("hi-IN,hi,en-IN,en"),
        ('P', 'K') => String::from_str("ur-PK,ur,en-PK,en"),
        ('B', 'D') => String::from_str("bn-BD,bn"),
        ('I', 'D') => String::from_str("id-ID,id"),
        ('M', 'Y') => String::from_str("ms-MY,ms,en-MY,en"),
        ('S', 'G') => String::from_str("en-SG,en,zh-SG,zh,ms-SG,ms,ta-SG,ta"),
        ('T', 'H') => String::from_str("th-TH,th"),
        ('V', 'N') => String::from_str("vi-VN,vi"),
        ('P', 'H') => String::from_str("tl-PH,tl,en-PH,en"),
        ('M', 'M') => String::from_str("my-MM,my"),
        ('K', 'H') => String::from_str("km-KH,km"),
        ('L', 'A') => String::from_str("lo-LA,lo"),
        ('N', 'P') => String::from_str("ne-NP,ne"),
        ('L', 'K') => String::from_str("si-LK,si,ta-LK,ta"),
        ('M', 'N') => String::from_str("mn-MN,mn"),
        ('K', 'Z') => String::from_str("kk-KZ,kk,ru-KZ,ru"),
        ('U', 'Z') => String::from_str("uz-UZ,uz,ru-UZ,ru"),
        ('T', 'M') => String::from_str("tk-TM,tk"),
        ('T', 'J') => String::from_str("tg-TJ,tg"),
        ('K', 'G') => String::from_str("ky-KG,ky,ru-KG,ru"),
        ('A', 'F') => String::from_str("ps-AF,ps,fa-AF,fa"),
        ('T', 'R') => String::from_str("tr-TR,tr"),
        ('I', 'R') => String::from_str("fa-IR,fa"),
        ('I', 'Q') => String::from_str("ar-IQ,ar,ku-IQ,ku"),
        ('S', 'A') => String::from_str("ar-SA,ar"),
        ('A', 'E') => String::from_str("ar-AE,ar,en-AE,en"),
        ('I', 'L') => String::from_str("he-IL,he,ar-IL,ar"),
        ('J', 'O') => String::from_str("ar-JO,ar"),
        ('L', 'B') => String::from_str("ar-LB,ar,fr-LB,fr"),
        ('S', 'Y') => String::from_str("ar-SY,ar"),
        ('K', 'W') => String::from_str("ar-KW,ar"),
        ('Q', 'A') => String::from_str("ar-QA,ar"),
        ('B', 'H') => String::from_str("ar-BH,ar"),
        ('O', 'M') => String::from_str("ar-OM,ar"),
        ('Y', 'E') => String::from_str("ar-YE,ar"),
        ('E', 'G') => String::from_str("ar-EG,ar"),
        ('Z', 'A') => String::from_str("en-ZA,en,af-ZA,af,zu-ZA,zu"),
        ('N', 'G') => String::from_str("en-NG,en"),
        ('K', 'E') => String::from_str("sw-KE,sw,en-KE,en"),
        ('E', 'T') => String::from_str("am-ET,am"),
        ('G', 'H') => String::from_str("en-GH,en"),
        ('T', 'Z') => String::from_str("sw-TZ,sw,en-TZ,en"),
        ('U', 'G') => String::from_str("en-UG,en,sw-UG,sw"),
        ('M', 'A') => String::from_str("ar-MA,ar,fr-MA,fr"),
        ('D', 'Z') => String::from_str("ar-DZ,ar,fr-DZ,fr"),
        ('T', 'N') => String::from_str("ar-TN,ar,fr-TN,fr"),
        ('L', 'Y') => String::from_str("ar-LY,ar"),
        ('S', 'D') => String::from_str("ar-SD,ar"),
        ('S', 'N') => String::from_str("fr-SN,fr"),
        ('C', 'I') => String::from_str("fr-CI,fr"),
        ('C', 'M') => String::from_str("fr-CM,fr,en-CM,en"),
        ('C', 'D') => String::from_str("fr-CD,fr"),
        ('A', 'O') => String::from_str("pt-AO,pt"),
        ('M', 'Z') => String::from_str("pt-MZ,pt"),
        ('Z', 'W') => String::from_str("en-ZW,en,sn-ZW,sn"),
        ('Z', 'M') => String::from_str("en-ZM,en"),
        ('B', 'W') => String::from_str("en-BW,en,tn-BW,tn"),
        ('N', 'A') => String::from_str("en-NA,en,af-NA,af"),
        ('M', 'U') => String::from_str("en-MU,en,fr-MU,fr"),
        ('M', 'G') => String::from_str("mg-MG,mg,fr-MG,fr"),
        ('R', 'W') => String::from_str("rw-RW,rw,en-RW,en,fr-RW,fr"),
        ('M', 'X') => String::from_str("es-MX,es"),
        ('B', 'R') => String::from_str("pt-BR,pt"),
        ('A', 'R') => String::from_str("es-AR,es"),
        ('C', 'O') => String::from_str("es-CO,es"),
        ('P', 'E') => String::from_str("es-PE,es"),
        ('V', 'E') => String::from_str("es-VE,es"),
        ('C', 'L') => String::from_str("es-CL,es"),
        ('E', 'C') => String::from_str("es-EC,es"),
        ('B', 'O') => String::from_str("es-BO,es"),
        ('P', 'Y') => String::from_str("es-PY,es,gn-PY,gn"),
        ('U', 'Y') => String::from_str("es-UY,es"),
        ('G', 'Y') => String::from_str("en-GY,en"),
        ('S', 'R') => String::from_str("nl-SR,nl"),
        ('C', 'R') => String::from_str("es-CR,es"),
        ('P', 'A') => String::from_str("es-PA,es"),
        ('N', 'I') => String::from_str("es-NI,es"),
        ('H', 'N') => String::from_str("es-HN,es"),
        ('S', 'V') => String::from_str("es-SV,es"),
        ('G', 'T') => String::from_str("es-GT,es"),
        ('B', 'Z') => String::from_str("en-BZ,en,es-BZ,es"),
        ('C', 'U') => String::from_str("es-CU,es"),
        ('D', 'O') => String::from_str("es-DO,es"),
        ('P', 'R') => String::from_str("es-PR,es,en-PR,en"),
        ('J', 'M') => String::from_str("en-JM,en"),
        ('T', 'T') => String::from_str("en-TT,en"),
        ('H', 'T') => String::from_str("fr-HT,fr,ht-HT,ht"),
        ('F', 'J') => String::from_str("en-FJ,en,fj-FJ,fj"),
        ('P', 'G') => String::from_str("en-PG,en"),
        ('N', 'C') => String::from_str("fr-NC,fr"),
        ('P', 'F') => String::from_str("fr-PF,fr"),
        ('G', 'U') => String::from_str("en-GU,en,ch-GU,ch"),
        _ => String::new(),
    }
}

/// Languages string for a country code, case-insensitively; the empty
/// string for an unknown or absent code.
pub fn get_languages(country_code: Option<&str>) -> (r: String)
    ensures
        r@ == spec_languages(opt_str_view(country_code)),
{
    match country_code {
        None => String::new(),
        Some(code) => {
            if code.unicode_len() != 2 {
                String::new()
            } else {
                let a = upper_char(code.get_char(0));
                let b = upper_char(code.get_char(1));
                lang_pair(a, b)
            }
        },
    }
}

} // verus!
