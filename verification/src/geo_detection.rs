//! Geographic detection: how a country code or the fastest CDN maps to a
//! region, and when a cached detection is still fresh.
//!
//! The lookups themselves (an IP geolocation API, latency tests) are I/O,
//! done by the application, and confidences are floating point.
use vstd::prelude::*;
use crate::config::{Region, RegionView};
use crate::text::{contains_string, owned, str_eq};

verus! {

/// Detection method used
#[derive(Debug, Clone, Copy, PartialEq, Eq, Structural)]
pub enum DetectionMethod {
    IpApi,
    NetworkTest,
    Fallback,
    Manual,
}

/// Country codes of North America.
pub open spec fn north_america_codes() -> Seq<Seq<char>> {
    seq!["US"@, "CA"@, "MX"@]
}

/// Country codes of Europe.
pub open spec fn europe_codes() -> Seq<Seq<char>> {
    seq![
        "GB"@, "DE"@, "FR"@, "IT"@, "ES"@, "NL"@, "SE"@, "NO"@, "DK"@, "FI"@, "PL"@, "CZ"@, "AT"@,
        "CH"@, "BE"@, "IE"@, "PT"@, "GR"@, "HU"@, "RO"@, "BG"@, "HR"@, "SI"@, "SK"@, "LT"@, "LV"@,
        "EE"@, "LU"@, "MT"@, "CY"@,
    ]
}

/// Country codes of Asia-Pacific.
pub open spec fn asia_pacific_codes() -> Seq<Seq<char>> {
    seq![
        "JP"@, "KR"@, "SG"@, "HK"@, "TW"@, "AU"@, "NZ"@, "IN"@, "TH"@, "MY"@, "ID"@, "PH"@, "VN"@,
        "BD"@, "PK"@, "LK"@, "MM"@, "KH"@, "LA"@, "BN"@,
    ]
}

/// The region of a country code.
pub open spec fn spec_country_to_region(code: Seq<char>) -> RegionView {
    if code == "CN"@ {
        RegionView::China
    } else if north_america_codes().contains(code) {
        RegionView::NorthAmerica
    } else if europe_codes().contains(code) {
        RegionView::Europe
    } else if asia_pacific_codes().contains(code) {
        RegionView::AsiaPacific
    } else {
        RegionView::Global
    }
}

/// The region a CDN that answered fastest points to.
pub open spec fn spec_cdn_to_region(cdn: Seq<char>) -> RegionView {
    if cdn == "github"@ {
        RegionView::NorthAmerica
    } else if cdn == "jsdelivr"@ {
        RegionView::Europe
    } else if cdn == "fastly"@ {
        RegionView::China
    } else {
        RegionView::Global
    }
}

/// A list of strings with the given texts.
fn strings_of(texts: &Vec<&str>) -> (v: Vec<String>)
    ensures
        v@.len() == texts@.len(),
        forall|i: int| 0 <= i < texts@.len() ==> (#[trigger] v@[i])@ == texts@[i]@,
{
    let mut v: Vec<String> = Vec::new();
    let mut i: usize = 0;
    while i < texts.len()
        invariant
            i <= texts@.len(),
            v@.len() == i,
            forall|k: int| 0 <= k < i ==> (#[trigger] v@[k])@ == texts@[k]@,
        decreases texts.len() - i,
    {
        v.push(owned(texts[i]));
        i = i + 1;
    }
    v
}

/// Whether one of `texts` equals `s`.
fn one_of(texts: Vec<&str>, s: &str) -> (r: bool)
    ensures
        r == texts@.map_values(|t: &str| t@).contains(s@),
{
    let list = strings_of(&texts);
    let r = contains_string(&list, s);
    let ghost views = texts@.map_values(|t: &str| t@);
    proof {
        if r {
            let i = choose|i: int| 0 <= i < list@.len() && list@[i]@ == s@;
            assert(views[i] == s@);
        }
        if views.contains(s@) {
            let i = choose|i: int| 0 <= i < views.len() && views[i] == s@;
            assert(list@[i]@ == s@);
        }
    }
    r
}

/// Map a country code to a region.
pub fn country_to_region(country_code: &str) -> (r: Region)
    ensures
        r@ == spec_country_to_region(country_code@),
{
    if str_eq(country_code, "CN") {
        return Region::China;
    }
    let na = vec!["US", "CA", "MX"];
    assert(na@.map_values(|t: &str| t@) =~= north_america_codes());
    if one_of(na, country_code) {
        return Region::NorthAmerica;
    }
    let eu = vec![
        "GB", "DE", "FR", "IT", "ES", "NL", "SE", "NO", "DK", "FI", "PL", "CZ", "AT", "CH", "BE",
        "IE", "PT", "GR", "HU", "RO", "BG", "HR", "SI", "SK", "LT", "LV", "EE", "LU", "MT", "CY",
    ];
    assert(eu@.map_values(|t: &str| t@) =~= europe_codes());
    if one_of(eu, country_code) {
        return Region::Europe;
    }
    let ap = vec![
        "JP", "KR", "SG", "HK", "TW", "AU", "NZ", "IN", "TH", "MY", "ID", "PH", "VN", "BD", "PK",
        "LK", "MM", "KH", "LA", "BN",
    ];
    assert(ap@.map_values(|t: &str| t@) =~= asia_pacific_codes());
    if one_of(ap, country_code) {
        return Region::AsiaPacific;
    }
    Region::Global
}

/// Map the fastest CDN's name to a region.
pub fn cdn_to_region(cdn: &str) -> (r: Region)
    ensures
        r@ == spec_cdn_to_region(cdn@),
{
    if str_eq(cdn, "github") {
        Region::NorthAmerica
    } else if str_eq(cdn, "jsdelivr") {
        Region::Europe
    } else if str_eq(cdn, "fastly") {
        Region::China
    } else {
        Region::Global
    }
}

/// Whether a detection made at `detected_at` is still fresh at `now`, for a
/// cache that keeps results `ttl_secs` seconds (times in milliseconds since
/// the Unix epoch). A detection dated after `now` is not fresh.
pub fn detection_is_fresh(detected_at: i64, now: i64, ttl_secs: u64) -> (r: bool)
    ensures
        r == (detected_at <= now && (now - detected_at) < ttl_secs * 1000),
{
    if now < detected_at {
        return false;
    }
    let age = (now as i128) - (detected_at as i128);
    age < (ttl_secs as i128) * 1000
}

/// Every North American country code maps to North America.
pub proof fn lemma_north_america_codes(code: Seq<char>)
    requires
        north_america_codes().contains(code),
    ensures
        spec_country_to_region(code) == RegionView::NorthAmerica,
{
    reveal_strlit("US");
    reveal_strlit("CA");
    reveal_strlit("MX");
    reveal_strlit("CN");
    let i = choose|i: int| 0 <= i < north_america_codes().len() && north_america_codes()[i] == code;
    assert(code != "CN"@) by {
        assert(code[0] != 'C' || code[1] != 'N');
    }
}

/// The codes of `north_america_codes` are exactly those listed there.
proof fn lemma_north_america_members(c: Seq<char>)
    ensures
        north_america_codes().contains(c) ==> c == "US"@ || c == "CA"@ || c == "MX"@,
{
    reveal_strlit("US");
    reveal_strlit("CA");
    reveal_strlit("MX");
    if north_america_codes().contains(c) {
        let i = choose|i: int| 0 <= i < north_america_codes().len() && north_america_codes()[i] == c;
        if i == 0 {
            assert(c == "US"@);
        } else if i == 1 {
            assert(c == "CA"@);
        } else if i == 2 {
            assert(c == "MX"@);
        }
    }
}

/// The codes of `europe_codes` are exactly those listed there.
proof fn lemma_europe_members(c: Seq<char>)
    ensures
        europe_codes().contains(c) ==> c == "GB"@ || c == "DE"@ || c == "FR"@ || c == "IT"@ || c == "ES"@ || c == "NL"@ || c == "SE"@ || c == "NO"@ || c == "DK"@ || c == "FI"@ || c == "PL"@ || c == "CZ"@ || c == "AT"@ || c == "CH"@ || c == "BE"@ || c == "IE"@ || c == "PT"@ || c == "GR"@ || c == "HU"@ || c == "RO"@ || c == "BG"@ || c == "HR"@ || c == "SI"@ || c == "SK"@ || c == "LT"@ || c == "LV"@ || c == "EE"@ || c == "LU"@ || c == "MT"@ || c == "CY"@,
{
    reveal_strlit("GB");
    reveal_strlit("DE");
    reveal_strlit("FR");
    reveal_strlit("IT");
    reveal_strlit("ES");
    reveal_strlit("NL");
    reveal_strlit("SE");
    reveal_strlit("NO");
    reveal_strlit("DK");
    reveal_strlit("FI");
    reveal_strlit("PL");
    reveal_strlit("CZ");
    reveal_strlit("AT");
    reveal_strlit("CH");
    reveal_strlit("BE");
    reveal_strlit("IE");
    reveal_strlit("PT");
    reveal_strlit("GR");
    reveal_strlit("HU");
    reveal_strlit("RO");
    reveal_strlit("BG");
    reveal_strlit("HR");
    reveal_strlit("SI");
    reveal_strlit("SK");
    reveal_strlit("LT");
    reveal_strlit("LV");
    reveal_strlit("EE");
    reveal_strlit("LU");
    reveal_strlit("MT");
    reveal_strlit("CY");
    if europe_codes().contains(c) {
        let i = choose|i: int| 0 <= i < europe_codes().len() && europe_codes()[i] == c;
        if i == 0 {
            assert(c == "GB"@);
        } else if i == 1 {
            assert(c == "DE"@);
        } else if i == 2 {
            assert(c == "FR"@);
        } else if i == 3 {
            assert(c == "IT"@);
        } else if i == 4 {
            assert(c == "ES"@);
        } else if i == 5 {
            assert(c == "NL"@);
        } else if i == 6 {
            assert(c == "SE"@);
        } else if i == 7 {
            assert(c == "NO"@);
        } else if i == 8 {
            assert(c == "DK"@);
        } else if i == 9 {
            assert(c == "FI"@);
        } else if i == 10 {
            assert(c == "PL"@);
        } else if i == 11 {
            assert(c == "CZ"@);
        } else if i == 12 {
            assert(c == "AT"@);
        } else if i == 13 {
            assert(c == "CH"@);
        } else if i == 14 {
            assert(c == "BE"@);
        } else if i == 15 {
            assert(c == "IE"@);
        } else if i == 16 {
            assert(c == "PT"@);
        } else if i == 17 {
            assert(c == "GR"@);
        } else if i == 18 {
            assert(c == "HU"@);
        } else if i == 19 {
            assert(c == "RO"@);
        } else if i == 20 {
            assert(c == "BG"@);
        } else if i == 21 {
            assert(c == "HR"@);
        } else if i == 22 {
            assert(c == "SI"@);
        } else if i == 23 {
            assert(c == "SK"@);
        } else if i == 24 {
            assert(c == "LT"@);
        } else if i == 25 {
            assert(c == "LV"@);
        } else if i == 26 {
            assert(c == "EE"@);
        } else if i == 27 {
            assert(c == "LU"@);
        } else if i == 28 {
            assert(c == "MT"@);
        } else if i == 29 {
            assert(c == "CY"@);
        }
    }
}

/// Every code of `europe_codes` maps to Europe.
pub proof fn lemma_europe_codes(code: Seq<char>)
    requires
        europe_codes().contains(code),
    ensures
        spec_country_to_region(code) == RegionView::Europe,
{
    reveal_strlit("GB");
    reveal_strlit("DE");
    reveal_strlit("FR");
    reveal_strlit("IT");
    reveal_strlit("ES");
    reveal_strlit("NL");
    reveal_strlit("SE");
    reveal_strlit("NO");
    reveal_strlit("DK");
    reveal_strlit("FI");
    reveal_strlit("PL");
    reveal_strlit("CZ");
    reveal_strlit("AT");
    reveal_strlit("CH");
    reveal_strlit("BE");
    reveal_strlit("IE");
    reveal_strlit("PT");
    reveal_strlit("GR");
    reveal_strlit("HU");
    reveal_strlit("RO");
    reveal_strlit("BG");
    reveal_strlit("HR");
    reveal_strlit("SI");
    reveal_strlit("SK");
    reveal_strlit("LT");
    reveal_strlit("LV");
    reveal_strlit("EE");
    reveal_strlit("LU");
    reveal_strlit("MT");
    reveal_strlit("CY");
    reveal_strlit("CN");
    reveal_strlit("US");
    reveal_strlit("CA");
    reveal_strlit("MX");
    let i = choose|i: int| 0 <= i < europe_codes().len() && europe_codes()[i] == code;
    if i == 0 {
        assert(code[0] == 'G' && code[1] == 'B');
    } else if i == 1 {
        assert(code[0] == 'D' && code[1] == 'E');
    } else if i == 2 {
        assert(code[0] == 'F' && code[1] == 'R');
    } else if i == 3 {
        assert(code[0] == 'I' && code[1] == 'T');
    } else if i == 4 {
        assert(code[0] == 'E' && code[1] == 'S');
    } else if i == 5 {
        assert(code[0] == 'N' && code[1] == 'L');
    } else if i == 6 {
        assert(code[0] == 'S' && code[1] == 'E');
    } else if i == 7 {
        assert(code[0] == 'N' && code[1] == 'O');
    } else if i == 8 {
        assert(code[0] == 'D' && code[1] == 'K');
    } else if i == 9 {
        assert(code[0] == 'F' && code[1] == 'I');
    } else if i == 10 {
        assert(code[0] == 'P' && code[1] == 'L');
    } else if i == 11 {
        assert(code[0] == 'C' && code[1] == 'Z');
    } else if i == 12 {
        assert(code[0] == 'A' && code[1] == 'T');
    } else if i == 13 {
        assert(code[0] == 'C' && code[1] == 'H');
    } else if i == 14 {
        assert(code[0] == 'B' && code[1] == 'E');
    } else if i == 15 {
        assert(code[0] == 'I' && code[1] == 'E');
    } else if i == 16 {
        assert(code[0] == 'P' && code[1] == 'T');
    } else if i == 17 {
        assert(code[0] == 'G' && code[1] == 'R');
    } else if i == 18 {
        assert(code[0] == 'H' && code[1] == 'U');
    } else if i == 19 {
        assert(code[0] == 'R' && code[1] == 'O');
    } else if i == 20 {
        assert(code[0] == 'B' && code[1] == 'G');
    } else if i == 21 {
        assert(code[0] == 'H' && code[1] == 'R');
    } else if i == 22 {
        assert(code[0] == 'S' && code[1] == 'I');
    } else if i == 23 {
        assert(code[0] == 'S' && code[1] == 'K');
    } else if i == 24 {
        assert(code[0] == 'L' && code[1] == 'T');
    } else if i == 25 {
        assert(code[0] == 'L' && code[1] == 'V');
    } else if i == 26 {
        assert(code[0] == 'E' && code[1] == 'E');
    } else if i == 27 {
        assert(code[0] == 'L' && code[1] == 'U');
    } else if i == 28 {
        assert(code[0] == 'M' && code[1] == 'T');
    } else if i == 29 {
        assert(code[0] == 'C' && code[1] == 'Y');
    }
    assert(code != "CN"@) by { assert("CN"@[0] != code[0] || "CN"@[1] != code[1]); }
    assert(code != "US"@) by { assert("US"@[0] != code[0] || "US"@[1] != code[1]); }
    assert(code != "CA"@) by { assert("CA"@[0] != code[0] || "CA"@[1] != code[1]); }
    assert(code != "MX"@) by { assert("MX"@[0] != code[0] || "MX"@[1] != code[1]); }
    lemma_north_america_members(code);
}

/// Every code of `asia_pacific_codes` maps to AsiaPacific.
pub proof fn lemma_asia_pacific_codes(code: Seq<char>)
    requires
        asia_pacific_codes().contains(code),
    ensures
        spec_country_to_region(code) == RegionView::AsiaPacific,
{
    reveal_strlit("JP");
    reveal_strlit("KR");
    reveal_strlit("SG");
    reveal_strlit("HK");
    reveal_strlit("TW");
    reveal_strlit("AU");
    reveal_strlit("NZ");
    reveal_strlit("IN");
    reveal_strlit("TH");
    reveal_strlit("MY");
    reveal_strlit("ID");
    reveal_strlit("PH");
    reveal_strlit("VN");
    reveal_strlit("BD");
    reveal_strlit("PK");
    reveal_strlit("LK");
    reveal_strlit("MM");
    reveal_strlit("KH");
    reveal_strlit("LA");
    reveal_strlit("BN");
    reveal_strlit("CN");
    reveal_strlit("US");
    reveal_strlit("CA");
    reveal_strlit("MX");
    reveal_strlit("GB");
    reveal_strlit("DE");
    reveal_strlit("FR");
    reveal_strlit("IT");
    reveal_strlit("ES");
    reveal_strlit("NL");
    reveal_strlit("SE");
    reveal_strlit("NO");
    reveal_strlit("DK");
    reveal_strlit("FI");
    reveal_strlit("PL");
    reveal_strlit("CZ");
    reveal_strlit("AT");
    reveal_strlit("CH");
    reveal_strlit("BE");
    reveal_strlit("IE");
    reveal_strlit("PT");
    reveal_strlit("GR");
    reveal_strlit("HU");
    reveal_strlit("RO");
    reveal_strlit("BG");
    reveal_strlit("HR");
    reveal_strlit("SI");
    reveal_strlit("SK");
    reveal_strlit("LT");
    reveal_strlit("LV");
    reveal_strlit("EE");
    reveal_strlit("LU");
    reveal_strlit("MT");
    reveal_strlit("CY");
    let i = choose|i: int| 0 <= i < asia_pacific_codes().len() && asia_pacific_codes()[i] == code;
    if i == 0 {
        assert(code[0] == 'J' && code[1] == 'P');
    } else if i == 1 {
        assert(code[0] == 'K' && code[1] == 'R');
    } else if i == 2 {
        assert(code[0] == 'S' && code[1] == 'G');
    } else if i == 3 {
        assert(code[0] == 'H' && code[1] == 'K');
    } else if i == 4 {
        assert(code[0] == 'T' && code[1] == 'W');
    } else if i == 5 {
        assert(code[0] == 'A' && code[1] == 'U');
    } else if i == 6 {
        assert(code[0] == 'N' && code[1] == 'Z');
    } else if i == 7 {
        assert(code[0] == 'I' && code[1] == 'N');
    } else if i == 8 {
        assert(code[0] == 'T' && code[1] == 'H');
    } else if i == 9 {
        assert(code[0] == 'M' && code[1] == 'Y');
    } else if i == 10 {
        assert(code[0] == 'I' && code[1] == 'D');
    } else if i == 11 {
        assert(code[0] == 'P' && code[1] == 'H');
    } else if i == 12 {
        assert(code[0] == 'V' && code[1] == 'N');
    } else if i == 13 {
        assert(code[0] == 'B' && code[1] == 'D');
    } else if i == 14 {
        assert(code[0] == 'P' && code[1] == 'K');
    } else if i == 15 {
        assert(code[0] == 'L' && code[1] == 'K');
    } else if i == 16 {
        assert(code[0] == 'M' && code[1] == 'M');
    } else if i == 17 {
        assert(code[0] == 'K' && code[1] == 'H');
    } else if i == 18 {
        assert(code[0] == 'L' && code[1] == 'A');
    } else if i == 19 {
        assert(code[0] == 'B' && code[1] == 'N');
    }
    assert(code != "CN"@) by { assert("CN"@[0] != code[0] || "CN"@[1] != code[1]); }
    assert(code != "US"@) by { assert("US"@[0] != code[0] || "US"@[1] != code[1]); }
    assert(code != "CA"@) by { assert("CA"@[0] != code[0] || "CA"@[1] != code[1]); }
    assert(code != "MX"@) by { assert("MX"@[0] != code[0] || "MX"@[1] != code[1]); }
    assert(code != "GB"@) by { assert("GB"@[0] != code[0] || "GB"@[1] != code[1]); }
    assert(code != "DE"@) by { assert("DE"@[0] != code[0] || "DE"@[1] != code[1]); }
    assert(code != "FR"@) by { assert("FR"@[0] != code[0] || "FR"@[1] != code[1]); }
    assert(code != "IT"@) by { assert("IT"@[0] != code[0] || "IT"@[1] != code[1]); }
    assert(code != "ES"@) by { assert("ES"@[0] != code[0] || "ES"@[1] != code[1]); }
    assert(code != "NL"@) by { assert("NL"@[0] != code[0] || "NL"@[1] != code[1]); }
    assert(code != "SE"@) by { assert("SE"@[0] != code[0] || "SE"@[1] != code[1]); }
    assert(code != "NO"@) by { assert("NO"@[0] != code[0] || "NO"@[1] != code[1]); }
    assert(code != "DK"@) by { assert("DK"@[0] != code[0] || "DK"@[1] != code[1]); }
    assert(code != "FI"@) by { assert("FI"@[0] != code[0] || "FI"@[1] != code[1]); }
    assert(code != "PL"@) by { assert("PL"@[0] != code[0] || "PL"@[1] != code[1]); }
    assert(code != "CZ"@) by { assert("CZ"@[0] != code[0] || "CZ"@[1] != code[1]); }
    assert(code != "AT"@) by { assert("AT"@[0] != code[0] || "AT"@[1] != code[1]); }
    assert(code != "CH"@) by { assert("CH"@[0] != code[0] || "CH"@[1] != code[1]); }
    assert(code != "BE"@) by { assert("BE"@[0] != code[0] || "BE"@[1] != code[1]); }
    assert(code != "IE"@) by { assert("IE"@[0] != code[0] || "IE"@[1] != code[1]); }
    assert(code != "PT"@) by { assert("PT"@[0] != code[0] || "PT"@[1] != code[1]); }
    assert(code != "GR"@) by { assert("GR"@[0] != code[0] || "GR"@[1] != code[1]); }
    assert(code != "HU"@) by { assert("HU"@[0] != code[0] || "HU"@[1] != code[1]); }
    assert(code != "RO"@) by { assert("RO"@[0] != code[0] || "RO"@[1] != code[1]); }
    assert(code != "BG"@) by { assert("BG"@[0] != code[0] || "BG"@[1] != code[1]); }
    assert(code != "HR"@) by { assert("HR"@[0] != code[0] || "HR"@[1] != code[1]); }
    assert(code != "SI"@) by { assert("SI"@[0] != code[0] || "SI"@[1] != code[1]); }
    assert(code != "SK"@) by { assert("SK"@[0] != code[0] || "SK"@[1] != code[1]); }
    assert(code != "LT"@) by { assert("LT"@[0] != code[0] || "LT"@[1] != code[1]); }
    assert(code != "LV"@) by { assert("LV"@[0] != code[0] || "LV"@[1] != code[1]); }
    assert(code != "EE"@) by { assert("EE"@[0] != code[0] || "EE"@[1] != code[1]); }
    assert(code != "LU"@) by { assert("LU"@[0] != code[0] || "LU"@[1] != code[1]); }
    assert(code != "MT"@) by { assert("MT"@[0] != code[0] || "MT"@[1] != code[1]); }
    assert(code != "CY"@) by { assert("CY"@[0] != code[0] || "CY"@[1] != code[1]); }
    lemma_north_america_members(code);
    lemma_europe_members(code);
}

/// "CN" maps to China, and a code on none of the lists to the global region.
pub proof fn lemma_china_and_unknown_codes(code: Seq<char>)
    ensures
        spec_country_to_region("CN"@) == RegionView::China,
        code != "CN"@ && !north_america_codes().contains(code) && !europe_codes().contains(code)
            && !asia_pacific_codes().contains(code) ==> spec_country_to_region(code) == RegionView::Global,
{
}

} // verus!
