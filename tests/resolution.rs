use geo_widget::names::{locale_string, sentinel_string};
use geo_widget::city::resolve_place;
use geo_widget::summary::decimal_string;
use geo_widget::{
    get_summary, lookup, lookup_asn, lookup_city, select_locale, Address, AsnRecord, CityEntry,
    CityRecord, LocaleNames, LookupAsnResult, LookupCityResult, PlaceEntry,
};

fn names(entries: &[(&str, &str)]) -> LocaleNames {
    let mut m = LocaleNames::new();
    for (locale, name) in entries {
        m.insert(String::from(*locale), String::from(*name));
    }
    m
}

fn place(code: Option<&str>, entries: &[(&str, &str)]) -> PlaceEntry {
    PlaceEntry {
        code: code.map(String::from),
        names: Some(names(entries)),
    }
}

fn pair(a: &str, b: &str) -> (String, String) {
    (String::from(a), String::from(b))
}

fn dashes() -> (String, String) {
    pair("-", "-")
}

fn mountain_view() -> CityRecord {
    CityRecord {
        city: Some(CityEntry {
            names: Some(names(&[("en", "Mountain View"), ("de", "Mountain View")])),
        }),
        continent: Some(place(Some("NA"), &[("en", "North America")])),
        country: Some(place(Some("US"), &[("en", "United States"), ("fr", "États-Unis")])),
        subdivisions: Some(vec![place(Some("CA"), &[("en", "California")])]),
    }
}

fn google() -> AsnRecord {
    AsnRecord {
        autonomous_system_number: Some(15169),
        autonomous_system_organization: Some(String::from("Google LLC")),
    }
}

#[test]
fn constants_are_sentinel_and_english() {
    assert_eq!(sentinel_string(), "-");
    assert_eq!(locale_string(), "en");
}

#[test]
fn locale_names_get_and_replace() {
    let mut m = names(&[("en", "Munich"), ("de", "München")]);
    assert_eq!(m.get(&String::from("de")), Some(&String::from("München")));
    assert_eq!(m.get(&String::from("fr")), None);
    m.insert(String::from("en"), String::from("Munchen"));
    assert_eq!(m.get(&String::from("en")), Some(&String::from("Munchen")));
}

#[test]
fn locale_fallback_french_only() {
    let m = names(&[("fr", "Paris")]);
    assert_eq!(select_locale(&Some(m), &String::from("en")), "-");
}

#[test]
fn locale_selected_exactly() {
    let m = names(&[("fr", "Paris"), ("en", " Paris ")]);
    assert_eq!(select_locale(&Some(m), &String::from("en")), " Paris ");
}

#[test]
fn locale_absent_map() {
    assert_eq!(select_locale(&None, &String::from("en")), "-");
}

#[test]
fn locale_empty_name_is_kept() {
    let m = names(&[("en", "")]);
    assert_eq!(select_locale(&Some(m), &String::from("en")), "");
}

#[test]
fn asn_not_found_defaults() {
    let r = lookup_asn(None);
    assert_eq!(r.asn, 0);
    assert_eq!(r.asn_organization, "-");
}

#[test]
fn asn_number_without_organization() {
    let r = lookup_asn(Some(AsnRecord {
        autonomous_system_number: Some(3320),
        autonomous_system_organization: None,
    }));
    assert_eq!(r.asn, 3320);
    assert_eq!(r.asn_organization, "-");
}

#[test]
fn asn_organization_without_number() {
    let r = lookup_asn(Some(AsnRecord {
        autonomous_system_number: None,
        autonomous_system_organization: Some(String::from("Level 3")),
    }));
    assert_eq!(r.asn, 0);
    assert_eq!(r.asn_organization, "Level 3");
}

#[test]
fn asn_full_record() {
    let r = lookup_asn(Some(google()));
    assert_eq!(r.asn, 15169);
    assert_eq!(r.asn_organization, "Google LLC");
}

#[test]
fn city_not_found_defaults() {
    let r = lookup_city(None);
    assert_eq!(r.city, "-");
    assert_eq!(r.continent, dashes());
    assert_eq!(r.country, dashes());
    assert_eq!(r.subdivisions, dashes());
}

#[test]
fn city_full_record() {
    let r = lookup_city(Some(mountain_view()));
    assert_eq!(r.city, "Mountain View");
    assert_eq!(r.continent, pair("NA", "North America"));
    assert_eq!(r.country, pair("US", "United States"));
    assert_eq!(r.subdivisions, pair("CA", "California"));
}

#[test]
fn city_country_without_continent() {
    let r = lookup_city(Some(CityRecord {
        city: None,
        continent: None,
        country: Some(place(Some("DE"), &[("en", "Germany")])),
        subdivisions: None,
    }));
    assert_eq!(r.city, "-");
    assert_eq!(r.continent, dashes());
    assert_eq!(r.country, pair("DE", "Germany"));
    assert_eq!(r.subdivisions, dashes());
}

#[test]
fn city_only_first_subdivision() {
    let mut rec = mountain_view();
    rec.subdivisions = Some(vec![
        place(Some("ENG"), &[("en", "England")]),
        place(Some("LND"), &[("en", "London")]),
    ]);
    let r = lookup_city(Some(rec));
    assert_eq!(r.subdivisions, pair("ENG", "England"));
}

#[test]
fn city_empty_subdivisions() {
    let mut rec = mountain_view();
    rec.subdivisions = Some(Vec::new());
    assert_eq!(lookup_city(Some(rec)).subdivisions, dashes());
}

#[test]
fn city_parts_without_names_or_codes() {
    let r = lookup_city(Some(CityRecord {
        city: Some(CityEntry { names: None }),
        continent: Some(PlaceEntry { code: Some(String::from("EU")), names: None }),
        country: Some(place(None, &[("fr", "Allemagne")])),
        subdivisions: None,
    }));
    assert_eq!(r.city, "-");
    assert_eq!(r.continent, pair("EU", "-"));
    assert_eq!(r.country, pair("-", "-"));
}

#[test]
fn place_resolution() {
    assert_eq!(resolve_place(&None), dashes());
    assert_eq!(resolve_place(&Some(place(Some("FR"), &[("en", "France")]))), pair("FR", "France"));
}

#[test]
fn summary_grammar() {
    let asn = LookupAsnResult {
        asn: 15169,
        asn_organization: String::from("Google LLC"),
    };
    let city = LookupCityResult {
        city: String::from("Mountain View"),
        continent: pair("NA", "North America"),
        country: pair("US", "United States"),
        subdivisions: pair("CA", "California"),
    };
    assert_eq!(get_summary(&asn, &city), "Mountain View,CA/US; Google LLC (15169);");
}

#[test]
fn summary_all_defaults() {
    let s = get_summary(&lookup_asn(None), &lookup_city(None));
    assert_eq!(s, "-,-/-; - (0);");
}

#[test]
fn summary_delimiters_not_escaped() {
    let asn = LookupAsnResult {
        asn: 4294967295,
        asn_organization: String::from("A; B (C)"),
    };
    let city = LookupCityResult {
        city: String::from("X,Y"),
        continent: dashes(),
        country: pair("U/S", "-"),
        subdivisions: pair("", "-"),
    };
    assert_eq!(get_summary(&asn, &city), "X,Y,/U/S; A; B (C) (4294967295);");
}

#[test]
fn decimal_notation() {
    assert_eq!(decimal_string(0), "0");
    assert_eq!(decimal_string(7), "7");
    assert_eq!(decimal_string(10), "10");
    assert_eq!(decimal_string(15169), "15169");
    assert_eq!(decimal_string(u64::MAX), "18446744073709551615");
}

#[test]
fn lookup_merges_both_sources() {
    let r = lookup(Address::V4(0x0403_0201), Some(google()), Some(mountain_view()));
    assert_eq!(r.address, Address::V4(0x0403_0201));
    assert_eq!(r.asn, 15169);
    assert_eq!(r.asn_organization, "Google LLC");
    assert_eq!(r.city, "Mountain View");
    assert_eq!(r.continent, pair("NA", "North America"));
    assert_eq!(r.country, pair("US", "United States"));
    assert_eq!(r.subdivisions, pair("CA", "California"));
    assert_eq!(r.summary, "Mountain View,CA/US; Google LLC (15169);");
}

#[test]
fn lookup_asn_failure_keeps_city() {
    let r = lookup(Address::V4(0x0808_0808), None, Some(mountain_view()));
    assert_eq!(r.asn, 0);
    assert_eq!(r.asn_organization, "-");
    assert_eq!(r.city, "Mountain View");
    assert_eq!(r.summary, "Mountain View,CA/US; - (0);");
}

#[test]
fn lookup_city_failure_keeps_asn() {
    let r = lookup(Address::V4(0x0808_0808), Some(google()), None);
    assert_eq!(r.asn, 15169);
    assert_eq!(r.city, "-");
    assert_eq!(r.continent, dashes());
    assert_eq!(r.country, dashes());
    assert_eq!(r.subdivisions, dashes());
    assert_eq!(r.summary, "-,-/-; Google LLC (15169);");
}

#[test]
fn lookup_echoes_address() {
    let v6 = Address::V6(0x2600_0000_0000_0000_0000_0000_0000_0001);
    assert_eq!(lookup(v6, None, None).address, v6);
    let v4 = Address::V4(0x0403_0201);
    assert_eq!(lookup(v4, Some(google()), Some(mountain_view())).address, v4);
}

#[test]
fn lookup_repeated_is_identical() {
    let a = Address::V6(1);
    let first = lookup(a, Some(google()), Some(mountain_view()));
    let second = lookup(a, Some(google()), Some(mountain_view()));
    assert_eq!(first.address, second.address);
    assert_eq!(first.asn, second.asn);
    assert_eq!(first.asn_organization, second.asn_organization);
    assert_eq!(first.city, second.city);
    assert_eq!(first.continent, second.continent);
    assert_eq!(first.country, second.country);
    assert_eq!(first.subdivisions, second.subdivisions);
    assert_eq!(first.summary, second.summary);
}
