use countryfetch::{CountryRecord, Json, LookupResult};

fn s(text: &str) -> Json {
    Json::Str(text.to_owned())
}

fn str_arr(items: &[&str]) -> Json {
    Json::Arr(items.iter().map(|t| s(t)).collect())
}

fn sample_object_entries() -> Vec<(String, Json)> {
    vec![
        ("name".to_owned(), Json::Obj(vec![("official".to_owned(), s("French Republic"))])),
        ("flag".to_owned(), s("\u{1F1EB}\u{1F1F7}")),
        ("capital".to_owned(), str_arr(&["Paris"])),
        (
            "capitalInfo".to_owned(),
            Json::Obj(vec![(
                "latlng".to_owned(),
                Json::Arr(vec![Json::Num("48.87".to_owned()), Json::Num("2.33".to_owned())]),
            )]),
        ),
        ("region".to_owned(), s("Europe")),
        ("subregion".to_owned(), s("Western Europe")),
        ("latlng".to_owned(), Json::Arr(vec![Json::UInt(46), Json::UInt(2)])),
        ("timezones".to_owned(), str_arr(&["UTC+01:00"])),
        ("tld".to_owned(), str_arr(&[".fr"])),
        ("population".to_owned(), Json::UInt(67391582)),
        ("continents".to_owned(), str_arr(&["Europe"])),
        ("languages".to_owned(), Json::Obj(vec![("fra".to_owned(), s("French"))])),
        (
            "currencies".to_owned(),
            Json::Obj(vec![(
                "EUR".to_owned(),
                Json::Obj(vec![
                    ("name".to_owned(), s("Euro")),
                    ("symbol".to_owned(), s("\u{20AC}")),
                ]),
            )]),
        ),
        ("borders".to_owned(), str_arr(&["BEL", "DEU"])),
        ("landlocked".to_owned(), Json::Bool(false)),
        ("startOfWeek".to_owned(), s("monday")),
        ("maps".to_owned(), Json::Obj(vec![(
            "openStreetMaps".to_owned(),
            s("https://openstreetmap.org/relation/1403916"),
        )])),
    ]
}

fn sample_object() -> Json {
    Json::Obj(sample_object_entries())
}

fn without(key: &str) -> Json {
    Json::Obj(sample_object_entries().into_iter().filter(|e| e.0 != key).collect())
}

#[test]
fn member_first_match_wins() {
    let j = Json::Obj(vec![
        ("a".to_owned(), Json::UInt(1)),
        ("a".to_owned(), Json::UInt(2)),
    ]);
    match j.member("a") {
        Some(Json::UInt(u)) => assert_eq!(*u, 1),
        _ => panic!("expected the first binding"),
    }
    assert!(j.member("b").is_none());
}

#[test]
fn full_record_parses() {
    let rec = CountryRecord::from_json(&sample_object()).expect("well-shaped record");
    assert_eq!(rec.official_name, "French Republic");
    assert_eq!(rec.capitals, vec!["Paris".to_owned()]);
    assert_eq!(rec.capital_coordinates.lat, "48.87");
    assert_eq!(rec.capital_coordinates.lng, "2.33");
    assert_eq!(rec.coordinates.lat, "46");
    assert_eq!(rec.population, 67391582);
    assert_eq!(rec.continents, Some(vec!["Europe".to_owned()]));
    assert_eq!(rec.languages, vec![("fra".to_owned(), "French".to_owned())]);
    assert_eq!(rec.currencies.len(), 1);
    assert_eq!(rec.currencies[0].0, "EUR");
    assert_eq!(rec.currencies[0].1.name, "Euro");
    assert_eq!(rec.currencies[0].1.symbol, "\u{20AC}");
    assert_eq!(rec.borders, Some(vec!["BEL".to_owned(), "DEU".to_owned()]));
    assert!(!rec.landlocked);
    assert_eq!(rec.start_of_week, "monday");
}

#[test]
fn optional_fields_absent_parse_as_none() {
    let rec = CountryRecord::from_json(&without("continents")).expect("still well-shaped");
    assert_eq!(rec.continents, None);
    let rec = CountryRecord::from_json(&without("borders")).expect("still well-shaped");
    assert_eq!(rec.borders, None);
}

#[test]
fn missing_required_field_is_rejected() {
    assert!(CountryRecord::from_json(&without("name")).is_none());
    assert!(CountryRecord::from_json(&without("population")).is_none());
    assert!(CountryRecord::from_json(&without("capitalInfo")).is_none());
    assert!(CountryRecord::from_json(&without("maps")).is_none());
}

#[test]
fn wrong_type_is_rejected() {
    let mut entries = sample_object_entries();
    for e in entries.iter_mut() {
        if e.0 == "population" {
            e.1 = s("not a number");
        }
    }
    assert!(CountryRecord::from_json(&Json::Obj(entries)).is_none());

    let mut entries = sample_object_entries();
    for e in entries.iter_mut() {
        if e.0 == "borders" {
            e.1 = Json::Bool(true);
        }
    }
    assert!(CountryRecord::from_json(&Json::Obj(entries)).is_none());
}

#[test]
fn short_coordinate_array_is_rejected() {
    let mut entries = sample_object_entries();
    for e in entries.iter_mut() {
        if e.0 == "latlng" {
            e.1 = Json::Arr(vec![Json::UInt(46)]);
        }
    }
    assert!(CountryRecord::from_json(&Json::Obj(entries)).is_none());
}

#[test]
fn unknown_members_are_ignored() {
    let mut entries = sample_object_entries();
    entries.push(("unexpected".to_owned(), Json::Null));
    assert!(CountryRecord::from_json(&Json::Obj(entries)).is_some());
}

#[test]
fn lookup_of_array_succeeds() {
    let result = countryfetch::lookup_from_json(&Json::Arr(vec![sample_object()]));
    match result {
        LookupResult::Success(records) => assert_eq!(records.len(), 1),
        LookupResult::Failure(_) => panic!("expected a successful lookup"),
    }
}

#[test]
fn lookup_of_empty_array_is_empty_success() {
    let result = countryfetch::lookup_from_json(&Json::Arr(vec![]));
    match result {
        LookupResult::Success(records) => assert!(records.is_empty()),
        LookupResult::Failure(_) => panic!("expected a successful lookup"),
    }
}

#[test]
fn lookup_of_non_array_fails_with_shape_cause() {
    let result = countryfetch::lookup_from_json(&sample_object());
    match result {
        LookupResult::Failure(cause) => {
            assert_eq!(cause, "response does not match the expected country record shape")
        },
        LookupResult::Success(_) => panic!("expected a failure"),
    }
}

#[test]
fn lookup_with_ill_shaped_element_fails() {
    let result = countryfetch::lookup_from_json(&Json::Arr(vec![sample_object(), Json::Null]));
    assert!(matches!(result, LookupResult::Failure(_)));
}
