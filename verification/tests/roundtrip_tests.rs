use countryfetch::{Json, LookupResult, Report};

/// Converts a parsed JSON document into the library's own value model, the
/// way the surrounding program does after fetching a response body.
fn to_model(v: &serde_json::Value) -> Json {
    match v {
        serde_json::Value::Null => Json::Null,
        serde_json::Value::Bool(b) => Json::Bool(*b),
        serde_json::Value::Number(n) => match n.as_u64() {
            Some(u) => Json::UInt(u),
            None => Json::Num(format!("{}", n.as_f64().expect("numeric"))),
        },
        serde_json::Value::String(s) => Json::Str(s.clone()),
        serde_json::Value::Array(items) => Json::Arr(items.iter().map(to_model).collect()),
        serde_json::Value::Object(members) => {
            Json::Obj(members.iter().map(|(k, m)| (k.clone(), to_model(m))).collect())
        },
    }
}

const FRAGMENT: &str = "{\"name\":{\"official\":\"France\"},\"flag\":\"\u{1F1EB}\u{1F1F7}\",\
\"capital\":[\"Paris\"],\"capitalInfo\":{\"latlng\":[48.87,2.33]},\"region\":\"Europe\",\
\"subregion\":\"Western Europe\",\"latlng\":[46.0,2.0],\"timezones\":[\"UTC+01:00\"],\
\"tld\":[\".fr\"],\"population\":67391582,\"languages\":{\"fra\":\"French\"},\
\"currencies\":{\"EUR\":{\"name\":\"Euro\",\"symbol\":\"\u{20AC}\"}},\"landlocked\":false,\
\"startOfWeek\":\"monday\",\"maps\":{\"openStreetMaps\":\"https://...\"}}";

#[test]
fn literal_fragment_round_trips_through_rendering() {
    let parsed: serde_json::Value = serde_json::from_str(FRAGMENT).expect("valid JSON");
    let document = Json::Arr(vec![to_model(&parsed)]);
    let result = countryfetch::lookup_from_json(&document);
    let report = countryfetch::render(&result);
    let lines = match report {
        Report::Country(lines) => lines,
        _ => panic!("expected the sixteen-line report"),
    };
    let texts: Vec<String> = lines.iter().map(|l| l.text()).collect();
    assert_eq!(texts[0], "Country: France \u{1F1EB}\u{1F1F7}");
    assert!(texts[11].contains("Euro (\u{20AC})"));
    assert_eq!(texts[9], "Continent: [\"Unknown\"]");
    assert_eq!(texts[12], "Borders: [\"None\"]");
}

#[test]
fn fragment_population_line_is_grouped() {
    let parsed: serde_json::Value = serde_json::from_str(FRAGMENT).expect("valid JSON");
    let document = Json::Arr(vec![to_model(&parsed)]);
    let result = countryfetch::lookup_from_json(&document);
    match countryfetch::render(&result) {
        Report::Country(lines) => {
            assert_eq!(lines[8].text(), "Population: 67,391,582");
            assert_eq!(lines[4].text(), "LatLng: 46/2");
            assert_eq!(lines[5].text(), "Capital LatLng: 48.87/2.33");
        },
        _ => panic!("expected the sixteen-line report"),
    }
}

#[test]
fn syntactically_invalid_body_is_reported_as_failure() {
    // The surrounding program maps a parse error to a failure carrying the
    // parser's message; the reporter turns it into one error line.
    let parse_error = serde_json::from_str::<serde_json::Value>("not json").unwrap_err();
    let result = LookupResult::Failure(parse_error.to_string());
    match countryfetch::render(&result) {
        Report::Failure(line) => assert!(line.starts_with("Error fetching data: ")),
        _ => panic!("expected a failure line"),
    }
}
