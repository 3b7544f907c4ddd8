use countryfetch::{Coordinates, CountryRecord, Currency, LookupResult, Report};

fn sample_record() -> CountryRecord {
    CountryRecord {
        official_name: "French Republic".to_owned(),
        flag: "\u{1F1EB}\u{1F1F7}".to_owned(),
        capitals: vec!["Paris".to_owned()],
        capital_coordinates: Coordinates { lat: "48.87".to_owned(), lng: "2.33".to_owned() },
        region: "Europe".to_owned(),
        subregion: "Western Europe".to_owned(),
        coordinates: Coordinates { lat: "46".to_owned(), lng: "2".to_owned() },
        timezones: vec!["UTC+01:00".to_owned()],
        tld: vec![".fr".to_owned()],
        population: 67391582,
        continents: Some(vec!["Europe".to_owned()]),
        languages: vec![("fra".to_owned(), "French".to_owned())],
        currencies: vec![(
            "EUR".to_owned(),
            Currency { name: "Euro".to_owned(), symbol: "\u{20AC}".to_owned() },
        )],
        borders: Some(vec!["BEL".to_owned(), "DEU".to_owned()]),
        landlocked: false,
        start_of_week: "monday".to_owned(),
        map_link: "https://openstreetmap.org/relation/1403916".to_owned(),
    }
}

fn line_texts(report: &Report) -> Vec<String> {
    match report {
        Report::Failure(line) => vec![line.clone()],
        Report::NoData(line) => vec![line.clone()],
        Report::Country(lines) => lines.iter().map(|l| l.text()).collect(),
    }
}

#[test]
fn all_sixteen_lines() {
    let result = LookupResult::Success(vec![sample_record()]);
    let report = countryfetch::render(&result);
    let texts = line_texts(&report);
    let expected = vec![
        "Country: French Republic \u{1F1EB}\u{1F1F7}",
        "Capital: Paris",
        "Region: Europe",
        "Subregion: Western Europe",
        "LatLng: 46/2",
        "Capital LatLng: 48.87/2.33",
        "Timezones: [\"UTC+01:00\"]",
        "TLD: [\".fr\"]",
        "Population: 67,391,582",
        "Continent: [\"Europe\"]",
        "Languages: [\"French\"]",
        "Currencies: [\"Euro (\u{20AC})\"]",
        "Borders: [\"BEL\", \"DEU\"]",
        "Landlocked: false",
        "Start of the week: monday",
        "OpenStreetMap Link: https://openstreetmap.org/relation/1403916",
    ];
    assert_eq!(texts, expected);
}

#[test]
fn continent_fallback_when_missing() {
    let mut rec = sample_record();
    rec.continents = None;
    let report = countryfetch::render(&LookupResult::Success(vec![rec]));
    let texts = line_texts(&report);
    assert_eq!(texts[9], "Continent: [\"Unknown\"]");
}

#[test]
fn borders_fallback_when_missing() {
    let mut rec = sample_record();
    rec.borders = None;
    let report = countryfetch::render(&LookupResult::Success(vec![rec]));
    let texts = line_texts(&report);
    assert_eq!(texts[12], "Borders: [\"None\"]");
}

#[test]
fn no_candidates_single_notice_line() {
    let report = countryfetch::render(&LookupResult::Success(vec![]));
    assert!(matches!(report, Report::NoData(_)));
    let texts = line_texts(&report);
    assert_eq!(texts, vec!["No data found for the specified country."]);
}

#[test]
fn failure_single_error_line_with_cause() {
    let report = countryfetch::render(&LookupResult::Failure("connection refused".to_owned()));
    assert!(matches!(report, Report::Failure(_)));
    let texts = line_texts(&report);
    assert_eq!(texts.len(), 1);
    assert_eq!(texts[0], "Error fetching data: connection refused");
    assert!(texts[0].contains("connection refused"));
}

#[test]
fn population_thousands_grouping() {
    assert_eq!(countryfetch::text::grouped_decimal_text(67391582), "67,391,582");
    assert_eq!(countryfetch::text::grouped_decimal_text(0), "0");
    assert_eq!(countryfetch::text::grouped_decimal_text(999), "999");
    assert_eq!(countryfetch::text::grouped_decimal_text(1000), "1,000");
    assert_eq!(countryfetch::text::grouped_decimal_text(1234567), "1,234,567");
    assert_eq!(
        countryfetch::text::grouped_decimal_text(u64::MAX),
        "18,446,744,073,709,551,615"
    );
}

#[test]
fn rendering_twice_is_identical() {
    let result = LookupResult::Success(vec![sample_record()]);
    let first = line_texts(&countryfetch::render(&result));
    let second = line_texts(&countryfetch::render(&result));
    assert_eq!(first, second);
}

#[test]
fn empty_capitals_render_as_empty_value() {
    let mut rec = sample_record();
    rec.capitals = vec![];
    let report = countryfetch::render(&LookupResult::Success(vec![rec]));
    let texts = line_texts(&report);
    assert_eq!(texts[1], "Capital: ");
}

#[test]
fn several_capitals_joined() {
    let mut rec = sample_record();
    rec.capitals = vec!["Pretoria".to_owned(), "Cape Town".to_owned()];
    let report = countryfetch::render(&LookupResult::Success(vec![rec]));
    let texts = line_texts(&report);
    assert_eq!(texts[1], "Capital: Pretoria, Cape Town");
}

#[test]
fn first_candidate_wins() {
    let mut second = sample_record();
    second.official_name = "Second Country".to_owned();
    let result = LookupResult::Success(vec![sample_record(), second]);
    let report = countryfetch::render(&result);
    let texts = line_texts(&report);
    assert_eq!(texts[0], "Country: French Republic \u{1F1EB}\u{1F1F7}");
}
