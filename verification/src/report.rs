//! The reporter: the deterministic mapping from a lookup outcome to the
//! displayed report.
//!
//! A failure becomes exactly one error line carrying its cause; a success
//! with no candidate becomes exactly one notice line; a success with
//! candidates becomes the fixed ordered sequence of sixteen labeled lines
//! for the first candidate, with fallback placeholders for the two
//! optional fields.

use vstd::prelude::*;
use crate::record::{CountryRecord, CurrencyModel, LookupResult, RecordModel, opt_seq_views};
use crate::text::{count_text, join_with, listed, seq_views};

verus! {

/// One labeled report line.
pub struct Line {
    pub label: String,
    pub value: String,
}

/// The full text of a labeled line.
pub open spec fn line_text(label: Seq<char>, value: Seq<char>) -> Seq<char> {
    label + seq![':', ' '] + value
}

impl Line {
    /// This line as one string, label and value separated by ": ".
    pub fn text(&self) -> (s: String)
        ensures
            s@ == line_text(self.label@, self.value@),
    {
        proof {
            reveal_strlit(": ");
            assert(": "@ =~= seq![':', ' ']);
        }
        let mut s = self.label.clone();
        s.append(": ");
        s.append(self.value.as_str());
        s
    }
}

/// A rendered report: one error line for a failed lookup, one notice line
/// for an empty one, or the sixteen labeled lines for the first candidate.
pub enum Report {
    Failure(String),
    NoData(String),
    Country(Vec<Line>),
}

// ---------------------------------------------------------------------------
// The value of each labeled line, as a spec function of the record model.
// ---------------------------------------------------------------------------

/// Line 1: official name and flag glyph, space-separated.
pub open spec fn country_value(rec: RecordModel) -> Seq<char> {
    rec.official_name + seq![' '] + rec.flag
}

/// Line 2: the capitals joined with ", " (empty when there are none).
pub open spec fn capital_value(rec: RecordModel) -> Seq<char> {
    join_with(rec.capitals, seq![',', ' '])
}

/// Lines 5 and 6: latitude and longitude separated by a slash.
pub open spec fn coords_value(lat: Seq<char>, lng: Seq<char>) -> Seq<char> {
    lat + seq!['/'] + lng
}

/// An optional sequence field, or its single-element fallback when absent.
pub open spec fn or_fallback(opt: Option<Seq<Seq<char>>>, fallback: Seq<char>) -> Seq<
    Seq<char>,
> {
    match opt {
        Some(items) => items,
        None => seq![fallback],
    }
}

/// Line 12's entries: each currency as "name (symbol)".
pub open spec fn currency_entry_text(c: CurrencyModel) -> Seq<char> {
    c.name + seq![' ', '('] + c.symbol + seq![')']
}

/// Line 14: the boolean literal.
pub open spec fn landlocked_value(landlocked: bool) -> Seq<char> {
    if landlocked {
        "true"@
    } else {
        "false"@
    }
}

/// The error line for a failed lookup, carrying the cause verbatim.
pub open spec fn error_line_text(cause: Seq<char>) -> Seq<char> {
    "Error fetching data: "@ + cause
}

/// The single line shown when the lookup matched no country.
pub open spec fn no_data_text() -> Seq<char> {
    "No data found for the specified country."@
}

/// Whether `lines` is the fixed ordered sequence of sixteen labeled lines
/// for the record `rec`.
pub open spec fn country_lines_ok(rec: RecordModel, lines: Seq<Line>) -> bool {
    &&& lines.len() == 16
    &&& lines[0].label@ == "Country"@ && lines[0].value@ == country_value(rec)
    &&& lines[1].label@ == "Capital"@ && lines[1].value@ == capital_value(rec)
    &&& lines[2].label@ == "Region"@ && lines[2].value@ == rec.region
    &&& lines[3].label@ == "Subregion"@ && lines[3].value@ == rec.subregion
    &&& lines[4].label@ == "LatLng"@ && lines[4].value@ == coords_value(rec.lat, rec.lng)
    &&& lines[5].label@ == "Capital LatLng"@ && lines[5].value@ == coords_value(
        rec.capital_lat,
        rec.capital_lng,
    )
    &&& lines[6].label@ == "Timezones"@ && lines[6].value@ == listed(rec.timezones)
    &&& lines[7].label@ == "TLD"@ && lines[7].value@ == listed(rec.tld)
    &&& lines[8].label@ == "Population"@ && lines[8].value@ == count_text(rec.population)
    &&& lines[9].label@ == "Continent"@ && lines[9].value@ == listed(
        or_fallback(rec.continents, "Unknown"@),
    )
    &&& lines[10].label@ == "Languages"@ && lines[10].value@ == listed(
        rec.languages.map_values(|p: (Seq<char>, Seq<char>)| p.1),
    )
    &&& lines[11].label@ == "Currencies"@ && lines[11].value@ == listed(
        rec.currencies.map_values(|p: (Seq<char>, CurrencyModel)| currency_entry_text(p.1)),
    )
    &&& lines[12].label@ == "Borders"@ && lines[12].value@ == listed(
        or_fallback(rec.borders, "None"@),
    )
    &&& lines[13].label@ == "Landlocked"@ && lines[13].value@ == landlocked_value(rec.landlocked)
    &&& lines[14].label@ == "Start of the week"@ && lines[14].value@ == rec.start_of_week
    &&& lines[15].label@ == "OpenStreetMap Link"@ && lines[15].value@ == rec.map_link
}

/// What the rendered report must be for a given lookup outcome: exactly
/// one error line for a failure, exactly one notice line for an empty
/// success, and the sixteen labeled lines of the first candidate
/// otherwise (further candidates are discarded).
pub open spec fn render_ok(result: LookupResult, r: Report) -> bool {
    match result {
        LookupResult::Failure(cause) => r matches Report::Failure(line) && line@
            == error_line_text(cause@),
        LookupResult::Success(v) => if v@.len() == 0 {
            r matches Report::NoData(line) && line@ == no_data_text()
        } else {
            r matches Report::Country(lines) && country_lines_ok(v@[0]@, lines@)
        },
    }
}

// ---------------------------------------------------------------------------
// Executable rendering.
// ---------------------------------------------------------------------------

/// One labeled line from a label literal and a built value.
fn line(label: &str, value: String) -> (l: Line)
    ensures
        l.label@ == label@,
        l.value@ == value@,
{
    Line { label: label.to_owned(), value }
}

/// The listed form of an optional field, with its fallback placeholder.
fn listed_or_fallback(opt: &Option<Vec<String>>, fallback: &str) -> (s: String)
    ensures
        s@ == listed(or_fallback(opt_seq_views(*opt), fallback@)),
{
    match opt {
        Some(items) => crate::text::listed_text(items),
        None => {
            let placeholder: Vec<String> = vec![fallback.to_owned()];
            proof {
                assert(seq_views(placeholder@) =~= seq![fallback@]);
            }
            crate::text::listed_text(&placeholder)
        },
    }
}

/// The language names, in stored entry order.
#[verifier::loop_isolation(false)]
fn language_values(xs: &Vec<(String, String)>) -> (r: Vec<String>)
    ensures
        seq_views(r@) == xs@.map_values(|p: (String, String)| p.1@),
{
    let mut out: Vec<String> = Vec::new();
    let n = xs.len();
    let mut i: usize = 0;
    while i < n
        invariant
            i <= n,
            out@.len() == i,
            forall|k: int| 0 <= k < i ==> #[trigger] out@[k]@ == xs@[k].1@,
        decreases n - i,
    {
        out.push(xs[i].1.clone());
        i = i + 1;
    }
    proof {
        assert(seq_views(out@) =~= xs@.map_values(|p: (String, String)| p.1@));
    }
    out
}

/// The currency entries rendered as "name (symbol)", in stored order.
#[verifier::loop_isolation(false)]
fn currency_values(xs: &Vec<(String, crate::record::Currency)>) -> (r: Vec<String>)
    ensures
        seq_views(r@) == xs@.map_values(
            |p: (String, crate::record::Currency)| currency_entry_text(p.1@),
        ),
{
    proof {
        reveal_strlit(" (");
        reveal_strlit(")");
        assert(" ("@ =~= seq![' ', '(']);
        assert(")"@ =~= seq![')']);
    }
    let mut out: Vec<String> = Vec::new();
    let n = xs.len();
    let mut i: usize = 0;
    while i < n
        invariant
            i <= n,
            out@.len() == i,
            forall|k: int| 0 <= k < i ==> #[trigger] out@[k]@ == currency_entry_text(xs@[k].1@),
        decreases n - i,
    {
        let mut s = xs[i].1.name.clone();
        s.append(" (");
        s.append(xs[i].1.symbol.as_str());
        s.append(")");
        out.push(s);
        i = i + 1;
    }
    proof {
        assert(seq_views(out@) =~= xs@.map_values(
            |p: (String, crate::record::Currency)| currency_entry_text(p.1@),
        ));
    }
    out
}

/// The sixteen labeled lines for one record, in their fixed order.
fn country_lines(rec: &CountryRecord) -> (lines: Vec<Line>)
    ensures
        country_lines_ok(rec@, lines@),
{
    proof {
        reveal_strlit(" ");
        reveal_strlit(", ");
        reveal_strlit("/");
        reveal_strlit("true");
        reveal_strlit("false");
        assert(" "@ =~= seq![' ']);
        assert(", "@ =~= seq![',', ' ']);
        assert("/"@ =~= seq!['/']);
    }
    let mut lines: Vec<Line> = Vec::new();

    let mut country = rec.official_name.clone();
    country.append(" ");
    country.append(rec.flag.as_str());
    lines.push(line("Country", country));

    lines.push(line("Capital", crate::text::join_texts(&rec.capitals, ", ")));
    lines.push(line("Region", rec.region.clone()));
    lines.push(line("Subregion", rec.subregion.clone()));

    let mut latlng = rec.coordinates.lat.clone();
    latlng.append("/");
    latlng.append(rec.coordinates.lng.as_str());
    lines.push(line("LatLng", latlng));

    let mut capital_latlng = rec.capital_coordinates.lat.clone();
    capital_latlng.append("/");
    capital_latlng.append(rec.capital_coordinates.lng.as_str());
    lines.push(line("Capital LatLng", capital_latlng));

    lines.push(line("Timezones", crate::text::listed_text(&rec.timezones)));
    lines.push(line("TLD", crate::text::listed_text(&rec.tld)));
    lines.push(line("Population", crate::text::grouped_decimal_text(rec.population)));
    lines.push(line("Continent", listed_or_fallback(&rec.continents, "Unknown")));

    let langs = language_values(&rec.languages);
    proof {
        assert(seq_views(langs@) =~= rec@.languages.map_values(|p: (Seq<char>, Seq<char>)| p.1));
    }
    lines.push(line("Languages", crate::text::listed_text(&langs)));

    let currs = currency_values(&rec.currencies);
    proof {
        assert(seq_views(currs@) =~= rec@.currencies.map_values(
            |p: (Seq<char>, CurrencyModel)| currency_entry_text(p.1),
        ));
    }
    lines.push(line("Currencies", crate::text::listed_text(&currs)));

    lines.push(line("Borders", listed_or_fallback(&rec.borders, "None")));
    lines.push(
        line("Landlocked", if rec.landlocked {
            "true".to_owned()
        } else {
            "false".to_owned()
        }),
    );
    lines.push(line("Start of the week", rec.start_of_week.clone()));
    lines.push(line("OpenStreetMap Link", rec.map_link.clone()));
    lines
}

/// Renders a lookup outcome: one error line for a failure, one notice
/// line for an empty result, and the sixteen labeled lines of the first
/// candidate otherwise.
pub fn render(result: &LookupResult) -> (r: Report)
    ensures
        render_ok(*result, r),
{
    match result {
        LookupResult::Failure(cause) => {
            proof {
                reveal_strlit("Error fetching data: ");
            }
            let mut s: String = "Error fetching data: ".to_owned();
            s.append(cause.as_str());
            Report::Failure(s)
        },
        LookupResult::Success(candidates) => {
            if candidates.len() == 0 {
                Report::NoData("No data found for the specified country.".to_owned())
            } else {
                Report::Country(country_lines(&candidates[0]))
            }
        },
    }
}

// ---------------------------------------------------------------------------
// Laws of the reporter.
// ---------------------------------------------------------------------------

/// The texts of a rendered report, in display order.
pub open spec fn report_texts(r: Report) -> Seq<Seq<char>> {
    match r {
        Report::Failure(l) => seq![l@],
        Report::NoData(l) => seq![l@],
        Report::Country(lines) => lines@.map_values(|l: Line| line_text(l.label@, l.value@)),
    }
}

/// A well-formed record missing `continents` renders the Continent line
/// with the single placeholder entry "Unknown".
pub proof fn lemma_continent_fallback(result: LookupResult, r: Report)
    requires
        render_ok(result, r),
        result matches LookupResult::Success(v) && v@.len() > 0 && v@[0]@.continents is None,
    ensures
        r matches Report::Country(lines) && lines@[9].label@ == "Continent"@ && lines@[9].value@
            == listed(seq!["Unknown"@]),
{
}

/// A well-formed record missing `borders` renders the Borders line with
/// the single placeholder entry "None".
pub proof fn lemma_borders_fallback(result: LookupResult, r: Report)
    requires
        render_ok(result, r),
        result matches LookupResult::Success(v) && v@.len() > 0 && v@[0]@.borders is None,
    ensures
        r matches Report::Country(lines) && lines@[12].label@ == "Borders"@ && lines@[12].value@
            == listed(seq!["None"@]),
{
}

/// Rendering is deterministic: any two reports of the same lookup outcome
/// display the same text, byte for byte.
pub proof fn lemma_render_deterministic(result: LookupResult, a: Report, b: Report)
    requires
        render_ok(result, a),
        render_ok(result, b),
    ensures
        report_texts(a) == report_texts(b),
{
    match result {
        LookupResult::Failure(cause) => {
            assert(report_texts(a) =~= report_texts(b));
        },
        LookupResult::Success(v) => {
            if v@.len() == 0 {
                assert(report_texts(a) =~= report_texts(b));
            } else {
                let la = a->Country_0@;
                let lb = b->Country_0@;
                assert forall|k: int| 0 <= k < 16 implies line_text(la[k].label@, la[k].value@)
                    == line_text(lb[k].label@, lb[k].value@) by {}
                assert(report_texts(a) =~= report_texts(b));
            }
        },
    }
}

} // verus!
