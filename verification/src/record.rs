//! The country record: the typed representation of one result object of a
//! country lookup, and the shape-checking constructor that builds it from a
//! parsed JSON document.
//!
//! Every required field must be present with the right type; the two
//! optional fields (`continents` and `borders`) may be absent, but when
//! present must have the right type. Unknown members are ignored.
//! Coordinates are numeric text carried verbatim: this library displays
//! them and never computes with them.

use vstd::prelude::*;
use crate::json::Json;
use crate::text::{dec_digits, seq_views};

verus! {

/// The mathematical model of one currency entry.
#[verifier::ext_equal]
pub struct CurrencyModel {
    pub name: Seq<char>,
    pub symbol: Seq<char>,
}

/// The mathematical model of a country record.
#[verifier::ext_equal]
pub struct RecordModel {
    pub official_name: Seq<char>,
    pub flag: Seq<char>,
    pub capitals: Seq<Seq<char>>,
    pub capital_lat: Seq<char>,
    pub capital_lng: Seq<char>,
    pub region: Seq<char>,
    pub subregion: Seq<char>,
    pub lat: Seq<char>,
    pub lng: Seq<char>,
    pub timezones: Seq<Seq<char>>,
    pub tld: Seq<Seq<char>>,
    pub population: nat,
    pub continents: Option<Seq<Seq<char>>>,
    pub languages: Seq<(Seq<char>, Seq<char>)>,
    pub currencies: Seq<(Seq<char>, CurrencyModel)>,
    pub borders: Option<Seq<Seq<char>>>,
    pub landlocked: bool,
    pub start_of_week: Seq<char>,
    pub map_link: Seq<char>,
}

/// One currency: its display name and its symbol.
pub struct Currency {
    pub name: String,
    pub symbol: String,
}

/// A latitude/longitude pair, each held as its decimal text.
pub struct Coordinates {
    pub lat: String,
    pub lng: String,
}

/// One country record, fully typed. Immutable once constructed.
pub struct CountryRecord {
    pub official_name: String,
    pub flag: String,
    pub capitals: Vec<String>,
    pub capital_coordinates: Coordinates,
    pub region: String,
    pub subregion: String,
    pub coordinates: Coordinates,
    pub timezones: Vec<String>,
    pub tld: Vec<String>,
    pub population: u64,
    pub continents: Option<Vec<String>>,
    pub languages: Vec<(String, String)>,
    pub currencies: Vec<(String, Currency)>,
    pub borders: Option<Vec<String>>,
    pub landlocked: bool,
    pub start_of_week: String,
    pub map_link: String,
}

impl View for Currency {
    type V = CurrencyModel;

    open spec fn view(&self) -> CurrencyModel {
        CurrencyModel { name: self.name@, symbol: self.symbol@ }
    }
}

/// The views of an optional vector of strings.
pub open spec fn opt_seq_views(xs: Option<Vec<String>>) -> Option<Seq<Seq<char>>> {
    match xs {
        Some(v) => Some(seq_views(v@)),
        None => None,
    }
}

impl View for CountryRecord {
    type V = RecordModel;

    open spec fn view(&self) -> RecordModel {
        RecordModel {
            official_name: self.official_name@,
            flag: self.flag@,
            capitals: seq_views(self.capitals@),
            capital_lat: self.capital_coordinates.lat@,
            capital_lng: self.capital_coordinates.lng@,
            region: self.region@,
            subregion: self.subregion@,
            lat: self.coordinates.lat@,
            lng: self.coordinates.lng@,
            timezones: seq_views(self.timezones@),
            tld: seq_views(self.tld@),
            population: self.population as nat,
            continents: opt_seq_views(self.continents),
            languages: self.languages@.map_values(|p: (String, String)| (p.0@, p.1@)),
            currencies: self.currencies@.map_values(|p: (String, Currency)| (p.0@, p.1@)),
            borders: opt_seq_views(self.borders),
            landlocked: self.landlocked,
            start_of_week: self.start_of_week@,
            map_link: self.map_link@,
        }
    }
}

// ---------------------------------------------------------------------------
// The shape of a record, as spec functions over the JSON document. Each
// returns `Some` exactly when the member it reads is present with the
// expected type.
// ---------------------------------------------------------------------------

/// The display text of a JSON number: an unsigned integer's decimal
/// digits, or other numeric text verbatim.
pub open spec fn num_text(e: Json) -> Option<Seq<char>> {
    match e {
        Json::UInt(u) => Some(dec_digits(u as nat)),
        Json::Num(s) => Some(s@),
        _ => None,
    }
}

/// The string member `key` of `j`.
pub open spec fn member_str(j: Json, key: Seq<char>) -> Option<Seq<char>> {
    match j.spec_member(key) {
        Some(Json::Str(s)) => Some(s@),
        _ => None,
    }
}

/// The unsigned-integer member `key` of `j`.
pub open spec fn member_u64(j: Json, key: Seq<char>) -> Option<u64> {
    match j.spec_member(key) {
        Some(Json::UInt(u)) => Some(u),
        _ => None,
    }
}

/// The boolean member `key` of `j`.
pub open spec fn member_bool(j: Json, key: Seq<char>) -> Option<bool> {
    match j.spec_member(key) {
        Some(Json::Bool(b)) => Some(b),
        _ => None,
    }
}

/// Whether every element is a JSON string.
pub open spec fn all_strs(elems: Seq<Json>) -> bool {
    forall|k: int| 0 <= k < elems.len() ==> elems[k] is Str
}

/// The texts of a sequence of JSON strings.
pub open spec fn str_items(elems: Seq<Json>) -> Seq<Seq<char>> {
    elems.map_values(|e: Json| e->Str_0@)
}

/// The member `key` of `j` as an array of strings.
pub open spec fn member_str_seq(j: Json, key: Seq<char>) -> Option<Seq<Seq<char>>> {
    match j.spec_member(key) {
        Some(Json::Arr(elems)) => if all_strs(elems@) {
            Some(str_items(elems@))
        } else {
            None
        },
        _ => None,
    }
}

/// The optional member `key` of `j` as an array of strings:
/// `Some(None)` when absent, `None` when present with the wrong type.
pub open spec fn member_opt_str_seq(j: Json, key: Seq<char>) -> Option<Option<Seq<Seq<char>>>> {
    match j.spec_member(key) {
        None => Some(None),
        Some(Json::Arr(elems)) => if all_strs(elems@) {
            Some(Some(str_items(elems@)))
        } else {
            None
        },
        Some(_) => None,
    }
}

/// A latitude/longitude pair: an array of at least two numbers, read as
/// their display texts.
pub open spec fn coords_of(v: Json) -> Option<(Seq<char>, Seq<char>)> {
    match v {
        Json::Arr(elems) => if elems@.len() >= 2 && num_text(elems@[0]) is Some && num_text(
            elems@[1],
        ) is Some {
            Some((num_text(elems@[0]).unwrap(), num_text(elems@[1]).unwrap()))
        } else {
            None
        },
        _ => None,
    }
}

/// The member `key` of `j` as a coordinate pair.
pub open spec fn member_coords(j: Json, key: Seq<char>) -> Option<(Seq<char>, Seq<char>)> {
    match j.spec_member(key) {
        Some(v) => coords_of(v),
        None => None,
    }
}

/// The string member `k2` of the object member `k1` of `j`.
pub open spec fn member_member_str(j: Json, k1: Seq<char>, k2: Seq<char>) -> Option<Seq<char>> {
    match j.spec_member(k1) {
        Some(v) => member_str(v, k2),
        None => None,
    }
}

/// The coordinate-pair member `k2` of the object member `k1` of `j`.
pub open spec fn member_member_coords(j: Json, k1: Seq<char>, k2: Seq<char>) -> Option<
    (Seq<char>, Seq<char>),
> {
    match j.spec_member(k1) {
        Some(v) => member_coords(v, k2),
        None => None,
    }
}

/// Whether every value of an object is a JSON string.
pub open spec fn all_str_values(entries: Seq<(String, Json)>) -> bool {
    forall|k: int| 0 <= k < entries.len() ==> entries[k].1 is Str
}

/// Key/text pairs of an object whose values are all strings.
pub open spec fn str_value_items(entries: Seq<(String, Json)>) -> Seq<(Seq<char>, Seq<char>)> {
    entries.map_values(|p: (String, Json)| (p.0@, p.1->Str_0@))
}

/// The member `key` of `j` as an object mapping codes to names.
pub open spec fn member_str_map(j: Json, key: Seq<char>) -> Option<Seq<(Seq<char>, Seq<char>)>> {
    match j.spec_member(key) {
        Some(Json::Obj(entries)) => if all_str_values(entries@) {
            Some(str_value_items(entries@))
        } else {
            None
        },
        _ => None,
    }
}

/// One currency value: an object with string members `name` and `symbol`.
pub open spec fn currency_of(v: Json) -> Option<CurrencyModel> {
    if member_str(v, "name"@) is Some && member_str(v, "symbol"@) is Some {
        Some(
            CurrencyModel {
                name: member_str(v, "name"@).unwrap(),
                symbol: member_str(v, "symbol"@).unwrap(),
            },
        )
    } else {
        None
    }
}

/// Whether every value of an object is a well-shaped currency.
pub open spec fn all_currency_values(entries: Seq<(String, Json)>) -> bool {
    forall|k: int| 0 <= k < entries.len() ==> currency_of(#[trigger] entries[k].1) is Some
}

/// Key/currency pairs of an object whose values are all currencies.
pub open spec fn currency_items(entries: Seq<(String, Json)>) -> Seq<(Seq<char>, CurrencyModel)> {
    entries.map_values(|p: (String, Json)| (p.0@, currency_of(p.1).unwrap()))
}

/// The member `key` of `j` as an object mapping codes to currencies.
pub open spec fn member_currency_map(j: Json, key: Seq<char>) -> Option<
    Seq<(Seq<char>, CurrencyModel)>,
> {
    match j.spec_member(key) {
        Some(Json::Obj(entries)) => if all_currency_values(entries@) {
            Some(currency_items(entries@))
        } else {
            None
        },
        _ => None,
    }
}

/// Whether `j` has the shape of one country record: every required field
/// present with its expected type, and each optional field either absent
/// or well-typed.
pub open spec fn record_shape_ok(j: Json) -> bool {
    &&& member_member_str(j, "name"@, "official"@) is Some
    &&& member_str(j, "flag"@) is Some
    &&& member_str_seq(j, "capital"@) is Some
    &&& member_member_coords(j, "capitalInfo"@, "latlng"@) is Some
    &&& member_str(j, "region"@) is Some
    &&& member_str(j, "subregion"@) is Some
    &&& member_coords(j, "latlng"@) is Some
    &&& member_str_seq(j, "timezones"@) is Some
    &&& member_str_seq(j, "tld"@) is Some
    &&& member_u64(j, "population"@) is Some
    &&& member_opt_str_seq(j, "continents"@) is Some
    &&& member_str_map(j, "languages"@) is Some
    &&& member_currency_map(j, "currencies"@) is Some
    &&& member_opt_str_seq(j, "borders"@) is Some
    &&& member_bool(j, "landlocked"@) is Some
    &&& member_str(j, "startOfWeek"@) is Some
    &&& member_member_str(j, "maps"@, "openStreetMaps"@) is Some
}

/// The record a well-shaped document denotes.
pub open spec fn record_of(j: Json) -> RecordModel {
    RecordModel {
        official_name: member_member_str(j, "name"@, "official"@).unwrap(),
        flag: member_str(j, "flag"@).unwrap(),
        capitals: member_str_seq(j, "capital"@).unwrap(),
        capital_lat: member_member_coords(j, "capitalInfo"@, "latlng"@).unwrap().0,
        capital_lng: member_member_coords(j, "capitalInfo"@, "latlng"@).unwrap().1,
        region: member_str(j, "region"@).unwrap(),
        subregion: member_str(j, "subregion"@).unwrap(),
        lat: member_coords(j, "latlng"@).unwrap().0,
        lng: member_coords(j, "latlng"@).unwrap().1,
        timezones: member_str_seq(j, "timezones"@).unwrap(),
        tld: member_str_seq(j, "tld"@).unwrap(),
        population: member_u64(j, "population"@).unwrap() as nat,
        continents: member_opt_str_seq(j, "continents"@).unwrap(),
        languages: member_str_map(j, "languages"@).unwrap(),
        currencies: member_currency_map(j, "currencies"@).unwrap(),
        borders: member_opt_str_seq(j, "borders"@).unwrap(),
        landlocked: member_bool(j, "landlocked"@).unwrap(),
        start_of_week: member_str(j, "startOfWeek"@).unwrap(),
        map_link: member_member_str(j, "maps"@, "openStreetMaps"@).unwrap(),
    }
}

// ---------------------------------------------------------------------------
// Executable extraction, verified against the spec functions above.
// ---------------------------------------------------------------------------

/// The string member `key`, copied out.
fn get_str(j: &Json, key: &str) -> (r: Option<String>)
    ensures
        match r {
            Some(s) => member_str(*j, key@) == Some(s@),
            None => member_str(*j, key@) is None,
        },
{
    match j.member(key) {
        Some(v) => match v {
            Json::Str(s) => Some(s.clone()),
            _ => None,
        },
        None => None,
    }
}

/// The unsigned-integer member `key`.
fn get_u64(j: &Json, key: &str) -> (r: Option<u64>)
    ensures
        r == member_u64(*j, key@),
{
    match j.member(key) {
        Some(v) => match v {
            Json::UInt(u) => Some(*u),
            _ => None,
        },
        None => None,
    }
}

/// The boolean member `key`.
fn get_bool(j: &Json, key: &str) -> (r: Option<bool>)
    ensures
        r == member_bool(*j, key@),
{
    match j.member(key) {
        Some(v) => match v {
            Json::Bool(b) => Some(*b),
            _ => None,
        },
        None => None,
    }
}

/// The elements of `elems`, when all of them are strings.
#[verifier::loop_isolation(false)]
fn collect_strs(elems: &Vec<Json>) -> (r: Option<Vec<String>>)
    ensures
        match r {
            Some(v) => all_strs(elems@) && seq_views(v@) == str_items(elems@),
            None => !all_strs(elems@),
        },
{
    let mut out: Vec<String> = Vec::new();
    let n = elems.len();
    let mut i: usize = 0;
    while i < n
        invariant
            i <= n,
            out@.len() == i,
            forall|k: int| 0 <= k < i ==> elems@[k] is Str,
            forall|k: int| 0 <= k < i ==> #[trigger] out@[k]@ == elems@[k]->Str_0@,
        decreases n - i,
    {
        match &elems[i] {
            Json::Str(s) => out.push(s.clone()),
            _ => {
                return None;
            },
        }
        i = i + 1;
    }
    proof {
        assert(seq_views(out@) =~= str_items(elems@));
    }
    Some(out)
}

/// The member `key` as an array of strings, copied out.
fn get_str_vec(j: &Json, key: &str) -> (r: Option<Vec<String>>)
    ensures
        match r {
            Some(v) => member_str_seq(*j, key@) == Some(seq_views(v@)),
            None => member_str_seq(*j, key@) is None,
        },
{
    match j.member(key) {
        Some(v) => match v {
            Json::Arr(elems) => collect_strs(elems),
            _ => None,
        },
        None => None,
    }
}

/// The optional member `key` as an array of strings: `Some(None)` when
/// absent, `None` when present with the wrong shape.
fn get_opt_str_vec(j: &Json, key: &str) -> (r: Option<Option<Vec<String>>>)
    ensures
        match r {
            Some(opt) => member_opt_str_seq(*j, key@) == Some(opt_seq_views(opt)),
            None => member_opt_str_seq(*j, key@) is None,
        },
{
    match j.member(key) {
        Some(v) => match v {
            Json::Arr(elems) => match collect_strs(elems) {
                Some(items) => Some(Some(items)),
                None => None,
            },
            _ => None,
        },
        None => Some(None),
    }
}

/// The display text of one number.
fn get_num_text(e: &Json) -> (r: Option<String>)
    ensures
        match r {
            Some(s) => num_text(*e) == Some(s@),
            None => num_text(*e) is None,
        },
{
    match e {
        Json::UInt(u) => Some(crate::text::decimal_text(*u)),
        Json::Num(s) => Some(s.clone()),
        _ => None,
    }
}

/// The member `key` as a coordinate pair.
fn get_coords(j: &Json, key: &str) -> (r: Option<Coordinates>)
    ensures
        match r {
            Some(c) => member_coords(*j, key@) == Some((c.lat@, c.lng@)),
            None => member_coords(*j, key@) is None,
        },
{
    match j.member(key) {
        Some(v) => match v {
            Json::Arr(elems) => {
                if elems.len() >= 2 {
                    match get_num_text(&elems[0]) {
                        Some(lat) => match get_num_text(&elems[1]) {
                            Some(lng) => Some(Coordinates { lat, lng }),
                            None => None,
                        },
                        None => None,
                    }
                } else {
                    None
                }
            },
            _ => None,
        },
        None => None,
    }
}

/// The string member `k2` of the object member `k1`, copied out.
fn get_nested_str(j: &Json, k1: &str, k2: &str) -> (r: Option<String>)
    ensures
        match r {
            Some(s) => member_member_str(*j, k1@, k2@) == Some(s@),
            None => member_member_str(*j, k1@, k2@) is None,
        },
{
    match j.member(k1) {
        Some(v) => get_str(v, k2),
        None => None,
    }
}

/// The coordinate-pair member `k2` of the object member `k1`.
fn get_nested_coords(j: &Json, k1: &str, k2: &str) -> (r: Option<Coordinates>)
    ensures
        match r {
            Some(c) => member_member_coords(*j, k1@, k2@) == Some((c.lat@, c.lng@)),
            None => member_member_coords(*j, k1@, k2@) is None,
        },
{
    match j.member(k1) {
        Some(v) => get_coords(v, k2),
        None => None,
    }
}

/// The entries of an object whose values are all strings, copied out.
#[verifier::loop_isolation(false)]
fn collect_str_entries(entries: &Vec<(String, Json)>) -> (r: Option<Vec<(String, String)>>)
    ensures
        match r {
            Some(v) => all_str_values(entries@) && v@.map_values(|p: (String, String)| (p.0@, p.1@))
                == str_value_items(entries@),
            None => !all_str_values(entries@),
        },
{
    let mut out: Vec<(String, String)> = Vec::new();
    let n = entries.len();
    let mut i: usize = 0;
    while i < n
        invariant
            i <= n,
            out@.len() == i,
            forall|k: int| 0 <= k < i ==> entries@[k].1 is Str,
            forall|k: int| 0 <= k < i ==> #[trigger] out@[k].0@ == entries@[k].0@,
            forall|k: int| 0 <= k < i ==> #[trigger] out@[k].1@ == entries@[k].1->Str_0@,
        decreases n - i,
    {
        match &entries[i].1 {
            Json::Str(s) => out.push((entries[i].0.clone(), s.clone())),
            _ => {
                return None;
            },
        }
        i = i + 1;
    }
    proof {
        assert(out@.map_values(|p: (String, String)| (p.0@, p.1@)) =~= str_value_items(entries@));
    }
    Some(out)
}

/// The member `key` as an object mapping codes to names, copied out.
fn get_str_map(j: &Json, key: &str) -> (r: Option<Vec<(String, String)>>)
    ensures
        match r {
            Some(v) => member_str_map(*j, key@) == Some(
                v@.map_values(|p: (String, String)| (p.0@, p.1@)),
            ),
            None => member_str_map(*j, key@) is None,
        },
{
    match j.member(key) {
        Some(v) => match v {
            Json::Obj(entries) => collect_str_entries(entries),
            _ => None,
        },
        None => None,
    }
}

/// One currency value, copied out.
fn get_currency(v: &Json) -> (r: Option<Currency>)
    ensures
        match r {
            Some(c) => currency_of(*v) == Some(c@),
            None => currency_of(*v) is None,
        },
{
    match get_str(v, "name") {
        Some(name) => match get_str(v, "symbol") {
            Some(symbol) => Some(Currency { name, symbol }),
            None => None,
        },
        None => None,
    }
}

/// The entries of an object whose values are all currencies, copied out.
#[verifier::loop_isolation(false)]
fn collect_currency_entries(entries: &Vec<(String, Json)>) -> (r: Option<Vec<(String, Currency)>>)
    ensures
        match r {
            Some(v) => all_currency_values(entries@) && v@.map_values(
                |p: (String, Currency)| (p.0@, p.1@),
            ) == currency_items(entries@),
            None => !all_currency_values(entries@),
        },
{
    let mut out: Vec<(String, Currency)> = Vec::new();
    let n = entries.len();
    let mut i: usize = 0;
    while i < n
        invariant
            i <= n,
            out@.len() == i,
            forall|k: int| 0 <= k < i ==> currency_of(#[trigger] entries@[k].1) is Some,
            forall|k: int| 0 <= k < i ==> #[trigger] out@[k].0@ == entries@[k].0@,
            forall|k: int| 0 <= k < i ==> #[trigger] out@[k].1@ == currency_of(
                entries@[k].1,
            ).unwrap(),
        decreases n - i,
    {
        match get_currency(&entries[i].1) {
            Some(c) => out.push((entries[i].0.clone(), c)),
            None => {
                return None;
            },
        }
        i = i + 1;
    }
    proof {
        assert(out@.map_values(|p: (String, Currency)| (p.0@, p.1@)) =~= currency_items(entries@));
    }
    Some(out)
}

/// The member `key` as an object mapping codes to currencies, copied out.
fn get_currency_map(j: &Json, key: &str) -> (r: Option<Vec<(String, Currency)>>)
    ensures
        match r {
            Some(v) => member_currency_map(*j, key@) == Some(
                v@.map_values(|p: (String, Currency)| (p.0@, p.1@)),
            ),
            None => member_currency_map(*j, key@) is None,
        },
{
    match j.member(key) {
        Some(v) => match v {
            Json::Obj(entries) => collect_currency_entries(entries),
            _ => None,
        },
        None => None,
    }
}

impl CountryRecord {
    /// Builds the record a well-shaped document denotes, and reports an
    /// ill-shaped document by returning nothing.
    pub fn from_json(j: &Json) -> (r: Option<CountryRecord>)
        ensures
            match r {
                Some(rec) => record_shape_ok(*j) && rec@ == record_of(*j),
                None => !record_shape_ok(*j),
            },
    {
        let official_name = match get_nested_str(j, "name", "official") {
            Some(x) => x,
            None => {
                return None;
            },
        };
        let flag = match get_str(j, "flag") {
            Some(x) => x,
            None => {
                return None;
            },
        };
        let capitals = match get_str_vec(j, "capital") {
            Some(x) => x,
            None => {
                return None;
            },
        };
        let capital_coordinates = match get_nested_coords(j, "capitalInfo", "latlng") {
            Some(x) => x,
            None => {
                return None;
            },
        };
        let region = match get_str(j, "region") {
            Some(x) => x,
            None => {
                return None;
            },
        };
        let subregion = match get_str(j, "subregion") {
            Some(x) => x,
            None => {
                return None;
            },
        };
        let coordinates = match get_coords(j, "latlng") {
            Some(x) => x,
            None => {
                return None;
            },
        };
        let timezones = match get_str_vec(j, "timezones") {
            Some(x) => x,
            None => {
                return None;
            },
        };
        let tld = match get_str_vec(j, "tld") {
            Some(x) => x,
            None => {
                return None;
            },
        };
        let population = match get_u64(j, "population") {
            Some(x) => x,
            None => {
                return None;
            },
        };
        let continents = match get_opt_str_vec(j, "continents") {
            Some(x) => x,
            None => {
                return None;
            },
        };
        let languages = match get_str_map(j, "languages") {
            Some(x) => x,
            None => {
                return None;
            },
        };
        let currencies = match get_currency_map(j, "currencies") {
            Some(x) => x,
            None => {
                return None;
            },
        };
        let borders = match get_opt_str_vec(j, "borders") {
            Some(x) => x,
            None => {
                return None;
            },
        };
        let landlocked = match get_bool(j, "landlocked") {
            Some(x) => x,
            None => {
                return None;
            },
        };
        let start_of_week = match get_str(j, "startOfWeek") {
            Some(x) => x,
            None => {
                return None;
            },
        };
        let map_link = match get_nested_str(j, "maps", "openStreetMaps") {
            Some(x) => x,
            None => {
                return None;
            },
        };
        let rec = CountryRecord {
            official_name,
            flag,
            capitals,
            capital_coordinates,
            region,
            subregion,
            coordinates,
            timezones,
            tld,
            population,
            continents,
            languages,
            currencies,
            borders,
            landlocked,
            start_of_week,
            map_link,
        };
        proof {
            assert(rec@ =~~= record_of(*j));
        }
        Some(rec)
    }
}

/// The outcome of one lookup: a transport or shape failure carrying its
/// cause, or the full candidate sequence the query matched (possibly
/// empty, possibly several countries for an ambiguous name).
pub enum LookupResult {
    Failure(String),
    Success(Vec<CountryRecord>),
}

/// The views of a vector of country records.
pub open spec fn record_views(v: Seq<CountryRecord>) -> Seq<RecordModel> {
    v.map_values(|r: CountryRecord| r@)
}

/// Whether every element has the shape of a country record.
pub open spec fn all_records_ok(elems: Seq<Json>) -> bool {
    forall|k: int| 0 <= k < elems.len() ==> record_shape_ok(#[trigger] elems[k])
}

/// The records a well-shaped response denotes.
pub open spec fn records_of(elems: Seq<Json>) -> Seq<RecordModel> {
    elems.map_values(|e: Json| record_of(e))
}

/// Whether `j` has the shape of a response: an array of well-shaped
/// country records.
pub open spec fn response_shape_ok(j: Json) -> bool {
    j is Arr && all_records_ok(j->Arr_0@)
}

/// The cause text a shape failure carries.
pub open spec fn shape_error_text() -> Seq<char> {
    "response does not match the expected country record shape"@
}

/// Builds the lookup outcome for a parsed response body: the candidate
/// records of a well-shaped array, and a failure carrying a fixed cause
/// text for anything else.
#[verifier::loop_isolation(false)]
pub fn lookup_from_json(j: &Json) -> (r: LookupResult)
    ensures
        response_shape_ok(*j) ==> (r matches LookupResult::Success(v) && record_views(v@)
            == records_of(j->Arr_0@)),
        !response_shape_ok(*j) ==> (r matches LookupResult::Failure(c) && c@
            == shape_error_text()),
{
    proof {
        reveal_strlit("response does not match the expected country record shape");
    }
    match j {
        Json::Arr(elems) => {
            let mut out: Vec<CountryRecord> = Vec::new();
            let n = elems.len();
            let mut i: usize = 0;
            while i < n
                invariant
                    i <= n,
                    out@.len() == i,
                    forall|k: int| 0 <= k < i ==> record_shape_ok(#[trigger] elems@[k]),
                    forall|k: int| 0 <= k < i ==> #[trigger] out@[k]@ == record_of(elems@[k]),
                decreases n - i,
            {
                match CountryRecord::from_json(&elems[i]) {
                    Some(rec) => out.push(rec),
                    None => {
                        return LookupResult::Failure(
                            "response does not match the expected country record shape".to_owned(),
                        );
                    },
                }
                i = i + 1;
            }
            proof {
                assert(record_views(out@) =~= records_of(elems@));
            }
            LookupResult::Success(out)
        },
        _ => LookupResult::Failure(
            "response does not match the expected country record shape".to_owned(),
        ),
    }
}

} // verus!
