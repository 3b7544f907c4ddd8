//! Country lookup library: a typed model of the partially-optional JSON
//! record returned by a country-information API, a shape-checking
//! constructor for that model, and a deterministic renderer that turns a
//! lookup outcome into labeled report lines.

pub mod json;
pub mod record;
pub mod report;
pub mod text;

pub use json::Json;
pub use record::{Coordinates, CountryRecord, Currency, LookupResult, lookup_from_json};
pub use report::{Line, Report, render};
