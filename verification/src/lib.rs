//! Weather lookup for named places or explicit coordinates: the rules of the
//! command line, the locations file, the forecast request and the printed
//! table, each with a contract that Verus proves.
//!
//! Numbers are never computed with here. A latitude, a longitude or a weather
//! reading is held as the decimal text that shows it, so that "unknown" (no
//! text) and "zero" (the text of zero) stay apart from reading to display.

pub mod structs;
pub mod error;
pub mod report;
pub mod locations;
pub mod args;
pub mod client;
