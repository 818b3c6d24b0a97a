//! Verified core of the meter-values service: the CSV import formats, the
//! decisions of the HTTP handlers, the mapping of database failures to API
//! errors and the transaction protocols of imports and meter exchanges.

pub mod api;
pub mod error;
pub mod exchange;
pub mod import;
pub mod models;
pub mod table;
pub mod values;
