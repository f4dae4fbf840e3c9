//! The data model behind the GreptimeDB C ingestion interface: C strings,
//! column schemas, values and row batches, and how they become the rows of a
//! GreptimeDB insert request.
pub mod client;
pub mod error;
pub mod utils;
pub mod outcome;
pub mod proto;
pub mod rows;
pub mod schema;
pub mod value;
