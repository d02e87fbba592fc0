//! A client library for a service that keeps pages in data sources, each
//! page with properties of kinds that its data source declares. The library
//! reads what the service answers into typed values, builds what is sent
//! to it, and proves of both that they are what the wire format asks.

pub mod client;
pub mod data_source;
pub mod database;
pub mod decode;
pub mod display;
pub mod errors;
pub mod json;
pub mod page;
pub mod parse;
pub mod round_trip;
pub mod text;
pub mod time;
pub mod types;
