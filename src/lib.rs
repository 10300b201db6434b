//! Sales-tax rates by ZIP code: loading a ZIP→rate table into a key-value
//! store, and answering rate lookups over HTTP-shaped requests.

pub mod dataset;
pub mod store;
pub mod request;
pub mod service;
pub mod laws;
