//! A read-only weather dataset: a JSON document of countries, their cities and
//! the months of each city, loaded once and queried by key.

pub mod json;
pub mod dataset;
pub mod http;
