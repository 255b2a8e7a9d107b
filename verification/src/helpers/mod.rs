//! Small request helpers: path and query parameters, dates.
pub mod form;
pub mod http;
