//! Typed records of a status-page service's public API, decoded from JSON
//! with verified rules, and the URLs and response checks of its client.

pub mod error;
pub mod json;
pub mod time;
pub mod status;
pub mod component;
pub mod incident;
pub mod metainfo;
pub mod summary;
pub mod webhook;
pub mod client;
