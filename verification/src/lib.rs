//! Verified core of the Pender pet-listing site: the decisions, text
//! building and validation that the web handlers rely on.

pub mod text;
pub mod config;
pub mod cities;
pub mod search;
pub mod hash_format;
pub mod auth;
pub mod ids;
pub mod forms;
pub mod posts;
pub mod site;
pub mod photos;
