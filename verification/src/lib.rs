//! Verified core of an object-storage service modelled on Firebase Storage:
//! security rules, path handling, signed URLs, listing and upload rules.

pub mod claims;
pub mod rules;
pub mod strmap;
pub mod text;
pub mod digest;
pub mod time;
pub mod urlenc;
pub mod path;
pub mod signed_url;
pub mod error;
pub mod config;
pub mod store;
pub mod upload;
pub mod backup;
pub mod api;
pub mod auth;
pub mod dto;
pub mod rule_properties;
