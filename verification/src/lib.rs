//! Verified core of a Yahoo Finance client: request building, response
//! interpretation, and the decision logic around authentication, caching
//! and streaming.

pub mod sector;
pub mod text;
pub mod split;
pub mod decimal;
pub mod circuit;
pub mod json;
pub mod error;
pub mod dates;
pub mod order;
pub mod client;
pub mod collect;
pub mod holder;
pub mod analysts;
pub mod news;
pub mod financial;
pub mod models;
pub mod streaming;
pub mod quotes;
pub mod logo;
pub mod calendar;
pub mod actions;
pub mod historical;
