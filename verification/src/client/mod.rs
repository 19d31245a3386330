//! The logic of the HTTP client: what is asked of Yahoo Finance, how its
//! answers are judged, and how the authentication crumb is kept.

pub mod status;
pub mod body;
pub mod auth;
pub mod requests;
