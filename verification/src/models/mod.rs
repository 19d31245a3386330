//! The data types of Yahoo Finance answers, as the library hands them out.

pub mod analysts;
pub mod financials;
pub mod historical;
pub mod movers;
pub mod news;
pub mod search;
pub mod quote;
pub mod transcripts;
pub mod sec_filings;
pub mod options;
pub mod market;
pub mod calendar;
pub mod industry;
