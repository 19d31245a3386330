//! Earnings calls and their transcripts.

use vstd::prelude::*;

verus! {

/// A fiscal quarter.
#[derive(Debug, Clone, Copy, PartialEq, Eq, Structural)]
pub enum Quarter {
    Q1,
    Q2,
    Q3,
    Q4,
}

/// An earnings call that has a transcript.
#[derive(Debug, Clone)]
pub struct EarningsCallListing {
    pub event_id: String,
    pub quarter: Option<String>,
    pub year: Option<i32>,
    pub title: String,
    pub url: String,
}

/// The earnings calls of a symbol.
#[derive(Debug, Clone)]
pub struct EarningsCallsList {
    pub symbol: String,
    pub earnings_calls: Vec<EarningsCallListing>,
    pub total: usize,
}

/// A person speaking in a transcript.
#[derive(Debug, Clone)]
pub struct TranscriptSpeaker {
    pub name: String,
    pub role: Option<String>,
    pub company: Option<String>,
}

/// One paragraph of a transcript and who spoke it.
#[derive(Debug, Clone)]
pub struct TranscriptParagraph {
    pub speaker: String,
    pub text: String,
}

} // verus!
