//! Ticks and news.

use vstd::prelude::*;

verus! {

/// What a tick reports.
#[derive(Debug, Clone, Copy, PartialEq, Eq, Structural)]
pub enum TickType {
    BidSize,
    Bid,
    Ask,
    AskSize,
    Last,
    LastSize,
    High,
    Low,
    Volume,
    Close,
    Open,
    Halted,
    BidOptionComputation,
    AskOptionComputation,
}

/// A news article.
#[derive(Debug, Clone)]
pub struct NewsArticle {
    pub article_id: String,
    pub headline: String,
    pub article_type: String,
    pub article_text: String,
    pub language: String,
    pub provider_code: String,
    pub provider_name: String,
    pub timestamp: i64,
}

} // verus!
