//! Article summaries from Wikipedia.

use vstd::prelude::*;

use crate::text::{replace_all, replace_text};

verus! {

/// A summary on one line: each line break becomes ` / `.
pub fn summary_text(extract: &str) -> (r: String)
    ensures
        r@ == replace_all(extract@, "\n"@, " / "@),
{
    proof {
        reveal_strlit("\n");
    }
    replace_text(extract, "\n", " / ")
}

/// How looking up a summary went: the search, then the article's summary.
#[derive(Debug)]
pub enum SummaryOutcome {
    /// The search request failed.
    SearchFailed,
    /// The search found no article, or the summary could not be had.
    LookupFailed,
    /// The summary of the article found.
    Found(String),
}

/// The reply to a summary request.
pub fn summary_reply(o: SummaryOutcome) -> (r: String)
    ensures
        r@ == match o {
            SummaryOutcome::SearchFailed => "Wikipedia API error"@,
            SummaryOutcome::LookupFailed => "API error"@,
            SummaryOutcome::Found(s) => s@,
        },
{
    match o {
        SummaryOutcome::SearchFailed => "Wikipedia API error".to_owned(),
        SummaryOutcome::LookupFailed => "API error".to_owned(),
        SummaryOutcome::Found(s) => s,
    }
}

} // verus!
