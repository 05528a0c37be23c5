//! News-risk gate decision.
//!
//! The calendar feed itself is fetched and decoded by the caller; the
//! library decides, from the decoded events and today's date text, whether
//! trading is unsafe right now.

use vstd::prelude::*;

verus! {

/// One decoded calendar event. `date` carries the feed's own date text and
/// is compared verbatim against the caller's rendering of today.
pub struct NewsEvent {
    pub title: String,
    pub country: String,
    pub date: String,
    pub impact: String,
}

/// Whether one event halts trading: a high-impact USD or EUR event dated
/// today.
pub open spec fn is_danger_event(e: NewsEvent, today: Seq<char>) -> bool {
    &&& (e.country@ == "USD"@ || e.country@ == "EUR"@)
    &&& e.impact@ == "High"@
    &&& e.date@ == today
}

/// Decides whether any decoded calendar event halts trading today.
pub fn danger_in_events(events: &Vec<NewsEvent>, today: &String) -> (r: bool)
    ensures
        r == exists|i: int| 0 <= i < events@.len() && is_danger_event(#[trigger] events@[i], today@),
{
    let usd = "USD".to_owned();
    let eur = "EUR".to_owned();
    let high = "High".to_owned();
    let n = events.len();
    let mut i: usize = 0;
    while i < n
        invariant
            n == events@.len(),
            0 <= i <= n,
            usd@ == "USD"@,
            eur@ == "EUR"@,
            high@ == "High"@,
            forall|j: int| 0 <= j < i ==> !is_danger_event(#[trigger] events@[j], today@),
        decreases n - i,
    {
        let e = &events[i];
        if (e.country == usd || e.country == eur) && e.impact == high && e.date == *today {
            return true;
        }
        i = i + 1;
    }
    false
}

} // verus!
