//! Properties that relate the reducer and the view deriver.

use vstd::prelude::*;
use crate::entry::{card_model, Mod};
use crate::page::{cards_of, failure_notice_model, page_model, sections_of};
use crate::store::{apply_all, phase_of, step, LoadError, Outcome, Phase, State};

verus! {

/// After any sequence of load events whose last one delivered `entries`, the
/// page lists exactly one card per entry, in the order of `entries`.
pub proof fn lemma_cards_follow_entries(
    s: State,
    events: Seq<Result<Seq<Mod>, LoadError>>,
    entries: Seq<Mod>,
)
    requires
        events.len() > 0,
        events.last() == Ok::<Seq<Mod>, LoadError>(entries),
    ensures
        cards_of(page_model(apply_all(s, events))).len() == entries.len(),
        forall|i: int|
            0 <= i < entries.len() ==> #[trigger] cards_of(page_model(apply_all(s, events)))[i]
                == card_model(entries[i]),
{
    let t = apply_all(s, events);
    assert(t.entries == entries);
    let page = page_model(t);
    assert(sections_of(page).len() >= 3);
}

/// Rendering is a function of the state: two states with the same entries and
/// the same outcome give identical pages, so rendering one state twice does too.
pub proof fn lemma_render_deterministic(a: State, b: State)
    requires
        a.entries == b.entries,
        a.outcome == b.outcome,
    ensures
        page_model(a) == page_model(b),
{
}

/// A failed load is recorded and rendered: the state moves to its ready phase,
/// keeps its entries and its load count, and its page ends with the failure notice.
pub proof fn lemma_failure_is_rendered(s: State, e: LoadError)
    ensures
        step(s, Err(e)).outcome == Outcome::Failed(e),
        step(s, Err(e)).entries == s.entries,
        step(s, Err(e)).requested == s.requested,
        phase_of(step(s, Err(e))) == Phase::Ready,
        sections_of(page_model(step(s, Err(e)))).len() == 4,
        sections_of(page_model(step(s, Err(e))))[3] == failure_notice_model(),
        cards_of(page_model(step(s, Err(e)))).len() == s.entries.len(),
{
}

/// Every load event leaves the application in its ready phase.
pub proof fn lemma_event_makes_ready(s: State, ev: Result<Seq<Mod>, LoadError>)
    ensures
        phase_of(step(s, ev)) == Phase::Ready,
{
}

} // verus!
