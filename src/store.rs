//! The application state and the reducer that applies load events to it.

use vstd::prelude::*;
use crate::entry::Mod;

verus! {

#[verifier::external_type_specification]
#[verifier::external_body]
pub struct ExInstant(instant::Instant);

/// Relies on instant::Instant::now: a reading of the monotonic clock, of which
/// nothing is promised here.
#[verifier::external_body]
fn start_instant() -> instant::Instant {
    instant::Instant::now()
}

/// Why the catalog could not be loaded.
#[derive(Clone, Debug, PartialEq, Eq)]
pub enum LoadError {
    /// The request could not complete.
    Transport(String),
    /// The response did not have the shape of a catalog.
    Decode(String),
}

/// What the last processed load event brought.
#[derive(Clone, Debug, PartialEq, Eq)]
pub enum Outcome {
    /// No load event has been processed yet.
    Pending,
    /// The catalog was loaded.
    Loaded,
    /// The last load failed.
    Failed(LoadError),
}

/// The events that drive the state.
#[derive(Debug, PartialEq, Eq)]
pub enum Msg {
    FetchData(Result<Vec<Mod>, LoadError>),
}

/// The application's lifecycle as seen from the state.
#[derive(PartialEq, Eq, Structural, Clone, Copy, Debug)]
pub enum Phase {
    /// No load issued yet.
    Uninitialized,
    /// A load was issued and its event has not arrived.
    Loading,
    /// A load event has been processed.
    Ready,
}

/// The single application state.
pub struct Model {
    /// Instant the application started.
    pub dt: instant::Instant,
    /// Number of catalog loads issued.
    pub data_requested: u32,
    /// The catalog, in the order of the source asset.
    pub data: Vec<Mod>,
    pub outcome: Outcome,
}

/// The mathematical value of the state, leaving out the start instant.
pub struct State {
    pub requested: u32,
    pub entries: Seq<Mod>,
    pub outcome: Outcome,
}

impl View for Model {
    type V = State;

    open spec fn view(&self) -> State {
        State { requested: self.data_requested, entries: self.data@, outcome: self.outcome }
    }
}

/// The mathematical value of an event.
pub open spec fn event_model(m: Msg) -> Result<Seq<Mod>, LoadError> {
    match m {
        Msg::FetchData(Ok(v)) => Ok(v@),
        Msg::FetchData(Err(e)) => Err(e),
    }
}

/// The state after one load event: a catalog replaces the entries; a failure
/// is recorded and leaves the entries as they were.
pub open spec fn step(s: State, ev: Result<Seq<Mod>, LoadError>) -> State {
    match ev {
        Ok(es) => State { entries: es, outcome: Outcome::Loaded, ..s },
        Err(e) => State { outcome: Outcome::Failed(e), ..s },
    }
}

/// The state after a sequence of load events, applied in order.
pub open spec fn apply_all(s: State, events: Seq<Result<Seq<Mod>, LoadError>>) -> State
    decreases events.len(),
{
    if events.len() == 0 {
        s
    } else {
        step(apply_all(s, events.drop_last()), events.last())
    }
}

pub open spec fn phase_of(s: State) -> Phase {
    if !(s.outcome is Pending) {
        Phase::Ready
    } else if s.requested == 0 {
        Phase::Uninitialized
    } else {
        Phase::Loading
    }
}

impl Default for Model {
    fn default() -> (r: Self)
        ensures
            r@ == (State { requested: 0, entries: Seq::empty(), outcome: Outcome::Pending }),
    {
        Model { dt: start_instant(), data_requested: 0, data: Vec::new(), outcome: Outcome::Pending }
    }
}

impl Model {
    /// Where the application stands in its lifecycle.
    pub fn phase(&self) -> (r: Phase)
        ensures
            r == phase_of(self@),
    {
        match self.outcome {
            Outcome::Pending => if self.data_requested == 0 {
                Phase::Uninitialized
            } else {
                Phase::Loading
            },
            _ => Phase::Ready,
        }
    }

    /// Records that the catalog load is issued, the first time only; returns
    /// whether the caller is to issue it.
    pub fn begin_load(&mut self) -> (issue: bool)
        ensures
            issue == (old(self).data_requested == 0),
            final(self)@ == (if issue {
                State { requested: 1, ..old(self)@ }
            } else {
                old(self)@
            }),
            final(self).dt == old(self).dt,
    {
        if self.data_requested == 0 {
            self.data_requested = 1;
            true
        } else {
            false
        }
    }
}

/// Applies one event to the state.
pub fn update(msg: Msg, model: &mut Model)
    ensures
        final(model)@ == step(old(model)@, event_model(msg)),
        final(model).dt == old(model).dt,
{
    match msg {
        Msg::FetchData(Ok(data)) => {
            model.data = data;
            model.outcome = Outcome::Loaded;
        },
        Msg::FetchData(Err(e)) => {
            model.outcome = Outcome::Failed(e);
        },
    }
}

} // verus!
