//! Data returned together with the event that was logged while producing it.
use crate::logging::event_entry::FinalizedEvent;
use vstd::prelude::*;

verus! {

/// Data, and the finalized event logged for it, if any.
pub struct LoggedData<T> {
    data: T,
    event: Option<FinalizedEvent>,
}

impl<T> LoggedData<T> {
    /// The data.
    pub closed spec fn data_spec(&self) -> T {
        self.data
    }

    /// The finalized event logged for the data.
    pub closed spec fn event_spec(&self) -> Option<FinalizedEvent> {
        self.event
    }

    /// The finalized event logged for the data, if any.
    pub fn event(&self) -> (r: &Option<FinalizedEvent>)
        ensures
            *r == self.event_spec(),
    {
        &self.event
    }

    /// The data.
    pub fn data(self) -> (r: T)
        ensures
            r == self.data_spec(),
    {
        self.data
    }

    /// A reference to the data.
    pub fn get(&self) -> (r: &T)
        ensures
            *r == self.data_spec(),
    {
        &self.data
    }
}

impl<T> From<T> for LoggedData<T> {
    /// The data `value`, for which no event was logged.
    fn from(value: T) -> (r: Self) {
        LoggedData { data: value, event: None }
    }
}

impl<T> vstd::std_specs::convert::FromSpecImpl<T> for LoggedData<T> {
    open spec fn obeys_from_spec() -> bool {
        true
    }

    open spec fn from_spec(v: T) -> Self {
        LoggedData::with_event(v, None)
    }
}

impl<T> From<(T, FinalizedEvent)> for LoggedData<T> {
    /// The data `value.0`, for which the event `value.1` was logged.
    fn from(value: (T, FinalizedEvent)) -> (r: Self) {
        LoggedData { data: value.0, event: Some(value.1) }
    }
}

impl<T> vstd::std_specs::convert::FromSpecImpl<(T, FinalizedEvent)> for LoggedData<T> {
    open spec fn obeys_from_spec() -> bool {
        true
    }

    open spec fn from_spec(v: (T, FinalizedEvent)) -> Self {
        LoggedData::with_event(v.0, Some(v.1))
    }
}

impl<T> LoggedData<T> {
    /// The data `data` with the optional event `event`.
    pub closed spec fn with_event(data: T, event: Option<FinalizedEvent>) -> Self {
        LoggedData { data, event }
    }

    /// The parts of data built from them.
    pub broadcast proof fn lemma_with_event(data: T, event: Option<FinalizedEvent>)
        ensures
            (#[trigger] LoggedData::with_event(data, event)).data_spec() == data,
            LoggedData::with_event(data, event).event_spec() == event,
    {
    }
}

} // verus!
