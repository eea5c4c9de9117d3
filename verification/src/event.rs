use vstd::prelude::*;
use vstd::std_specs::convert::FromSpec;

use crate::pallet::Config;

verus! {

/// What the module tells its observers.
#[derive(Clone, Debug, PartialEq, Eq)]
pub enum Event<T: Config> {
    /// `who` has written `something` into the storage slot.
    SomethingStored { something: u32, who: T::AccountId },
}

impl<T: Config> Event<T> {
    /// The event as the host represents it among the events of all its modules.
    /// The host's own conversion makes it; where that conversion states what it
    /// returns, this is the value.
    pub fn into_runtime_event(self) -> (r: T::RuntimeEvent)
        ensures
            T::RuntimeEvent::obeys_from_spec() ==> r == T::RuntimeEvent::from_spec(self),
    {
        T::RuntimeEvent::from(self)
    }
}

/// The log of events: it only grows, at its end. Its view is the events
/// recorded so far, the oldest first.
pub struct EventSink<T: Config> {
    records: Vec<Event<T>>,
}

impl<T: Config> View for EventSink<T> {
    type V = Seq<Event<T>>;

    closed spec fn view(&self) -> Seq<Event<T>> {
        self.records@
    }
}

impl<T: Config> EventSink<T> {
    /// A log with nothing in it.
    pub fn new() -> (r: Self)
        ensures
            r@ == Seq::<Event<T>>::empty(),
    {
        EventSink { records: Vec::new() }
    }

    /// Appends `event`. Equal events are all kept.
    pub fn record(&mut self, event: Event<T>)
        ensures
            final(self)@ == old(self)@.push(event),
    {
        self.records.push(event);
    }

    /// The events recorded so far, the oldest first.
    pub fn records(&self) -> (r: &Vec<Event<T>>)
        ensures
            r@ == self@,
    {
        &self.records
    }
}

} // verus!
