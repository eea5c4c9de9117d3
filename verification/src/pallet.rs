use vstd::prelude::*;

use crate::error::Error;
use crate::event::{Event, EventSink};
use crate::origin::{ensure_signed, Origin};
use crate::storage::Something;

verus! {

/// What the host supplies to the module.
pub trait Config: Sized {
    /// How the host names an authenticated caller.
    type AccountId;

    /// The host's event type, into which the module's events are routed.
    type RuntimeEvent: From<Event<Self>>;
}

/// All that an observer can see of the module: what the storage slot holds and
/// the events recorded so far, the oldest first.
pub struct State<T: Config> {
    pub something: Option<u32>,
    pub events: Seq<Event<T>>,
}

impl<T: Config> State<T> {
    /// The state before the first call.
    pub open spec fn init() -> Self {
        State { something: None, events: Seq::empty() }
    }

    /// Slot and log agree: the slot is empty as long as nothing was recorded,
    /// and afterwards it holds the number of the newest event.
    pub open spec fn consistent(self) -> bool {
        match self.something {
            None => self.events.len() == 0,
            Some(value) => self.events.len() > 0 && self.events.last()->something == value,
        }
    }

    /// The state that a call of `do_something` leaves behind: a signed call
    /// writes its number and records that; any other call changes nothing.
    pub open spec fn do_something(self, origin: Origin<T::AccountId>, something: u32) -> Self {
        match origin.signer() {
            Some(who) => State {
                something: Some(something),
                events: self.events.push(Event::SomethingStored { something, who }),
            },
            None => self,
        }
    }

    /// The state after the calls of `calls`, made in that order on a module
    /// that nobody has called before. Each call is an origin and a number.
    pub open spec fn after_calls(calls: Seq<(Origin<T::AccountId>, u32)>) -> Self
        decreases calls.len(),
    {
        if calls.len() == 0 {
            Self::init()
        } else {
            Self::after_calls(calls.drop_last()).do_something(calls.last().0, calls.last().1)
        }
    }
}

/// Nothing is written and nothing recorded before the first call, and so slot
/// and log agree.
pub proof fn lemma_init_is_consistent<T: Config>()
    ensures
        State::<T>::init().something is None,
        State::<T>::init().events.len() == 0,
        State::<T>::init().consistent(),
{
}

/// Slot and log go on agreeing over every call, whoever makes it.
pub proof fn lemma_call_keeps_consistent<T: Config>(
    state: State<T>,
    origin: Origin<T::AccountId>,
    something: u32,
)
    requires
        state.consistent(),
    ensures
        state.do_something(origin, something).consistent(),
{
}

/// Whatever calls were made, in whatever order and by whomever: slot and log
/// agree, and the log is no longer than the list of calls.
pub proof fn lemma_every_reachable_state_is_consistent<T: Config>(
    calls: Seq<(Origin<T::AccountId>, u32)>,
)
    ensures
        State::<T>::after_calls(calls).consistent(),
        State::<T>::after_calls(calls).events.len() <= calls.len(),
    decreases calls.len(),
{
    if calls.len() > 0 {
        lemma_every_reachable_state_is_consistent::<T>(calls.drop_last());
        lemma_call_keeps_consistent(
            State::<T>::after_calls(calls.drop_last()),
            calls.last().0,
            calls.last().1,
        );
    }
}

/// A write and its event come together or not at all. A call that recorded
/// nothing left the slot as it was; a call that recorded anything recorded one
/// event, at the end of the log, with the number that the slot now holds.
pub proof fn lemma_write_and_event_go_together<T: Config>(
    state: State<T>,
    origin: Origin<T::AccountId>,
    something: u32,
)
    ensures
        ({
            let next = state.do_something(origin, something);
            &&& next.events == state.events ==> next == state
            &&& next.events != state.events ==> {
                &&& next.events.len() == state.events.len() + 1
                &&& next.events.drop_last() == state.events
                &&& next.something == Some(next.events.last()->something)
            }
        }),
{
    let next = state.do_something(origin, something);
    if origin.signer() is Some {
        assert(next.events.len() == state.events.len() + 1);
        assert(next.events.drop_last() =~= state.events);
    }
}

/// Two signed calls from one origin, one after the other: the slot holds the
/// number of the second, and the log has grown by the two events, in the order
/// of the calls, also where the two numbers are the same.
pub proof fn lemma_second_write_wins<T: Config>(
    state: State<T>,
    origin: Origin<T::AccountId>,
    first: u32,
    second: u32,
)
    requires
        origin.signer() is Some,
    ensures
        ({
            let who = origin.signer()->Some_0;
            let last = state.do_something(origin, first).do_something(origin, second);
            &&& last.something == Some(second)
            &&& last.events.len() == state.events.len() + 2
            &&& last.events == state.events.push(Event::SomethingStored { something: first, who }).push(
                Event::SomethingStored { something: second, who },
            )
        }),
{
}

/// The module: its storage slot and the log of its events.
pub struct Pallet<T: Config> {
    something: Something,
    events: EventSink<T>,
}

impl<T: Config> View for Pallet<T> {
    type V = State<T>;

    closed spec fn view(&self) -> State<T> {
        State { something: self.something@, events: self.events@ }
    }
}

impl<T: Config> Pallet<T> {
    /// The module before the first call: the slot holds no value, the log no event.
    pub fn new() -> (r: Self)
        ensures
            r@ == State::<T>::init(),
            r@.something is None,
            r@.consistent(),
    {
        Pallet { something: Something::new(), events: EventSink::new() }
    }

    /// What the storage slot holds.
    pub fn something(&self) -> (r: Option<u32>)
        ensures
            r == self@.something,
    {
        self.something.get()
    }

    /// The events recorded so far, the oldest first.
    pub fn events(&self) -> (r: &Vec<Event<T>>)
        ensures
            r@ == self@.events,
    {
        self.events.records()
    }

    /// The module's one call. Where `origin` names a signer, `something` is
    /// written over whatever the slot held, one event that names the number
    /// and the signer is recorded, and the call succeeds. Any other origin is
    /// turned down with [`Error::BadOrigin`] before anything is touched.
    pub fn do_something(&mut self, origin: Origin<T::AccountId>, something: u32) -> (r: Result<
        (),
        Error,
    >)
        ensures
            final(self)@ == old(self)@.do_something(origin, something),
            origin.signer() matches Some(who) ==> r is Ok
                && final(self)@.something == Some(something)
                && final(self)@.events == old(self)@.events.push(
                Event::SomethingStored { something, who },
            ),
            origin.signer() is None ==> r === Err(Error::BadOrigin)
                && final(self)@ == old(self)@,
            old(self)@.consistent() ==> final(self)@.consistent(),
    {
        let who = match ensure_signed(origin) {
            Ok(who) => who,
            Err(e) => {
                return Err(e);
            },
        };
        self.something.put(something);
        self.events.record(Event::SomethingStored { something, who });
        Ok(())
    }
}

} // verus!
