//! Events: partition-internal signals that processes can wait on.

use vstd::prelude::*;
use crate::types::{ApexLongInteger, ApexName, Error, ErrorReturnCode, Name, WaitingRange};
use crate::time::{ApexSystemTime, SystemTime};
use crate::partition::StartContext;

verus! {

pub type EventName = ApexName;

pub type EventId = ApexLongInteger;

#[derive(Copy, Clone, Debug, PartialEq, Eq, Structural)]
pub enum EventState {
    /// inactive
    Down,
    /// active
    Up,
}

#[derive(Copy, Clone, Debug, PartialEq, Eq, Structural)]
pub struct EventStatus {
    pub event_state: EventState,
    pub waiting_processes: WaitingRange,
}

/// Required event operations of every hypervisor.
pub trait ApexEventP1 {
    /// Registers an event; only valid during a start mode.
    fn create_event(event_name: EventName) -> Result<EventId, ErrorReturnCode>;

    /// Changes the event state to [`EventState::Up`].
    fn set_event(event_id: EventId) -> Result<(), ErrorReturnCode>;

    /// Changes the event state to [`EventState::Down`].
    fn reset_event(event_id: EventId) -> Result<(), ErrorReturnCode>;

    fn wait_event(event_id: EventId, time_out: ApexSystemTime) -> Result<(), ErrorReturnCode>;

    fn get_event_id(event_name: EventName) -> Result<EventId, ErrorReturnCode>;

    fn get_event_status(event_id: EventId) -> Result<EventStatus, ErrorReturnCode>;
}

/// A typed handle on a created event.
#[derive(Debug)]
pub struct Event<E: ApexEventP1> {
    _b: core::marker::PhantomData<E>,
    id: EventId,
}

impl<E: ApexEventP1> Event<E> {
    pub closed spec fn spec_id(&self) -> EventId {
        self.id
    }
}

impl<E: ApexEventP1> Clone for Event<E> {
    fn clone(&self) -> (r: Self)
        ensures
            r.spec_id() == self.spec_id(),
    {
        Event { _b: self._b, id: self.id }
    }
}

/// Free extra operations for every implementer of [`ApexEventP1`].
pub trait ApexEventP1Ext: ApexEventP1 + Sized {
    /// Looks an event up by name.
    fn get_event(name: Name) -> (r: Result<Event<Self>, Error>)
        ensures
            r matches Err(e) ==> e != Error::WriteError && e != Error::ReadError,
    ;
}

impl<E: ApexEventP1> ApexEventP1Ext for E {
    fn get_event(name: Name) -> Result<Event<E>, Error> {
        match E::get_event_id(name.into_inner()) {
            Ok(id) => Ok(Event { _b: core::marker::PhantomData, id }),
            Err(e) => Err(Error::from(e)),
        }
    }
}

impl<E: ApexEventP1> Event<E> {
    pub fn from_name(name: Name) -> (r: Result<Event<E>, Error>)
        ensures
            r matches Err(e) ==> e != Error::WriteError && e != Error::ReadError,
    {
        E::get_event(name)
    }

    pub fn id(&self) -> (r: EventId)
        ensures
            r == self.spec_id(),
    {
        self.id
    }

    /// Raises the event. Per the standard this can only fail for an
    /// unknown identifier; since this handle's identifier came from the
    /// hypervisor, a failure is surfaced as an error.
    pub fn set(&self) -> (r: Result<(), Error>)
        ensures
            r matches Err(e) ==> e != Error::WriteError && e != Error::ReadError,
    {
        match E::set_event(self.id) {
            Ok(()) => Ok(()),
            Err(e) => Err(Error::from(e)),
        }
    }

    /// Lowers the event; see [`Event::set`] on the error case.
    pub fn reset(&self) -> (r: Result<(), Error>)
        ensures
            r matches Err(e) ==> e != Error::WriteError && e != Error::ReadError,
    {
        match E::reset_event(self.id) {
            Ok(()) => Ok(()),
            Err(e) => Err(Error::from(e)),
        }
    }

    /// Waits for this event to be raised.
    pub fn wait(&self, timeout: SystemTime) -> (r: Result<(), Error>)
        ensures
            r matches Err(e) ==> e != Error::WriteError && e != Error::ReadError,
    {
        match E::wait_event(self.id, timeout.to_apex()) {
            Ok(()) => Ok(()),
            Err(e) => Err(Error::from(e)),
        }
    }

    /// The current event status; see [`Event::set`] on the error case.
    pub fn status(&self) -> (r: Result<EventStatus, Error>)
        ensures
            r matches Err(e) ==> e != Error::WriteError && e != Error::ReadError,
    {
        match E::get_event_status(self.id) {
            Ok(s) => Ok(s),
            Err(e) => Err(Error::from(e)),
        }
    }
}

impl<E: ApexEventP1> StartContext<E> {
    /// Registers an event; only valid during a start mode.
    pub fn create_event(&mut self, name: Name) -> (r: Result<Event<E>, Error>)
        ensures
            r matches Err(e) ==> e != Error::WriteError && e != Error::ReadError,
    {
        match E::create_event(name.into_inner()) {
            Ok(id) => Ok(Event { _b: core::marker::PhantomData, id }),
            Err(e) => Err(Error::from(e)),
        }
    }
}

} // verus!
