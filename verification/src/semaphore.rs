//! Counting semaphores shared inside a partition.

use vstd::prelude::*;
use crate::types::{
    ApexInteger, ApexLongInteger, ApexName, Error, ErrorReturnCode, Name, QueuingDiscipline,
    WaitingRange,
};
use crate::time::{ApexSystemTime, SystemTime};
use crate::partition::StartContext;

verus! {

pub type SemaphoreName = ApexName;

pub type SemaphoreId = ApexLongInteger;

pub type SemaphoreValue = ApexInteger;

#[derive(Copy, Clone, Debug, PartialEq, Eq, Structural)]
pub struct SemaphoreStatus {
    pub current_value: SemaphoreValue,
    pub maximum_value: SemaphoreValue,
    pub waiting_processes: WaitingRange,
}

/// Required semaphore operations of every hypervisor.
pub trait ApexSemaphoreP1 {
    /// Registers a semaphore; only valid during a start mode.
    fn create_semaphore(
        semaphore_name: SemaphoreName,
        current_value: SemaphoreValue,
        maximum_value: SemaphoreValue,
        queuing_discipline: QueuingDiscipline,
    ) -> Result<SemaphoreId, ErrorReturnCode>;

    fn wait_semaphore(semaphore_id: SemaphoreId, time_out: ApexSystemTime) -> Result<
        (),
        ErrorReturnCode,
    >;

    fn signal_semaphore(semaphore_id: SemaphoreId) -> Result<(), ErrorReturnCode>;

    fn get_semaphore_id(semaphore_name: SemaphoreName) -> Result<SemaphoreId, ErrorReturnCode>;

    fn get_semaphore_status(semaphore_id: SemaphoreId) -> Result<SemaphoreStatus, ErrorReturnCode>;
}

/// A typed handle on a created semaphore.
#[derive(Debug)]
pub struct Semaphore<S: ApexSemaphoreP1> {
    _b: core::marker::PhantomData<S>,
    id: SemaphoreId,
    maximum: SemaphoreValue,
}

impl<S: ApexSemaphoreP1> Semaphore<S> {
    pub closed spec fn spec_id(&self) -> SemaphoreId {
        self.id
    }

    pub closed spec fn spec_maximum(&self) -> SemaphoreValue {
        self.maximum
    }
}

impl<S: ApexSemaphoreP1> Clone for Semaphore<S> {
    fn clone(&self) -> (r: Self)
        ensures
            r.spec_id() == self.spec_id(),
            r.spec_maximum() == self.spec_maximum(),
    {
        Semaphore { _b: self._b, id: self.id, maximum: self.maximum }
    }
}

/// Free extra operations for every implementer of [`ApexSemaphoreP1`].
pub trait ApexSemaphoreP1Ext: ApexSemaphoreP1 + Sized {
    /// Looks a semaphore up by name.
    fn get_semaphore(name: Name) -> (r: Result<Semaphore<Self>, Error>)
        ensures
            r matches Err(e) ==> e != Error::WriteError && e != Error::ReadError,
    ;
}

impl<S: ApexSemaphoreP1> ApexSemaphoreP1Ext for S {
    fn get_semaphore(name: Name) -> Result<Semaphore<S>, Error> {
        let id = match S::get_semaphore_id(name.into_inner()) {
            Ok(id) => id,
            Err(e) => {
                return Err(Error::from(e));
            },
        };
        // Per the standard the status query can only fail for an unknown
        // identifier; this one came from the hypervisor a moment ago, so a
        // failure is surfaced instead of swallowed.
        match S::get_semaphore_status(id) {
            Ok(status) => Ok(
                Semaphore { _b: core::marker::PhantomData, id, maximum: status.maximum_value },
            ),
            Err(e) => Err(Error::from(e)),
        }
    }
}

impl<S: ApexSemaphoreP1> Semaphore<S> {
    pub fn from_name(name: Name) -> (r: Result<Semaphore<S>, Error>)
        ensures
            r matches Err(e) ==> e != Error::WriteError && e != Error::ReadError,
    {
        S::get_semaphore(name)
    }

    pub fn id(&self) -> (r: SemaphoreId)
        ensures
            r == self.spec_id(),
    {
        self.id
    }

    pub fn maximum(&self) -> (r: SemaphoreValue)
        ensures
            r == self.spec_maximum(),
    {
        self.maximum
    }

    pub fn wait(&self, timeout: SystemTime) -> (r: Result<(), Error>)
        ensures
            r matches Err(e) ==> e != Error::WriteError && e != Error::ReadError,
    {
        match S::wait_semaphore(self.id, timeout.to_apex()) {
            Ok(()) => Ok(()),
            Err(e) => Err(Error::from(e)),
        }
    }

    pub fn signal(&self) -> (r: Result<(), Error>)
        ensures
            r matches Err(e) ==> e != Error::WriteError && e != Error::ReadError,
    {
        match S::signal_semaphore(self.id) {
            Ok(()) => Ok(()),
            Err(e) => Err(Error::from(e)),
        }
    }

    /// The current counter value, read from the status.
    pub fn current(&self) -> (r: Result<SemaphoreValue, Error>)
        ensures
            r matches Err(e) ==> e != Error::WriteError && e != Error::ReadError,
    {
        match self.status() {
            Ok(s) => Ok(s.current_value),
            Err(e) => Err(e),
        }
    }

    /// The current semaphore status. Per the standard the query can only
    /// fail for an unknown identifier; since this handle's identifier came
    /// from the hypervisor, a failure is surfaced as an error.
    pub fn status(&self) -> (r: Result<SemaphoreStatus, Error>)
        ensures
            r matches Err(e) ==> e != Error::WriteError && e != Error::ReadError,
    {
        match S::get_semaphore_status(self.id) {
            Ok(s) => Ok(s),
            Err(e) => Err(Error::from(e)),
        }
    }
}

impl<S: ApexSemaphoreP1> StartContext<S> {
    /// Registers a semaphore; on success the handle records the maximum it
    /// was created with.
    pub fn create_semaphore(
        &mut self,
        name: Name,
        current: SemaphoreValue,
        maximum: SemaphoreValue,
        qd: QueuingDiscipline,
    ) -> (r: Result<Semaphore<S>, Error>)
        ensures
            r matches Ok(s) ==> s.spec_maximum() == maximum,
            r matches Err(e) ==> e != Error::WriteError && e != Error::ReadError,
    {
        match S::create_semaphore(name.into_inner(), current, maximum, qd) {
            Ok(id) => Ok(Semaphore { _b: core::marker::PhantomData, id, maximum }),
            Err(e) => Err(Error::from(e)),
        }
    }
}

} // verus!
