//! Mutexes: priority-ceiling locks shared inside a partition.

use vstd::prelude::*;
use crate::types::{
    ApexInteger, ApexLongInteger, ApexName, Error, ErrorReturnCode, Name, QueuingDiscipline,
    WaitingRange,
};
use crate::time::{ApexSystemTime, SystemTime};
use crate::process::{ApexProcessP4, Priority, Process, ProcessId};
use crate::partition::StartContext;

verus! {

pub type MutexName = ApexName;

pub type MutexId = ApexLongInteger;

pub type LockCount = ApexInteger;

pub const NO_MUTEX_OWNED: MutexId = -2;

pub const PREEMPTION_LOCK_MUTEX: MutexId = -3;

#[derive(Copy, Clone, Debug, PartialEq, Eq, Structural)]
pub enum MutexState {
    Available,
    Owned,
}

#[derive(Copy, Clone, Debug, PartialEq, Eq, Structural)]
pub struct MutexStatus {
    pub mutex_owner: ProcessId,
    pub mutex_state: MutexState,
    pub mutex_priority: Priority,
    pub lock_count: LockCount,
    pub waiting_processes: WaitingRange,
}

/// What a raw "owned mutex" identifier stands for: the two sentinel values
/// or the identifier of an owned mutex.
#[derive(Copy, Clone, Debug, PartialEq, Eq, Structural)]
pub enum MutexOwnedStatus {
    Owned(MutexId),
    NoMutexOwned,
    PreemptionLockMutex,
}

impl MutexOwnedStatus {
    pub fn from(value: MutexId) -> (r: MutexOwnedStatus)
        ensures
            value == NO_MUTEX_OWNED ==> r == MutexOwnedStatus::NoMutexOwned,
            value == PREEMPTION_LOCK_MUTEX ==> r == MutexOwnedStatus::PreemptionLockMutex,
            value != NO_MUTEX_OWNED && value != PREEMPTION_LOCK_MUTEX ==> r
                == MutexOwnedStatus::Owned(value),
    {
        if value == NO_MUTEX_OWNED {
            MutexOwnedStatus::NoMutexOwned
        } else if value == PREEMPTION_LOCK_MUTEX {
            MutexOwnedStatus::PreemptionLockMutex
        } else {
            MutexOwnedStatus::Owned(value)
        }
    }
}

/// Required mutex operations of every hypervisor. They presuppose working
/// process management, since resetting a mutex and querying a process's
/// mutex state name a process.
pub trait ApexMutexP1: ApexProcessP4 {
    /// Registers a mutex; only valid during a start mode.
    fn create_mutex(
        mutex_name: MutexName,
        mutex_priority: Priority,
        queuing_discipline: QueuingDiscipline,
    ) -> Result<MutexId, ErrorReturnCode>;

    fn acquire_mutex(mutex_id: MutexId, time_out: ApexSystemTime) -> Result<(), ErrorReturnCode>;

    fn release_mutex(mutex_id: MutexId) -> Result<(), ErrorReturnCode>;

    fn reset_mutex(mutex_id: MutexId, process_id: ProcessId) -> Result<(), ErrorReturnCode>;

    fn get_mutex_id(mutex_name: MutexName) -> Result<MutexId, ErrorReturnCode>;

    fn get_mutex_status(mutex_id: MutexId) -> Result<MutexStatus, ErrorReturnCode>;

    fn get_process_mutex_state(process_id: ProcessId) -> Result<MutexId, ErrorReturnCode>;
}

/// A typed handle on a created mutex.
#[derive(Debug)]
pub struct Mutex<M: ApexMutexP1> {
    _b: core::marker::PhantomData<M>,
    id: MutexId,
    priority: Priority,
}

impl<M: ApexMutexP1> Mutex<M> {
    pub closed spec fn spec_id(&self) -> MutexId {
        self.id
    }

    pub closed spec fn spec_priority(&self) -> Priority {
        self.priority
    }
}

impl<M: ApexMutexP1> Clone for Mutex<M> {
    fn clone(&self) -> (r: Self)
        ensures
            r.spec_id() == self.spec_id(),
            r.spec_priority() == self.spec_priority(),
    {
        Mutex { _b: self._b, id: self.id, priority: self.priority }
    }
}

/// Free extra operations for every implementer of [`ApexMutexP1`].
pub trait ApexMutexP1Ext: ApexMutexP1 + Sized {
    /// Looks a mutex up by name.
    fn get_mutex(name: Name) -> (r: Result<Mutex<Self>, Error>)
        ensures
            r matches Err(e) ==> e != Error::WriteError && e != Error::ReadError,
    ;
}

impl<M: ApexMutexP1> ApexMutexP1Ext for M {
    fn get_mutex(name: Name) -> Result<Mutex<M>, Error> {
        let id = match M::get_mutex_id(name.into_inner()) {
            Ok(id) => id,
            Err(e) => {
                return Err(Error::from(e));
            },
        };
        // Per the standard the status query can only fail for an unknown
        // identifier; this one came from the hypervisor a moment ago, so a
        // failure is surfaced instead of swallowed.
        match M::get_mutex_status(id) {
            Ok(status) => Ok(Mutex::from_status(id, &status)),
            Err(e) => Err(Error::from(e)),
        }
    }
}

impl<M: ApexMutexP1> Mutex<M> {
    /// Builds the handle that a successful lookup records, pinned to the
    /// identifier and the priority the reported status carries.
    pub fn from_status(id: MutexId, status: &MutexStatus) -> (r: Mutex<M>)
        ensures
            r.spec_id() == id,
            r.spec_priority() == status.mutex_priority,
    {
        Mutex { _b: core::marker::PhantomData, id, priority: status.mutex_priority }
    }

    pub fn from_name(name: Name) -> (r: Result<Mutex<M>, Error>)
        ensures
            r matches Err(e) ==> e != Error::WriteError && e != Error::ReadError,
    {
        M::get_mutex(name)
    }

    pub fn id(&self) -> (r: MutexId)
        ensures
            r == self.spec_id(),
    {
        self.id
    }

    pub fn priority(&self) -> (r: Priority)
        ensures
            r == self.spec_priority(),
    {
        self.priority
    }

    pub fn acquire(&self, timeout: SystemTime) -> (r: Result<(), Error>)
        ensures
            r matches Err(e) ==> e != Error::WriteError && e != Error::ReadError,
    {
        match M::acquire_mutex(self.id, timeout.to_apex()) {
            Ok(()) => Ok(()),
            Err(e) => Err(Error::from(e)),
        }
    }

    pub fn release(&self) -> (r: Result<(), Error>)
        ensures
            r matches Err(e) ==> e != Error::WriteError && e != Error::ReadError,
    {
        match M::release_mutex(self.id) {
            Ok(()) => Ok(()),
            Err(e) => Err(Error::from(e)),
        }
    }

    /// Forces the mutex free on behalf of the owning process.
    pub fn reset(&self, process: &Process<M>) -> (r: Result<(), Error>)
        ensures
            r matches Err(e) ==> e != Error::WriteError && e != Error::ReadError,
    {
        match M::reset_mutex(self.id, process.id()) {
            Ok(()) => Ok(()),
            Err(e) => Err(Error::from(e)),
        }
    }

    /// The current mutex status. Per the standard the query can only fail
    /// for an unknown identifier; since this handle's identifier came from
    /// the hypervisor, a failure is surfaced as an error.
    pub fn status(&self) -> (r: Result<MutexStatus, Error>)
        ensures
            r matches Err(e) ==> e != Error::WriteError && e != Error::ReadError,
    {
        match M::get_mutex_status(self.id) {
            Ok(s) => Ok(s),
            Err(e) => Err(Error::from(e)),
        }
    }
}

impl<A: ApexMutexP1> Process<A> {
    /// Which mutex this process holds, if any; see [`Mutex::status`] on
    /// the error case.
    pub fn get_process_mutex_state(&self) -> (r: Result<MutexOwnedStatus, Error>)
        ensures
            r matches Err(e) ==> e != Error::WriteError && e != Error::ReadError,
    {
        match A::get_process_mutex_state(self.id()) {
            Ok(id) => Ok(MutexOwnedStatus::from(id)),
            Err(e) => Err(Error::from(e)),
        }
    }
}

impl<M: ApexMutexP1> StartContext<M> {
    /// Registers a mutex; on success the handle records the priority it
    /// was created with.
    pub fn create_mutex(
        &mut self,
        name: Name,
        priority: Priority,
        qd: QueuingDiscipline,
    ) -> (r: Result<Mutex<M>, Error>)
        ensures
            r matches Ok(m) ==> m.spec_priority() == priority,
            r matches Err(e) ==> e != Error::WriteError && e != Error::ReadError,
    {
        match M::create_mutex(name.into_inner(), priority, qd) {
            Ok(id) => Ok(Mutex { _b: core::marker::PhantomData, id, priority }),
            Err(e) => Err(Error::from(e)),
        }
    }
}

} // verus!
