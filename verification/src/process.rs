//! Process management: attributes, the hypervisor process operations, and
//! the typed process handle.

use vstd::prelude::*;
use crate::types::{
    ApexInteger, ApexLongInteger, ApexName, ApexUnsigned, Error, ErrorReturnCode, Name,
    ProcessorCoreId,
};
use crate::time::{ApexSystemTime, SystemTime};
use crate::partition::StartContext;

verus! {

pub type ProcessName = ApexName;

pub type ProcessIndex = ApexInteger;

pub type StackSize = ApexUnsigned;

pub type Priority = ApexInteger;

pub const MIN_PRIORITY_VALUE: Priority = 1;

pub const MAX_PRIORITY_VALUE: Priority = 239;

pub type LockLevel = ApexInteger;

pub const MIN_LOCK_LEVEL: LockLevel = 0;

pub const MAX_LOCK_LEVEL: LockLevel = 16;

/// The entry address of a process body. The embedder maps it to the actual
/// machine-level entry symbol; the library only carries it through.
#[derive(Copy, Clone, Debug, PartialEq, Eq, Structural)]
pub struct SystemAddress(pub usize);

pub type ProcessId = ApexLongInteger;

pub const NULL_PROCESS_ID: ProcessId = 0;

pub const MAIN_PROCESS_ID: ProcessId = -1;

#[derive(Copy, Clone, Debug, PartialEq, Eq, Structural)]
pub enum ProcessState {
    Dormant,
    Ready,
    Running,
    Waiting,
    Faulted,
}

/// Whether missing a process's time budget is tolerated or a fault.
#[derive(Copy, Clone, Debug, PartialEq, Eq, Structural)]
pub enum Deadline {
    Soft,
    Hard,
}

/// The raw process attributes as handed to the hypervisor.
#[derive(Copy, Clone, Debug, PartialEq, Eq)]
pub struct ApexProcessAttribute {
    pub period: ApexSystemTime,
    pub time_capacity: ApexSystemTime,
    pub entry_point: SystemAddress,
    pub stack_size: StackSize,
    pub base_priority: Priority,
    pub deadline: Deadline,
    pub name: ProcessName,
}

/// The raw process status as the hypervisor reports it.
#[derive(Copy, Clone, Debug, PartialEq, Eq)]
pub struct ApexProcessStatus {
    pub deadline_time: ApexSystemTime,
    pub current_priority: Priority,
    pub process_state: ProcessState,
    pub attributes: ApexProcessAttribute,
}

/// The abstracted process attributes.
#[derive(Copy, Clone, Debug, PartialEq, Eq)]
pub struct ProcessAttribute {
    pub period: SystemTime,
    pub time_capacity: SystemTime,
    pub entry_point: SystemAddress,
    pub stack_size: StackSize,
    pub base_priority: Priority,
    pub deadline: Deadline,
    pub name: Name,
}

impl ProcessAttribute {
    /// Lowers the attributes to their raw form field by field.
    pub fn to_apex(&self) -> (r: ApexProcessAttribute)
        ensures
            r.period == match self.period {
                SystemTime::Infinite => crate::time::INFINITE_TIME_VALUE as int,
                SystemTime::Normal(d) => if crate::time::dur_nanos(d) <= i64::MAX {
                    crate::time::dur_nanos(d)
                } else {
                    crate::time::INFINITE_TIME_VALUE as int
                },
            },
            r.time_capacity == match self.time_capacity {
                SystemTime::Infinite => crate::time::INFINITE_TIME_VALUE as int,
                SystemTime::Normal(d) => if crate::time::dur_nanos(d) <= i64::MAX {
                    crate::time::dur_nanos(d)
                } else {
                    crate::time::INFINITE_TIME_VALUE as int
                },
            },
            r.entry_point == self.entry_point,
            r.stack_size == self.stack_size,
            r.base_priority == self.base_priority,
            r.deadline == self.deadline,
            r.name@ == self.name@,
    {
        ApexProcessAttribute {
            period: self.period.to_apex(),
            time_capacity: self.time_capacity.to_apex(),
            entry_point: self.entry_point,
            stack_size: self.stack_size,
            base_priority: self.base_priority,
            deadline: self.deadline,
            name: self.name.into_inner(),
        }
    }
}

/// The abstracted process status.
#[derive(Copy, Clone, Debug, PartialEq, Eq)]
pub struct ProcessStatus {
    pub deadline_time: SystemTime,
    pub current_priority: Priority,
    pub process_state: ProcessState,
    pub attributes: ProcessAttribute,
}

impl ProcessStatus {
    /// Abstracts the raw status field by field.
    pub fn from_apex(s: &ApexProcessStatus) -> (r: ProcessStatus)
        ensures
            r.deadline_time == crate::time::spec_system_time_of(s.deadline_time),
            r.current_priority == s.current_priority,
            r.process_state == s.process_state,
            r.attributes.period == crate::time::spec_system_time_of(s.attributes.period),
            r.attributes.time_capacity == crate::time::spec_system_time_of(
                s.attributes.time_capacity,
            ),
            r.attributes.entry_point == s.attributes.entry_point,
            r.attributes.stack_size == s.attributes.stack_size,
            r.attributes.base_priority == s.attributes.base_priority,
            r.attributes.deadline == s.attributes.deadline,
            r.attributes.name@ == s.attributes.name@,
    {
        ProcessStatus {
            deadline_time: SystemTime::new(s.deadline_time),
            current_priority: s.current_priority,
            process_state: s.process_state,
            attributes: ProcessAttribute {
                period: SystemTime::new(s.attributes.period),
                time_capacity: SystemTime::new(s.attributes.time_capacity),
                entry_point: s.attributes.entry_point,
                stack_size: s.attributes.stack_size,
                base_priority: s.attributes.base_priority,
                deadline: s.attributes.deadline,
                name: Name::new(s.attributes.name),
            },
        }
    }
}

/// Required process operations of every hypervisor.
pub trait ApexProcessP4 {
    /// Registers a process under its attributes; only valid during a start
    /// mode.
    fn create_process(attributes: &ApexProcessAttribute) -> Result<ProcessId, ErrorReturnCode>;

    fn start(process_id: ProcessId) -> Result<(), ErrorReturnCode>;
}

/// Extended process operations of a full hypervisor.
pub trait ApexProcessP1: ApexProcessP4 {
    fn set_priority(process_id: ProcessId, priority: Priority) -> Result<(), ErrorReturnCode>;

    fn suspend_self(time_out: ApexSystemTime) -> Result<(), ErrorReturnCode>;

    fn suspend(process_id: ProcessId) -> Result<(), ErrorReturnCode>;

    fn resume(process_id: ProcessId) -> Result<(), ErrorReturnCode>;

    fn stop_self();

    fn stop(process_id: ProcessId) -> Result<(), ErrorReturnCode>;

    fn delayed_start(process_id: ProcessId, delay_time: ApexSystemTime) -> Result<
        (),
        ErrorReturnCode,
    >;

    fn lock_preemption() -> Result<LockLevel, ErrorReturnCode>;

    fn unlock_preemption() -> Result<LockLevel, ErrorReturnCode>;

    fn get_my_id() -> Result<ProcessId, ErrorReturnCode>;

    fn get_process_id(process_name: ProcessName) -> Result<ProcessId, ErrorReturnCode>;

    fn get_process_status(process_id: ProcessId) -> Result<ApexProcessStatus, ErrorReturnCode>;

    /// Only valid during a start mode.
    fn initialize_process_core_affinity(
        process_id: ProcessId,
        processor_core_id: ProcessorCoreId,
    ) -> Result<(), ErrorReturnCode>;

    fn get_my_processor_core_id() -> ProcessorCoreId;

    fn get_my_index() -> Result<ProcessIndex, ErrorReturnCode>;
}

/// A typed handle on a created process.
#[derive(Debug)]
pub struct Process<P: ApexProcessP4> {
    _p: core::marker::PhantomData<P>,
    id: ProcessId,
}

impl<P: ApexProcessP4> Process<P> {
    /// The identifier this handle wraps.
    pub closed spec fn spec_id(&self) -> ProcessId {
        self.id
    }
}

impl<P: ApexProcessP4> Clone for Process<P> {
    fn clone(&self) -> (r: Self)
        ensures
            r.spec_id() == self.spec_id(),
    {
        Process { _p: self._p, id: self.id }
    }
}

/// Free extra operations for every implementer of [`ApexProcessP1`].
pub trait ApexProcessP1Ext: ApexProcessP4 + Sized {
    /// Looks a process up by name.
    fn get_process(name: Name) -> (r: Result<Process<Self>, Error>)
        ensures
            r matches Err(e) ==> e != Error::WriteError && e != Error::ReadError,
    ;
}

impl<P: ApexProcessP1> ApexProcessP1Ext for P {
    fn get_process(name: Name) -> Result<Process<P>, Error> {
        match P::get_process_id(name.into_inner()) {
            Ok(id) => Ok(Process { _p: core::marker::PhantomData, id }),
            Err(e) => Err(Error::from(e)),
        }
    }
}

impl<P: ApexProcessP4> Process<P> {
    pub fn start(&self) -> (r: Result<(), Error>)
        ensures
            r matches Err(e) ==> e != Error::WriteError && e != Error::ReadError,
    {
        match P::start(self.id) {
            Ok(()) => Ok(()),
            Err(e) => Err(Error::from(e)),
        }
    }

    pub fn id(&self) -> (r: ProcessId)
        ensures
            r == self.spec_id(),
    {
        self.id
    }
}

impl<P: ApexProcessP1> Process<P> {
    pub fn from_name(name: Name) -> (r: Result<Process<P>, Error>)
        ensures
            r matches Err(e) ==> e != Error::WriteError && e != Error::ReadError,
    {
        P::get_process(name)
    }

    pub fn get_self() -> (r: Result<Process<P>, Error>)
        ensures
            r matches Err(e) ==> e != Error::WriteError && e != Error::ReadError,
    {
        match P::get_my_id() {
            Ok(id) => Ok(Process { _p: core::marker::PhantomData, id }),
            Err(e) => Err(Error::from(e)),
        }
    }

    pub fn set_priority(&self, priority: Priority) -> (r: Result<(), Error>)
        ensures
            r matches Err(e) ==> e != Error::WriteError && e != Error::ReadError,
    {
        match P::set_priority(self.id, priority) {
            Ok(()) => Ok(()),
            Err(e) => Err(Error::from(e)),
        }
    }

    pub fn suspend_self(time_out: SystemTime) -> (r: Result<(), Error>)
        ensures
            r matches Err(e) ==> e != Error::WriteError && e != Error::ReadError,
    {
        match P::suspend_self(time_out.to_apex()) {
            Ok(()) => Ok(()),
            Err(e) => Err(Error::from(e)),
        }
    }

    pub fn suspend(&self) -> (r: Result<(), Error>)
        ensures
            r matches Err(e) ==> e != Error::WriteError && e != Error::ReadError,
    {
        match P::suspend(self.id) {
            Ok(()) => Ok(()),
            Err(e) => Err(Error::from(e)),
        }
    }

    pub fn resume(&self) -> (r: Result<(), Error>)
        ensures
            r matches Err(e) ==> e != Error::WriteError && e != Error::ReadError,
    {
        match P::resume(self.id) {
            Ok(()) => Ok(()),
            Err(e) => Err(Error::from(e)),
        }
    }

    pub fn stop_self() {
        P::stop_self()
    }

    pub fn stop(&self) -> (r: Result<(), Error>)
        ensures
            r matches Err(e) ==> e != Error::WriteError && e != Error::ReadError,
    {
        match P::stop(self.id) {
            Ok(()) => Ok(()),
            Err(e) => Err(Error::from(e)),
        }
    }

    pub fn delayed_start(&self, delay_time: SystemTime) -> (r: Result<(), Error>)
        ensures
            r matches Err(e) ==> e != Error::WriteError && e != Error::ReadError,
    {
        match P::delayed_start(self.id, delay_time.to_apex()) {
            Ok(()) => Ok(()),
            Err(e) => Err(Error::from(e)),
        }
    }

    pub fn lock_preemption() -> (r: Result<LockLevel, Error>)
        ensures
            r matches Err(e) ==> e != Error::WriteError && e != Error::ReadError,
    {
        match P::lock_preemption() {
            Ok(l) => Ok(l),
            Err(e) => Err(Error::from(e)),
        }
    }

    pub fn unlock_preemption() -> (r: Result<LockLevel, Error>)
        ensures
            r matches Err(e) ==> e != Error::WriteError && e != Error::ReadError,
    {
        match P::unlock_preemption() {
            Ok(l) => Ok(l),
            Err(e) => Err(Error::from(e)),
        }
    }

    /// The status of this process. Per the standard the query can only fail
    /// for an unknown identifier; since this handle's identifier came from
    /// the hypervisor, a failure is surfaced as an error rather than
    /// swallowed.
    pub fn status(&self) -> (r: Result<ProcessStatus, Error>)
        ensures
            r matches Err(e) ==> e != Error::WriteError && e != Error::ReadError,
    {
        match P::get_process_status(self.id) {
            Ok(s) => Ok(ProcessStatus::from_apex(&s)),
            Err(e) => Err(Error::from(e)),
        }
    }

    pub fn get_my_processor_core_id() -> ProcessorCoreId {
        P::get_my_processor_core_id()
    }

    pub fn get_my_index() -> (r: Result<ProcessIndex, Error>)
        ensures
            r matches Err(e) ==> e != Error::WriteError && e != Error::ReadError,
    {
        match P::get_my_index() {
            Ok(i) => Ok(i),
            Err(e) => Err(Error::from(e)),
        }
    }
}

impl<P: ApexProcessP4> StartContext<P> {
    /// Registers a process under its attributes and hands back its handle.
    pub fn create_process(&mut self, attr: &ProcessAttribute) -> (r: Result<Process<P>, Error>)
        ensures
            r matches Err(e) ==> e != Error::WriteError && e != Error::ReadError,
    {
        match P::create_process(&attr.to_apex()) {
            Ok(id) => Ok(Process { _p: core::marker::PhantomData, id }),
            Err(e) => Err(Error::from(e)),
        }
    }
}

impl<P: ApexProcessP1> StartContext<P> {
    /// Pins a process to a processor core; only valid during a start mode.
    pub fn initialize_process_core_affinity(
        &self,
        process: &Process<P>,
        processor_core_id: ProcessorCoreId,
    ) -> (r: Result<(), Error>)
        ensures
            r matches Err(e) ==> e != Error::WriteError && e != Error::ReadError,
    {
        match P::initialize_process_core_affinity(process.id(), processor_core_id) {
            Ok(()) => Ok(()),
            Err(e) => Err(Error::from(e)),
        }
    }
}

} // verus!
