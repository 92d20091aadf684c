//! Partition management: operating modes, the partition status, the
//! hypervisor partition operations, and the two-phase lifecycle that first
//! runs a cold or warm start function and then enters normal operation.

use vstd::prelude::*;
use crate::types::{ApexLongInteger, ApexUnsigned, Error, ErrorReturnCode};
use crate::time::{ApexSystemTime, SystemTime};
use crate::process::LockLevel;

verus! {

pub type PartitionId = ApexLongInteger;

pub type NumCores = ApexUnsigned;

#[derive(Copy, Clone, Debug, PartialEq, Eq, Structural)]
pub enum OperatingMode {
    Idle,
    ColdStart,
    WarmStart,
    Normal,
}

impl OperatingMode {
    /// `0` idle, `1` cold start, `2` warm start, `3` normal; anything else
    /// is handed back.
    pub fn try_from(value: ApexUnsigned) -> (r: Result<Self, ApexUnsigned>)
        ensures
            value == 0 ==> r == Ok::<Self, ApexUnsigned>(OperatingMode::Idle),
            value == 1 ==> r == Ok::<Self, ApexUnsigned>(OperatingMode::ColdStart),
            value == 2 ==> r == Ok::<Self, ApexUnsigned>(OperatingMode::WarmStart),
            value == 3 ==> r == Ok::<Self, ApexUnsigned>(OperatingMode::Normal),
            value > 3 ==> r == Err::<Self, ApexUnsigned>(value),
    {
        match value {
            0 => Ok(OperatingMode::Idle),
            1 => Ok(OperatingMode::ColdStart),
            2 => Ok(OperatingMode::WarmStart),
            3 => Ok(OperatingMode::Normal),
            e => Err(e),
        }
    }
}

#[derive(Copy, Clone, Debug, PartialEq, Eq, Structural)]
pub enum StartCondition {
    NormalStart,
    PartitionRestart,
    HmModuleRestart,
    HmPartitionRestart,
}

impl StartCondition {
    pub fn try_from(value: ApexUnsigned) -> (r: Result<Self, ApexUnsigned>)
        ensures
            value == 0 ==> r == Ok::<Self, ApexUnsigned>(StartCondition::NormalStart),
            value == 1 ==> r == Ok::<Self, ApexUnsigned>(StartCondition::PartitionRestart),
            value == 2 ==> r == Ok::<Self, ApexUnsigned>(StartCondition::HmModuleRestart),
            value == 3 ==> r == Ok::<Self, ApexUnsigned>(StartCondition::HmPartitionRestart),
            value > 3 ==> r == Err::<Self, ApexUnsigned>(value),
    {
        match value {
            0 => Ok(StartCondition::NormalStart),
            1 => Ok(StartCondition::PartitionRestart),
            2 => Ok(StartCondition::HmModuleRestart),
            3 => Ok(StartCondition::HmPartitionRestart),
            e => Err(e),
        }
    }
}

/// The raw partition status as the hypervisor reports it.
#[derive(Copy, Clone, Debug, PartialEq, Eq, Structural)]
pub struct ApexPartitionStatus {
    pub period: ApexSystemTime,
    pub duration: ApexSystemTime,
    pub identifier: PartitionId,
    pub lock_level: LockLevel,
    pub operating_mode: OperatingMode,
    pub start_condition: StartCondition,
    pub num_assigned_cores: NumCores,
}

/// The abstracted partition status.
#[derive(Copy, Clone, Debug, PartialEq, Eq, Structural)]
pub struct PartitionStatus {
    pub period: SystemTime,
    pub duration: SystemTime,
    pub identifier: PartitionId,
    pub lock_level: LockLevel,
    pub operating_mode: OperatingMode,
    pub start_condition: StartCondition,
    pub num_assigned_cores: NumCores,
}

impl PartitionStatus {
    /// Abstracts the raw status field by field.
    pub fn from_apex(s: &ApexPartitionStatus) -> (r: PartitionStatus)
        ensures
            r.period == crate::time::spec_system_time_of(s.period),
            r.duration == crate::time::spec_system_time_of(s.duration),
            r.identifier == s.identifier,
            r.lock_level == s.lock_level,
            r.operating_mode == s.operating_mode,
            r.start_condition == s.start_condition,
            r.num_assigned_cores == s.num_assigned_cores,
    {
        PartitionStatus {
            period: SystemTime::new(s.period),
            duration: SystemTime::new(s.duration),
            identifier: s.identifier,
            lock_level: s.lock_level,
            operating_mode: s.operating_mode,
            start_condition: s.start_condition,
            num_assigned_cores: s.num_assigned_cores,
        }
    }
}

/// Required partition operations of every hypervisor.
pub trait ApexPartitionP4 {
    /// The current partition status; per the standard this never fails.
    fn get_partition_status() -> ApexPartitionStatus;

    fn set_partition_mode(operating_mode: OperatingMode) -> Result<(), ErrorReturnCode>;
}

/// The capability handed to the cold and warm start functions; all channel
/// and process creation goes through it, and it exists only during the
/// single-threaded start phase.
#[derive(Debug)]
pub struct StartContext<A> {
    _a: core::marker::PhantomData<A>,
}

impl<A> StartContext<A> {
    /// Hands out the start-phase capability; to be called only by the
    /// partition lifecycle (or a test standing in for it) while the
    /// partition is in a start mode.
    pub fn new() -> Self {
        StartContext { _a: core::marker::PhantomData }
    }
}

/// A partition body: its two start entry points, written by the user of the
/// generated scaffolding.
pub trait Partition<P>: Sized where P: ApexPartitionP4 {
    fn cold_start(&self, ctx: &mut StartContext<P>);

    fn warm_start(&self, ctx: &mut StartContext<P>);
}

/// Which start function an initial operating mode selects; modes other
/// than the two start modes select none and carry the error the lifecycle
/// reports for them.
pub open spec fn spec_start_dispatch(mode: OperatingMode) -> Result<OperatingMode, Error> {
    match mode {
        OperatingMode::ColdStart => Ok(OperatingMode::ColdStart),
        OperatingMode::WarmStart => Ok(OperatingMode::WarmStart),
        _ => Err(Error::InvalidMode),
    }
}

/// Decides which start function to run for an observed operating mode; the
/// standard guarantees a partition only ever begins in a start mode, so
/// any other mode is a fatal logic error, reported as `InvalidMode`.
pub fn start_dispatch(mode: OperatingMode) -> (r: Result<OperatingMode, Error>)
    ensures
        r == spec_start_dispatch(mode),
{
    match mode {
        OperatingMode::ColdStart => Ok(OperatingMode::ColdStart),
        OperatingMode::WarmStart => Ok(OperatingMode::WarmStart),
        _ => Err(Error::InvalidMode),
    }
}

/// Free extra operations for every implementer of [`Partition`].
pub trait PartitionExt<A>: Partition<A> where A: ApexPartitionP4 {
    fn get_status() -> PartitionStatus;

    /// Changes the partition mode. Do not call this with
    /// [`OperatingMode::Normal`] from a start function.
    fn set_mode(mode: OperatingMode) -> Result<(), Error>;

    /// Runs the two-phase lifecycle: dispatches on the current operating
    /// mode to the cold or warm start function, then moves the partition to
    /// normal operation and hands control back to the embedder, which
    /// yields to the hypervisor's scheduler. An error comes back only when
    /// the initial mode was no start mode, or the final mode switch failed.
    fn run(self) -> (r: Result<(), Error>)
        ensures
            r matches Err(e) ==> e != Error::WriteError && e != Error::ReadError;
}

impl<A, P> PartitionExt<A> for P where P: Partition<A>, A: ApexPartitionP4 {
    fn get_status() -> PartitionStatus {
        PartitionStatus::from_apex(&A::get_partition_status())
    }

    fn set_mode(mode: OperatingMode) -> Result<(), Error> {
        match A::set_partition_mode(mode) {
            Ok(()) => Ok(()),
            Err(e) => Err(Error::from(e)),
        }
    }

    fn run(self) -> (r: Result<(), Error>) {
        let mut ctx = StartContext::new();
        let status = Self::get_status();

        match start_dispatch(status.operating_mode) {
            Ok(OperatingMode::ColdStart) => self.cold_start(&mut ctx),
            Ok(_) => self.warm_start(&mut ctx),
            // Per the standard a partition never begins outside a start mode.
            Err(e) => {
                return Err(e);
            },
        }

        // Per the standard this cannot fail while in a start mode; a failure
        // is surfaced instead of discarded.
        match A::set_partition_mode(OperatingMode::Normal) {
            Ok(()) => Ok(()),
            Err(e) => Err(Error::from(e)),
        }
    }
}

} // verus!
