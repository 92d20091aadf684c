//! Module schedules: switching between preconfigured partition schedules.

use vstd::prelude::*;
use crate::types::{ApexLongInteger, ApexName, Error, ErrorReturnCode};
use crate::time::{ApexSystemTime, SystemTime};

verus! {

pub type ScheduleName = ApexName;

pub type ScheduleId = ApexLongInteger;

/// The raw schedule status as the hypervisor reports it.
#[derive(Copy, Clone, Debug, PartialEq, Eq, Structural)]
pub struct ApexScheduleStatus {
    pub time_of_last_schedule_switch: ApexSystemTime,
    pub current_schedule: ScheduleId,
    pub next_schedule: ScheduleId,
}

/// The abstracted schedule status.
#[derive(Copy, Clone, Debug, PartialEq, Eq, Structural)]
pub struct ScheduleStatus {
    pub time_of_last_schedule_switch: SystemTime,
    pub current_schedule: ScheduleId,
    pub next_schedule: ScheduleId,
}

impl ScheduleStatus {
    /// Abstracts the raw status field by field.
    pub fn from_apex(s: &ApexScheduleStatus) -> (r: ScheduleStatus)
        ensures
            r.time_of_last_schedule_switch == crate::time::spec_system_time_of(
                s.time_of_last_schedule_switch,
            ),
            r.current_schedule == s.current_schedule,
            r.next_schedule == s.next_schedule,
    {
        ScheduleStatus {
            time_of_last_schedule_switch: SystemTime::new(s.time_of_last_schedule_switch),
            current_schedule: s.current_schedule,
            next_schedule: s.next_schedule,
        }
    }
}

/// Required schedule operations of a schedule-switching hypervisor.
pub trait ApexScheduleP2 {
    fn set_module_schedule(schedule_id: ScheduleId) -> Result<(), ErrorReturnCode>;

    fn get_module_schedule_status() -> Result<ApexScheduleStatus, ErrorReturnCode>;

    fn get_module_schedule_id(schedule_name: ScheduleName) -> Result<ScheduleId, ErrorReturnCode>;
}

/// Free extra operations for every implementer of [`ApexScheduleP2`].
pub trait ApexScheduleP2Ext {
    fn set_module_schedule(schedule_id: ScheduleId) -> (r: Result<(), Error>)
        ensures
            r matches Err(e) ==> e != Error::WriteError && e != Error::ReadError,
    ;

    fn get_module_schedule_status() -> (r: Result<ScheduleStatus, Error>)
        ensures
            r matches Err(e) ==> e != Error::WriteError && e != Error::ReadError,
    ;

    fn get_module_schedule_id(schedule_name: ScheduleName) -> (r: Result<ScheduleId, Error>)
        ensures
            r matches Err(e) ==> e != Error::WriteError && e != Error::ReadError,
    ;
}

impl<T: ApexScheduleP2> ApexScheduleP2Ext for T {
    fn set_module_schedule(schedule_id: ScheduleId) -> Result<(), Error> {
        match <T as ApexScheduleP2>::set_module_schedule(schedule_id) {
            Ok(()) => Ok(()),
            Err(e) => Err(Error::from(e)),
        }
    }

    fn get_module_schedule_status() -> Result<ScheduleStatus, Error> {
        match <T as ApexScheduleP2>::get_module_schedule_status() {
            Ok(s) => Ok(ScheduleStatus::from_apex(&s)),
            Err(e) => Err(Error::from(e)),
        }
    }

    fn get_module_schedule_id(schedule_name: ScheduleName) -> Result<ScheduleId, Error> {
        match <T as ApexScheduleP2>::get_module_schedule_id(schedule_name) {
            Ok(id) => Ok(id),
            Err(e) => Err(Error::from(e)),
        }
    }
}

} // verus!
