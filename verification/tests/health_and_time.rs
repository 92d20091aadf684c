use a653rs::error::{
    ApexErrorP1, ApexErrorP1Ext, ApexErrorP4, ApexErrorP4Ext, ErrorCode,
    ErrorHandlerConcurrencyControl, ErrorStatus, MAX_ERROR_MESSAGE_SIZE,
};
use a653rs::memory_block::{
    ApexMemoryBlockP2, ApexMemoryBlockStatus, MemoryBlock, MemoryBlockMode,
};
use a653rs::partition::StartContext;
use a653rs::process::{StackSize, SystemAddress};
use a653rs::schedules::{
    ApexScheduleP2, ApexScheduleP2Ext, ApexScheduleStatus, ScheduleId, ScheduleStatus,
};
use a653rs::time::{ApexSystemTime, ApexTimeP1, ApexTimeP1Ext, ApexTimeP4, ApexTimeP4Ext, SystemTime};
use a653rs::types::{ApexByte, Error, ErrorReturnCode, Name, ProcessorCoreId};

#[derive(Debug)]
struct Hyp;

impl ApexErrorP4 for Hyp {
    fn report_application_message(_message: &[ApexByte]) -> Result<(), ErrorReturnCode> {
        Ok(())
    }

    fn raise_application_error(
        error_code: ErrorCode,
        _message: &[ApexByte],
    ) -> Result<(), ErrorReturnCode> {
        // only application errors may be raised from partition code
        assert_eq!(error_code, ErrorCode::ApplicationError);
        Ok(())
    }
}

impl ApexErrorP1 for Hyp {
    fn create_error_handler(
        _entry_point: SystemAddress,
        _stack_size: StackSize,
    ) -> Result<(), ErrorReturnCode> {
        Ok(())
    }

    fn get_error_status() -> Result<ErrorStatus, ErrorReturnCode> {
        Err(ErrorReturnCode::NoAction)
    }

    fn configure_error_handler(
        _concurrency_control: ErrorHandlerConcurrencyControl,
        _processor_core_id: ProcessorCoreId,
    ) -> Result<(), ErrorReturnCode> {
        Ok(())
    }
}

#[test]
fn error_reporting_checks_message_size() {
    assert_eq!(<Hyp as ApexErrorP4Ext>::report_application_message(&[1, 2, 3]), Ok(()));
    assert_eq!(
        <Hyp as ApexErrorP4Ext>::report_application_message(&[]),
        Err(Error::WriteError),
    );
    let too_long = [0u8; MAX_ERROR_MESSAGE_SIZE + 1];
    assert_eq!(
        <Hyp as ApexErrorP4Ext>::report_application_message(&too_long),
        Err(Error::WriteError),
    );
    assert_eq!(<Hyp as ApexErrorP4Ext>::raise_application_error(&[7]), Ok(()));
    assert_eq!(
        <Hyp as ApexErrorP4Ext>::raise_application_error(&too_long),
        Err(Error::WriteError),
    );
    // no error pending
    assert_eq!(<Hyp as ApexErrorP1Ext>::error_status(), Err(Error::NoAction));
}

#[test]
fn error_handler_setup() {
    let ctx: StartContext<Hyp> = StartContext::new();
    assert!(ctx.set_error_handler(SystemAddress(0), 4096).is_ok());
    assert!(ctx
        .configure_error_handler(ErrorHandlerConcurrencyControl::ProcessesPause, -1)
        .is_ok());
}

impl ApexScheduleP2 for Hyp {
    fn set_module_schedule(_schedule_id: ScheduleId) -> Result<(), ErrorReturnCode> {
        Ok(())
    }

    fn get_module_schedule_status() -> Result<ApexScheduleStatus, ErrorReturnCode> {
        Ok(ApexScheduleStatus {
            time_of_last_schedule_switch: 2_000_000_000,
            current_schedule: 1,
            next_schedule: 2,
        })
    }

    fn get_module_schedule_id(
        _schedule_name: a653rs::schedules::ScheduleName,
    ) -> Result<ScheduleId, ErrorReturnCode> {
        Ok(1)
    }
}

#[test]
fn schedule_status_abstracts_times() {
    assert!(<Hyp as ApexScheduleP2Ext>::set_module_schedule(1).is_ok());
    let status: ScheduleStatus = <Hyp as ApexScheduleP2Ext>::get_module_schedule_status().unwrap();
    assert_eq!(
        status.time_of_last_schedule_switch,
        SystemTime::Normal(a653rs::time::Duration { secs: 2, nanos: 0 }),
    );
    assert_eq!(status.current_schedule, 1);
    assert_eq!(
        <Hyp as ApexScheduleP2Ext>::get_module_schedule_id(Name::encode("s").unwrap().into_inner())
            .unwrap(),
        1,
    );
}

impl ApexTimeP4 for Hyp {
    fn periodic_wait() -> Result<(), ErrorReturnCode> {
        Err(ErrorReturnCode::InvalidMode)
    }

    fn get_time() -> ApexSystemTime {
        1_500_000_000
    }
}

impl ApexTimeP1 for Hyp {
    fn timed_wait(_delay_time: ApexSystemTime) -> Result<(), ErrorReturnCode> {
        Ok(())
    }

    fn replenish(_budget_time: ApexSystemTime) -> Result<(), ErrorReturnCode> {
        Err(ErrorReturnCode::NoAction)
    }
}

#[test]
fn time_operations_abstracted() {
    let now = <Hyp as ApexTimeP4Ext>::get_time();
    assert_eq!(now, SystemTime::Normal(a653rs::time::Duration { secs: 1, nanos: 500_000_000 }));
    assert_eq!(<Hyp as ApexTimeP4Ext>::periodic_wait(), Err(Error::InvalidMode));
    assert_eq!(
        <Hyp as ApexTimeP1Ext>::timed_wait(a653rs::time::Duration { secs: 0, nanos: 1 }),
        Ok(()),
    );
    assert_eq!(
        <Hyp as ApexTimeP1Ext>::replenish(a653rs::time::Duration { secs: 0, nanos: 1 }),
        Err(Error::NoAction),
    );
}

impl ApexMemoryBlockP2 for Hyp {
    fn get_memory_block_status(
        _name: a653rs::memory_block::MemoryBlockName,
    ) -> Result<ApexMemoryBlockStatus, ErrorReturnCode> {
        Ok(ApexMemoryBlockStatus {
            address: SystemAddress(0x1000),
            size: 64,
            mode: MemoryBlockMode::Read,
        })
    }
}

#[test]
fn memory_block_lookup() {
    let block = MemoryBlock::<Hyp>::from_name(Name::encode("MB").unwrap()).unwrap();
    assert_eq!(block.address(), SystemAddress(0x1000));
    assert_eq!(block.size(), 64);
    assert_eq!(block.mode(), MemoryBlockMode::Read);
}
