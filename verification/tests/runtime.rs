use std::rc::Rc;
use core::cell::Cell;

use a653rs::partition::{
    ApexPartitionP4, ApexPartitionStatus, OperatingMode, Partition, PartitionExt, StartCondition,
    StartContext,
};
use a653rs::sampling::{ApexSamplingPortP4, SamplingPortId, Validity};
use a653rs::time::{ApexSystemTime, Duration, SystemTime};
use a653rs::types::{
    validate_read, validate_write, ApexByte, Error, ErrorReturnCode, Name, PortDirection,
    QueuingDiscipline,
};

/// A hypervisor whose port table is empty: every creation succeeds.
#[derive(Debug)]
struct FreshHypervisor;

impl ApexSamplingPortP4 for FreshHypervisor {
    fn create_sampling_port(
        _name: a653rs::sampling::SamplingPortName,
        _max_message_size: u32,
        _port_direction: PortDirection,
        _refresh_period: ApexSystemTime,
    ) -> Result<SamplingPortId, ErrorReturnCode> {
        Ok(7)
    }

    fn write_sampling_message(_id: SamplingPortId, _message: &[ApexByte]) -> Result<(), ErrorReturnCode> {
        Ok(())
    }

    fn read_sampling_message(
        _id: SamplingPortId,
        message: &mut [ApexByte],
    ) -> Result<(Validity, u32), ErrorReturnCode> {
        let n = message.len().min(3);
        for b in message.iter_mut().take(n) {
            *b = 0xAB;
        }
        Ok((Validity::Valid, n as u32))
    }
}

/// A hypervisor on which the port name exists already, as after a first
/// creation: per the standard it answers `NoAction`.
#[derive(Debug)]
struct OccupiedHypervisor;

impl ApexSamplingPortP4 for OccupiedHypervisor {
    fn create_sampling_port(
        _name: a653rs::sampling::SamplingPortName,
        _max_message_size: u32,
        _port_direction: PortDirection,
        _refresh_period: ApexSystemTime,
    ) -> Result<SamplingPortId, ErrorReturnCode> {
        Err(ErrorReturnCode::NoAction)
    }

    fn write_sampling_message(_id: SamplingPortId, _message: &[ApexByte]) -> Result<(), ErrorReturnCode> {
        Err(ErrorReturnCode::NotAvailable)
    }

    fn read_sampling_message(
        _id: SamplingPortId,
        _message: &mut [ApexByte],
    ) -> Result<(Validity, u32), ErrorReturnCode> {
        Err(ErrorReturnCode::NotAvailable)
    }
}

#[test]
fn create_sampling_port_once_then_occupied() {
    // on a fresh hypervisor the creation succeeds once
    let mut ctx: StartContext<FreshHypervisor> = StartContext::new();
    let port = ctx.create_sampling_port_source(Name::encode("Ch1").unwrap(), 10_000).unwrap();
    assert_eq!(port.id(), 7);
    assert_eq!(port.size(), 10_000);

    // once the name exists, the hypervisor's uniqueness check reports
    // NoAction, which the wrapper hands through
    let mut again: StartContext<OccupiedHypervisor> = StartContext::new();
    let err = again
        .create_sampling_port_source(Name::encode("Ch1").unwrap(), 10_000)
        .unwrap_err();
    assert_eq!(err, Error::NoAction);
}

#[test]
fn checked_send_validates_buffer() {
    let mut ctx: StartContext<FreshHypervisor> = StartContext::new();
    let port = ctx.create_sampling_port_source(Name::encode("Tx").unwrap(), 4).unwrap();

    assert_eq!(port.send(&[]), Err(Error::WriteError));
    assert_eq!(port.send(&[1, 2, 3, 4, 5]), Err(Error::WriteError));
    assert_eq!(port.send(&[1, 2, 3]), Ok(()));
}

#[test]
fn checked_receive_validates_buffer() {
    let mut ctx: StartContext<FreshHypervisor> = StartContext::new();
    let port = ctx
        .create_sampling_port_destination(
            Name::encode("Rx").unwrap(),
            4,
            Duration { secs: 0, nanos: 500_000_000 },
        )
        .unwrap();
    assert_eq!(port.refresh_period(), Duration { secs: 0, nanos: 500_000_000 });

    let mut small = [0u8; 2];
    assert_eq!(port.receive(&mut small).unwrap_err(), Error::ReadError);

    let mut buffer = [0u8; 8];
    let (validity, message) = port.receive(&mut buffer).unwrap();
    assert_eq!(validity, Validity::Valid);
    assert_eq!(message, &[0xAB, 0xAB, 0xAB]);
}

#[test]
fn buffer_validation_rules() {
    assert!(validate_write(&[1, 2], 4).is_ok());
    assert_eq!(validate_write(&[], 4), Err(Error::WriteError));
    assert_eq!(validate_write(&[0; 5], 4), Err(Error::WriteError));

    assert!(validate_read(&[0; 4], 4).is_ok());
    assert!(validate_read(&[0; 9], 4).is_ok());
    assert_eq!(validate_read(&[0; 3], 4), Err(Error::ReadError));
}

#[test]
fn return_code_mapping() {
    assert_eq!(ErrorReturnCode::from(0), Ok(()));
    assert_eq!(ErrorReturnCode::from(1), Err(ErrorReturnCode::NoAction));
    assert_eq!(ErrorReturnCode::from(3), Err(ErrorReturnCode::InvalidParam));
    assert_eq!(ErrorReturnCode::from(6), Err(ErrorReturnCode::TimedOut));
    assert_eq!(Error::from(ErrorReturnCode::TimedOut), Error::TimedOut);
}

#[test]
fn enumeration_conversions() {
    assert_eq!(PortDirection::try_from(0), Ok(PortDirection::Source));
    assert_eq!(PortDirection::try_from(1), Ok(PortDirection::Destination));
    assert_eq!(PortDirection::try_from(9), Err(9));
    assert_eq!(QueuingDiscipline::try_from(1), Ok(QueuingDiscipline::Priority));
    assert_eq!(OperatingMode::try_from(3), Ok(OperatingMode::Normal));
    assert_eq!(StartCondition::try_from(2), Ok(StartCondition::HmModuleRestart));
}

#[test]
fn system_time_conversions() {
    assert_eq!(SystemTime::new(-1), SystemTime::Infinite);
    assert_eq!(SystemTime::new(-500), SystemTime::Infinite);
    let t = SystemTime::new(1_500_000_000);
    assert_eq!(t, SystemTime::Normal(Duration { secs: 1, nanos: 500_000_000 }));
    assert_eq!(t.to_apex(), 1_500_000_000);
    assert_eq!(SystemTime::Infinite.to_apex(), -1);
    assert_eq!(t.unwrap_duration(), Duration { secs: 1, nanos: 500_000_000 });
    assert_eq!(t.to_duration(), Some(Duration { secs: 1, nanos: 500_000_000 }));
    assert_eq!(SystemTime::Infinite.to_duration(), None);
}

#[test]
fn duration_arithmetic() {
    assert_eq!(Duration::from_millis(1500), Duration { secs: 1, nanos: 500_000_000 });
    assert_eq!(Duration::from_nanos(2_000_000_001), Duration { secs: 2, nanos: 1 });
    assert_eq!(Duration::from_secs(3).as_nanos(), 3_000_000_000);
    assert!(Duration { secs: 0, nanos: 0 }.is_zero());
    assert!(!Duration { secs: 0, nanos: 1 }.is_zero());
}

/// A hypervisor that starts cold and accepts the mode switch.
struct ColdHypervisor;

impl ApexPartitionP4 for ColdHypervisor {
    fn get_partition_status() -> ApexPartitionStatus {
        ApexPartitionStatus {
            period: 0,
            duration: 0,
            identifier: 1,
            lock_level: 0,
            operating_mode: OperatingMode::ColdStart,
            start_condition: StartCondition::NormalStart,
            num_assigned_cores: 1,
        }
    }

    fn set_partition_mode(_operating_mode: OperatingMode) -> Result<(), ErrorReturnCode> {
        Ok(())
    }
}

/// A hypervisor already in normal operation: no start mode to dispatch on.
struct NormalHypervisor;

impl ApexPartitionP4 for NormalHypervisor {
    fn get_partition_status() -> ApexPartitionStatus {
        ApexPartitionStatus {
            period: 0,
            duration: 0,
            identifier: 1,
            lock_level: 0,
            operating_mode: OperatingMode::Normal,
            start_condition: StartCondition::NormalStart,
            num_assigned_cores: 1,
        }
    }

    fn set_partition_mode(_operating_mode: OperatingMode) -> Result<(), ErrorReturnCode> {
        Ok(())
    }
}

struct RecordingPartition {
    cold_ran: Rc<Cell<bool>>,
    warm_ran: Rc<Cell<bool>>,
}

impl<H: ApexPartitionP4> Partition<H> for RecordingPartition {
    fn cold_start(&self, _ctx: &mut StartContext<H>) {
        self.cold_ran.set(true);
    }

    fn warm_start(&self, _ctx: &mut StartContext<H>) {
        self.warm_ran.set(true);
    }
}

#[test]
fn lifecycle_dispatches_cold_start() {
    let cold_ran = Rc::new(Cell::new(false));
    let warm_ran = Rc::new(Cell::new(false));
    let part = RecordingPartition { cold_ran: cold_ran.clone(), warm_ran: warm_ran.clone() };
    let r = <RecordingPartition as PartitionExt<ColdHypervisor>>::run(part);
    assert_eq!(r, Ok(()));
    assert!(cold_ran.get());
    assert!(!warm_ran.get());
}

#[test]
fn lifecycle_rejects_non_start_mode() {
    let cold_ran = Rc::new(Cell::new(false));
    let warm_ran = Rc::new(Cell::new(false));
    let part = RecordingPartition { cold_ran: cold_ran.clone(), warm_ran: warm_ran.clone() };
    let r = <RecordingPartition as PartitionExt<NormalHypervisor>>::run(part);
    assert_eq!(r, Err(Error::InvalidMode));
    assert!(!cold_ran.get());
    assert!(!warm_ran.get());
}

#[test]
fn partition_status_abstracts_times() {
    let status = <RecordingPartition as PartitionExt<ColdHypervisor>>::get_status();
    assert_eq!(status.operating_mode, OperatingMode::ColdStart);
    assert_eq!(status.period, SystemTime::Normal(Duration { secs: 0, nanos: 0 }));
    assert_eq!(status.identifier, 1);
}
