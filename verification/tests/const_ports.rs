use a653rs::partition::{
    ApexPartitionP4, ApexPartitionStatus, OperatingMode, Partition, PartitionExt, StartCondition,
    StartContext,
};
use a653rs::queuing::{
    ApexQueuingPortP4, ConstQueuingPortReceiver, ConstQueuingPortSender, QueuingPortId,
    QueuingPortReceiver, QueuingPortSender, QueuingPortStatus,
};
use a653rs::sampling::{
    ApexSamplingPortP4, ApexSamplingPortStatus, ConstSamplingPortDestination,
    ConstSamplingPortSource, SamplingPortDestination, SamplingPortId, SamplingPortSource,
    Validity,
};
use a653rs::time::{ApexSystemTime, Duration};
use a653rs::types::{ApexByte, Error, ErrorReturnCode, Name, PortDirection, QueuingDiscipline};

#[derive(Debug)]
struct Hyp;

impl ApexSamplingPortP4 for Hyp {
    fn create_sampling_port(
        _name: a653rs::sampling::SamplingPortName,
        _max_message_size: u32,
        _port_direction: PortDirection,
        _refresh_period: ApexSystemTime,
    ) -> Result<SamplingPortId, ErrorReturnCode> {
        Ok(1)
    }

    fn write_sampling_message(_id: SamplingPortId, _message: &[ApexByte]) -> Result<(), ErrorReturnCode> {
        Ok(())
    }

    fn read_sampling_message(
        _id: SamplingPortId,
        _message: &mut [ApexByte],
    ) -> Result<(Validity, u32), ErrorReturnCode> {
        Ok((Validity::Invalid, 0))
    }
}

impl ApexQueuingPortP4 for Hyp {
    fn create_queuing_port(
        _name: a653rs::queuing::QueuingPortName,
        _max_message_size: u32,
        _max_nb_message: u32,
        _port_direction: PortDirection,
        _queuing_discipline: QueuingDiscipline,
    ) -> Result<QueuingPortId, ErrorReturnCode> {
        Ok(2)
    }

    fn send_queuing_message(
        _id: QueuingPortId,
        _message: &[ApexByte],
        _time_out: ApexSystemTime,
    ) -> Result<(), ErrorReturnCode> {
        Ok(())
    }

    fn receive_queuing_message(
        _id: QueuingPortId,
        _time_out: ApexSystemTime,
        _message: &mut [ApexByte],
    ) -> Result<(u32, bool), ErrorReturnCode> {
        Ok((0, false))
    }

    fn get_queuing_port_status(_id: QueuingPortId) -> Result<QueuingPortStatus, ErrorReturnCode> {
        Ok(QueuingPortStatus {
            nb_message: 0,
            max_nb_message: 8,
            max_message_size: 16,
            port_direction: PortDirection::Source,
            waiting_processes: 0,
        })
    }

    fn clear_queuing_port(_id: QueuingPortId) -> Result<(), ErrorReturnCode> {
        Ok(())
    }
}

#[test]
fn const_sampling_ports_pin_their_size() {
    let mut ctx: StartContext<Hyp> = StartContext::new();
    let source: ConstSamplingPortSource<16, Hyp> = ctx
        .create_const_sampling_port_source::<16>(Name::encode("Cs").unwrap())
        .unwrap();
    assert_eq!(source.port().size(), 16);

    let dest: ConstSamplingPortDestination<16, Hyp> = ctx
        .create_const_sampling_port_destination::<16>(
            Name::encode("Cd").unwrap(),
            Duration { secs: 1, nanos: 0 },
        )
        .unwrap();
    assert_eq!(dest.port().size(), 16);
    assert_eq!(dest.port().refresh_period(), Duration { secs: 1, nanos: 0 });

    // pinning an untyped port of another size is a configuration error
    let untyped = ctx.create_sampling_port_source(Name::encode("U").unwrap(), 8).unwrap();
    let pinned = ConstSamplingPortSource::<16, Hyp>::try_from(untyped);
    assert_eq!(pinned.unwrap_err(), Error::InvalidConfig);

    let matching = ctx.create_sampling_port_source(Name::encode("V").unwrap(), 16).unwrap();
    assert!(ConstSamplingPortSource::<16, Hyp>::try_from(matching).is_ok());
}

#[test]
fn const_queuing_ports_pin_size_and_depth() {
    let mut ctx: StartContext<Hyp> = StartContext::new();
    let tx: ConstQueuingPortSender<16, 8, Hyp> = ctx
        .create_const_queuing_port_sender::<16, 8>(
            Name::encode("Cq").unwrap(),
            QueuingDiscipline::Fifo,
        )
        .unwrap();
    assert_eq!(tx.port().size(), 16);
    assert_eq!(tx.port().range(), 8);
    assert_eq!(tx.into_inner().id(), 2);

    let rx: ConstQueuingPortReceiver<16, 8, Hyp> = ctx
        .create_const_queuing_port_receiver::<16, 8>(
            Name::encode("Cr").unwrap(),
            QueuingDiscipline::Priority,
        )
        .unwrap();
    assert_eq!(rx.port().size(), 16);

    let untyped = ctx
        .create_queuing_port_sender(Name::encode("W").unwrap(), 16, 4, QueuingDiscipline::Fifo)
        .unwrap();
    // the depth does not match the pinned one
    let pinned = ConstQueuingPortSender::<16, 8, Hyp>::try_from(untyped);
    assert_eq!(pinned.unwrap_err(), Error::InvalidConfig);
}

/// A hypervisor that starts warm.
struct WarmHypervisor;

impl ApexPartitionP4 for WarmHypervisor {
    fn get_partition_status() -> ApexPartitionStatus {
        ApexPartitionStatus {
            period: 0,
            duration: 0,
            identifier: 2,
            lock_level: 0,
            operating_mode: OperatingMode::WarmStart,
            start_condition: StartCondition::PartitionRestart,
            num_assigned_cores: 1,
        }
    }

    fn set_partition_mode(_operating_mode: OperatingMode) -> Result<(), ErrorReturnCode> {
        Ok(())
    }
}

struct WarmProbe {
    warm_ran: std::rc::Rc<core::cell::Cell<bool>>,
}

impl<H: ApexPartitionP4> Partition<H> for WarmProbe {
    fn cold_start(&self, _ctx: &mut StartContext<H>) {}

    fn warm_start(&self, _ctx: &mut StartContext<H>) {
        self.warm_ran.set(true);
    }
}

#[test]
fn lifecycle_dispatches_warm_start() {
    let warm_ran = std::rc::Rc::new(core::cell::Cell::new(false));
    let part = WarmProbe { warm_ran: warm_ran.clone() };
    let r = <WarmProbe as PartitionExt<WarmHypervisor>>::run(part);
    assert_eq!(r, Ok(()));
    assert!(warm_ran.get());
}

#[test]
fn sampling_lookup_decides_on_direction() {
    let source_status = ApexSamplingPortStatus {
        refresh_period: 1_000_000,
        max_message_size: 64,
        port_direction: PortDirection::Source,
        last_msg_validity: Validity::Invalid,
    };
    let port = SamplingPortSource::<Hyp>::from_status(9, &source_status).unwrap();
    assert_eq!(port.id(), 9);
    assert_eq!(port.size(), 64);
    // the same status refuses a destination handle
    assert_eq!(
        SamplingPortDestination::<Hyp>::from_status(9, &source_status).unwrap_err(),
        Error::InvalidConfig,
    );

    let dest_status = ApexSamplingPortStatus {
        refresh_period: 500_000_000,
        max_message_size: 32,
        port_direction: PortDirection::Destination,
        last_msg_validity: Validity::Valid,
    };
    let dest = SamplingPortDestination::<Hyp>::from_status(4, &dest_status).unwrap();
    assert_eq!(dest.id(), 4);
    assert_eq!(dest.size(), 32);
    assert_eq!(dest.refresh_period(), Duration { secs: 0, nanos: 500_000_000 });
    assert_eq!(
        SamplingPortSource::<Hyp>::from_status(4, &dest_status).unwrap_err(),
        Error::InvalidConfig,
    );

    // a negative, hence infinite, refresh period refuses the destination
    let infinite = ApexSamplingPortStatus { refresh_period: -1, ..dest_status };
    assert_eq!(
        SamplingPortDestination::<Hyp>::from_status(4, &infinite).unwrap_err(),
        Error::InvalidConfig,
    );
}

#[test]
fn queuing_lookup_decides_on_direction() {
    let status = QueuingPortStatus {
        nb_message: 1,
        max_nb_message: 12,
        max_message_size: 48,
        port_direction: PortDirection::Source,
        waiting_processes: 0,
    };
    let tx = QueuingPortSender::<Hyp>::from_status(5, &status).unwrap();
    assert_eq!(tx.id(), 5);
    assert_eq!(tx.size(), 48);
    assert_eq!(tx.range(), 12);
    assert_eq!(
        QueuingPortReceiver::<Hyp>::from_status(5, &status).unwrap_err(),
        Error::InvalidConfig,
    );
}
