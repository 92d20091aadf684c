use a653rs::blackboard::{ApexBlackboardP1, BlackboardId, BlackboardStatus, EmptyIndicator};
use a653rs::buffer::{ApexBufferP1, BufferId, BufferStatus};
use a653rs::event::{ApexEventP1, EventId, EventState, EventStatus};
use a653rs::mutex::{ApexMutexP1, MutexId, MutexOwnedStatus, MutexState, MutexStatus};
use a653rs::partition::StartContext;
use a653rs::process::{
    ApexProcessAttribute, ApexProcessP4, ApexProcessStatus, Deadline, ProcessId, ProcessState,
    SystemAddress,
};
use a653rs::queuing::{ApexQueuingPortP4, QueuingPortId, QueuingPortStatus};
use a653rs::semaphore::{ApexSemaphoreP1, SemaphoreId, SemaphoreStatus};
use a653rs::time::{ApexSystemTime, SystemTime};
use a653rs::types::{
    ApexByte, Error, ErrorReturnCode, Name, PortDirection, QueuingDiscipline, WaitingRange,
};

#[derive(Debug)]
struct Hyp;

impl ApexQueuingPortP4 for Hyp {
    fn create_queuing_port(
        _name: a653rs::queuing::QueuingPortName,
        _max_message_size: u32,
        _max_nb_message: u32,
        _port_direction: PortDirection,
        _queuing_discipline: QueuingDiscipline,
    ) -> Result<QueuingPortId, ErrorReturnCode> {
        Ok(11)
    }

    fn send_queuing_message(
        _id: QueuingPortId,
        _message: &[ApexByte],
        _time_out: ApexSystemTime,
    ) -> Result<(), ErrorReturnCode> {
        Ok(())
    }

    fn receive_queuing_message(
        _id: QueuingPortId,
        _time_out: ApexSystemTime,
        message: &mut [ApexByte],
    ) -> Result<(u32, bool), ErrorReturnCode> {
        let n = message.len().min(2);
        for b in message.iter_mut().take(n) {
            *b = 0x55;
        }
        Ok((n as u32, false))
    }

    fn get_queuing_port_status(_id: QueuingPortId) -> Result<QueuingPortStatus, ErrorReturnCode> {
        Ok(QueuingPortStatus {
            nb_message: 0,
            max_nb_message: 20,
            max_message_size: 8,
            port_direction: PortDirection::Source,
            waiting_processes: 0,
        })
    }

    fn clear_queuing_port(_id: QueuingPortId) -> Result<(), ErrorReturnCode> {
        Ok(())
    }
}

#[test]
fn queuing_port_round() {
    let mut ctx: StartContext<Hyp> = StartContext::new();
    let tx = ctx
        .create_queuing_port_sender(
            Name::encode("Q1").unwrap(),
            8,
            20,
            QueuingDiscipline::Fifo,
        )
        .unwrap();
    assert_eq!(tx.id(), 11);
    assert_eq!(tx.size(), 8);
    assert_eq!(tx.range(), 20);
    assert_eq!(tx.send(&[9; 9], SystemTime::Infinite), Err(Error::WriteError));
    assert_eq!(tx.send(&[9; 8], SystemTime::Infinite), Ok(()));
    assert_eq!(tx.status().unwrap().max_nb_message, 20);

    let rx = ctx
        .create_queuing_port_receiver(
            Name::encode("Q2").unwrap(),
            4,
            20,
            QueuingDiscipline::Priority,
        )
        .unwrap();
    let mut buffer = [0u8; 6];
    let (message, overflow) = rx.receive(&mut buffer, SystemTime::Infinite).unwrap();
    assert_eq!(message, &[0x55, 0x55]);
    assert!(!overflow);
    assert!(rx.clear().is_ok());

    let mut small = [0u8; 3];
    assert_eq!(rx.receive(&mut small, SystemTime::Infinite).unwrap_err(), Error::ReadError);
}

impl ApexBufferP1 for Hyp {
    fn create_buffer(
        _name: a653rs::buffer::BufferName,
        _max_message_size: u32,
        _max_nb_message: u32,
        _queuing_discipline: QueuingDiscipline,
    ) -> Result<BufferId, ErrorReturnCode> {
        Ok(21)
    }

    fn send_buffer(
        _id: BufferId,
        _message: &[ApexByte],
        _time_out: ApexSystemTime,
    ) -> Result<(), ErrorReturnCode> {
        Ok(())
    }

    fn receive_buffer(
        _id: BufferId,
        _time_out: ApexSystemTime,
        message: &mut [ApexByte],
    ) -> Result<u32, ErrorReturnCode> {
        let n = message.len().min(1);
        for b in message.iter_mut().take(n) {
            *b = 0x77;
        }
        Ok(n as u32)
    }

    fn get_buffer_id(_name: a653rs::buffer::BufferName) -> Result<BufferId, ErrorReturnCode> {
        Ok(21)
    }

    fn get_buffer_status(_id: BufferId) -> Result<BufferStatus, ErrorReturnCode> {
        Ok(BufferStatus { nb_message: 0, max_nb_message: 4, max_message_size: 2, waiting_processes: 0 })
    }
}

#[test]
fn buffer_round() {
    let mut ctx: StartContext<Hyp> = StartContext::new();
    let buf = ctx
        .create_buffer(Name::encode("B1").unwrap(), 2, 4, QueuingDiscipline::Fifo)
        .unwrap();
    assert_eq!(buf.id(), 21);
    assert_eq!(buf.size(), 2);
    assert_eq!(buf.range(), 4);
    assert_eq!(buf.send(&[1, 2, 3], SystemTime::Infinite), Err(Error::WriteError));
    assert_eq!(buf.send(&[1], SystemTime::Infinite), Ok(()));

    let mut data = [0u8; 4];
    let message = buf.receive(&mut data, SystemTime::Infinite).unwrap();
    assert_eq!(message, &[0x77]);

    let looked_up = a653rs::buffer::Buffer::<Hyp>::from_name(Name::encode("B1").unwrap()).unwrap();
    assert_eq!(looked_up.size(), 2);
    assert_eq!(looked_up.range(), 4);
}

impl ApexBlackboardP1 for Hyp {
    fn create_blackboard(
        _name: a653rs::blackboard::BlackboardName,
        _max_message_size: u32,
    ) -> Result<BlackboardId, ErrorReturnCode> {
        Ok(31)
    }

    fn display_blackboard(_id: BlackboardId, _message: &[ApexByte]) -> Result<(), ErrorReturnCode> {
        Ok(())
    }

    fn read_blackboard(
        _id: BlackboardId,
        _time_out: ApexSystemTime,
        message: &mut [ApexByte],
    ) -> Result<u32, ErrorReturnCode> {
        let n = message.len().min(2);
        for b in message.iter_mut().take(n) {
            *b = 0x33;
        }
        Ok(n as u32)
    }

    fn clear_blackboard(_id: BlackboardId) -> Result<(), ErrorReturnCode> {
        Ok(())
    }

    fn get_blackboard_id(
        _name: a653rs::blackboard::BlackboardName,
    ) -> Result<BlackboardId, ErrorReturnCode> {
        Err(ErrorReturnCode::InvalidConfig)
    }

    fn get_blackboard_status(_id: BlackboardId) -> Result<BlackboardStatus, ErrorReturnCode> {
        Ok(BlackboardStatus {
            empty_indicator: EmptyIndicator::Empty,
            max_message_size: 3,
            waiting_processes: 0,
        })
    }
}

#[test]
fn blackboard_round() {
    let mut ctx: StartContext<Hyp> = StartContext::new();
    let board = ctx.create_blackboard(Name::encode("BB").unwrap(), 3).unwrap();
    assert_eq!(board.id(), 31);
    assert_eq!(board.size(), 3);
    assert_eq!(board.display(&[1, 2, 3, 4]), Err(Error::WriteError));
    assert_eq!(board.display(&[1, 2]), Ok(()));
    let mut data = [0u8; 5];
    let message = board.read(SystemTime::Infinite, &mut data).unwrap();
    assert_eq!(message, &[0x33, 0x33]);
    assert!(board.clear().is_ok());
    assert_eq!(board.status().unwrap().empty_indicator, EmptyIndicator::Empty);

    // an unknown name is refused by the hypervisor lookup
    let missing = a653rs::blackboard::Blackboard::<Hyp>::from_name(Name::encode("no").unwrap());
    assert_eq!(missing.unwrap_err(), Error::InvalidConfig);
}

impl ApexEventP1 for Hyp {
    fn create_event(_name: a653rs::event::EventName) -> Result<EventId, ErrorReturnCode> {
        Ok(41)
    }

    fn set_event(_id: EventId) -> Result<(), ErrorReturnCode> {
        Ok(())
    }

    fn reset_event(_id: EventId) -> Result<(), ErrorReturnCode> {
        Ok(())
    }

    fn wait_event(_id: EventId, _time_out: ApexSystemTime) -> Result<(), ErrorReturnCode> {
        Err(ErrorReturnCode::TimedOut)
    }

    fn get_event_id(_name: a653rs::event::EventName) -> Result<EventId, ErrorReturnCode> {
        Ok(41)
    }

    fn get_event_status(_id: EventId) -> Result<EventStatus, ErrorReturnCode> {
        Ok(EventStatus { event_state: EventState::Down, waiting_processes: 0 })
    }
}

#[test]
fn event_round() {
    let mut ctx: StartContext<Hyp> = StartContext::new();
    let event = ctx.create_event(Name::encode("E1").unwrap()).unwrap();
    assert_eq!(event.id(), 41);
    assert!(event.set().is_ok());
    assert!(event.reset().is_ok());
    assert_eq!(event.wait(SystemTime::Infinite), Err(Error::TimedOut));
    assert_eq!(event.status().unwrap().event_state, EventState::Down);
}

impl ApexSemaphoreP1 for Hyp {
    fn create_semaphore(
        _name: a653rs::semaphore::SemaphoreName,
        _current_value: i32,
        _maximum_value: i32,
        _queuing_discipline: QueuingDiscipline,
    ) -> Result<SemaphoreId, ErrorReturnCode> {
        Ok(51)
    }

    fn wait_semaphore(_id: SemaphoreId, _time_out: ApexSystemTime) -> Result<(), ErrorReturnCode> {
        Ok(())
    }

    fn signal_semaphore(_id: SemaphoreId) -> Result<(), ErrorReturnCode> {
        Ok(())
    }

    fn get_semaphore_id(
        _name: a653rs::semaphore::SemaphoreName,
    ) -> Result<SemaphoreId, ErrorReturnCode> {
        Ok(51)
    }

    fn get_semaphore_status(_id: SemaphoreId) -> Result<SemaphoreStatus, ErrorReturnCode> {
        Ok(SemaphoreStatus { current_value: 1, maximum_value: 2, waiting_processes: 0 })
    }
}

#[test]
fn semaphore_round() {
    let mut ctx: StartContext<Hyp> = StartContext::new();
    let sem = ctx
        .create_semaphore(Name::encode("S1").unwrap(), 1, 2, QueuingDiscipline::Fifo)
        .unwrap();
    assert_eq!(sem.id(), 51);
    assert_eq!(sem.maximum(), 2);
    assert!(sem.wait(SystemTime::Infinite).is_ok());
    assert!(sem.signal().is_ok());
    assert_eq!(sem.current().unwrap(), 1);
}

impl ApexProcessP4 for Hyp {
    fn create_process(_attributes: &ApexProcessAttribute) -> Result<ProcessId, ErrorReturnCode> {
        Ok(61)
    }

    fn start(_process_id: ProcessId) -> Result<(), ErrorReturnCode> {
        Ok(())
    }
}

impl ApexMutexP1 for Hyp {
    fn create_mutex(
        _name: a653rs::mutex::MutexName,
        _priority: i32,
        _queuing_discipline: QueuingDiscipline,
    ) -> Result<MutexId, ErrorReturnCode> {
        Ok(71)
    }

    fn acquire_mutex(_id: MutexId, _time_out: ApexSystemTime) -> Result<(), ErrorReturnCode> {
        Ok(())
    }

    fn release_mutex(_id: MutexId) -> Result<(), ErrorReturnCode> {
        Ok(())
    }

    fn reset_mutex(_id: MutexId, _process_id: ProcessId) -> Result<(), ErrorReturnCode> {
        Ok(())
    }

    fn get_mutex_id(_name: a653rs::mutex::MutexName) -> Result<MutexId, ErrorReturnCode> {
        Ok(71)
    }

    fn get_mutex_status(_id: MutexId) -> Result<MutexStatus, ErrorReturnCode> {
        Ok(MutexStatus {
            mutex_owner: 0,
            mutex_state: MutexState::Available,
            mutex_priority: 5,
            lock_count: 0,
            waiting_processes: 0 as WaitingRange,
        })
    }

    fn get_process_mutex_state(_process_id: ProcessId) -> Result<MutexId, ErrorReturnCode> {
        Ok(-2)
    }
}

#[test]
fn mutex_and_process_round() {
    let mut ctx: StartContext<Hyp> = StartContext::new();
    let mutex = ctx
        .create_mutex(Name::encode("M1").unwrap(), 5, QueuingDiscipline::Fifo)
        .unwrap();
    assert_eq!(mutex.id(), 71);
    assert_eq!(mutex.priority(), 5);
    assert!(mutex.acquire(SystemTime::Infinite).is_ok());
    assert!(mutex.release().is_ok());
    assert_eq!(mutex.status().unwrap().mutex_state, MutexState::Available);

    let attr = a653rs::process::ProcessAttribute {
        period: SystemTime::Infinite,
        time_capacity: SystemTime::Infinite,
        entry_point: SystemAddress(0),
        stack_size: 10_000,
        base_priority: 1,
        deadline: Deadline::Soft,
        name: Name::encode("proc").unwrap(),
    };
    let process = ctx.create_process(&attr).unwrap();
    assert_eq!(process.id(), 61);
    assert!(process.start().is_ok());
    assert_eq!(process.get_process_mutex_state().unwrap(), MutexOwnedStatus::NoMutexOwned);
    assert_eq!(MutexOwnedStatus::from(-3), MutexOwnedStatus::PreemptionLockMutex);
    assert_eq!(MutexOwnedStatus::from(9), MutexOwnedStatus::Owned(9));

    let raw = attr.to_apex();
    assert_eq!(raw.period, -1);
    assert_eq!(raw.stack_size, 10_000);
    assert_eq!(raw.deadline, Deadline::Soft);
    let _ = ProcessState::Dormant;
    let _ = ApexProcessStatus {
        deadline_time: -1,
        current_priority: 1,
        process_state: ProcessState::Ready,
        attributes: raw,
    };
}

#[test]
fn discipline_from_string_cases() {
    assert_eq!(QueuingDiscipline::from_string("FIFO"), Ok(QueuingDiscipline::Fifo));
    assert_eq!(QueuingDiscipline::from_string("Priority"), Ok(QueuingDiscipline::Priority));
    assert!(QueuingDiscipline::from_string("lifo").is_err());
}

#[test]
fn lookup_handles_record_their_status_fields() {
    let bs = BufferStatus { nb_message: 0, max_nb_message: 7, max_message_size: 3, waiting_processes: 0 };
    let buffer = a653rs::buffer::Buffer::<Hyp>::from_status(77, &bs);
    assert_eq!(buffer.id(), 77);
    assert_eq!(buffer.size(), 3);
    assert_eq!(buffer.range(), 7);

    let ks = BlackboardStatus {
        empty_indicator: EmptyIndicator::Occupied,
        max_message_size: 9,
        waiting_processes: 0,
    };
    let board = a653rs::blackboard::Blackboard::<Hyp>::from_status(78, &ks);
    assert_eq!(board.id(), 78);
    assert_eq!(board.size(), 9);

    let ms = MutexStatus {
        mutex_owner: 0,
        mutex_state: MutexState::Available,
        mutex_priority: 11,
        lock_count: 0,
        waiting_processes: 0,
    };
    let mutex = a653rs::mutex::Mutex::<Hyp>::from_status(79, &ms);
    assert_eq!(mutex.id(), 79);
    assert_eq!(mutex.priority(), 11);
}
