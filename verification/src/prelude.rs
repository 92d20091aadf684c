//! Standard prelude for application software and high-level drivers built
//! on the runtime abstraction.

pub use crate::types::{
    validate_read, validate_write, ApexByte, ApexInteger, ApexLongInteger, ApexName, ApexUnsigned,
    Error, ErrorReturnCode, MessageRange, MessageSize, Name, PortDirection, QueuingDiscipline,
    ReturnCode, WaitingRange, MAX_NAME_LENGTH,
};
pub use crate::time::{
    ApexSystemTime, ApexTimeP1, ApexTimeP1Ext, ApexTimeP4, ApexTimeP4Ext, Duration, SystemTime,
    INFINITE_TIME_VALUE,
};
pub use crate::partition::{
    ApexPartitionP4, ApexPartitionStatus, OperatingMode, Partition, PartitionExt, PartitionStatus,
    StartCondition, StartContext,
};
pub use crate::process::{
    ApexProcessP1, ApexProcessP1Ext, ApexProcessP4, Deadline, LockLevel, Priority, Process,
    ProcessAttribute, ProcessId, ProcessStatus, StackSize, SystemAddress, MAX_PRIORITY_VALUE,
    MIN_PRIORITY_VALUE,
};
pub use crate::sampling::{
    ApexSamplingPortP1, ApexSamplingPortP1Ext, ApexSamplingPortP4, ApexSamplingPortP4Ext,
    ConstSamplingPortDestination, ConstSamplingPortSource, SamplingPortDestination,
    SamplingPortId, SamplingPortSource, SamplingPortStatus, Validity,
};
pub use crate::queuing::{
    ApexQueuingPortP1, ApexQueuingPortP1Ext, ApexQueuingPortP4, ApexQueuingPortP4Ext,
    ConstQueuingPortReceiver, ConstQueuingPortSender, QueueOverflow, QueuingPortId,
    QueuingPortReceiver, QueuingPortSender, QueuingPortStatus,
};
pub use crate::error::{
    ApexErrorP1, ApexErrorP1Ext, ApexErrorP4, ApexErrorP4Ext, ErrorCode,
    ErrorHandlerConcurrencyControl, ErrorStatus, MAX_ERROR_MESSAGE_SIZE,
};
pub use crate::semaphore::{ApexSemaphoreP1, Semaphore, SemaphoreStatus, SemaphoreValue};
pub use crate::event::{ApexEventP1, Event, EventState, EventStatus};
pub use crate::blackboard::{ApexBlackboardP1, Blackboard, BlackboardStatus, EmptyIndicator};
pub use crate::buffer::{ApexBufferP1, Buffer, BufferStatus};
pub use crate::mutex::{ApexMutexP1, Mutex, MutexOwnedStatus, MutexState, MutexStatus};
pub use crate::schedules::{ApexScheduleP2, ApexScheduleP2Ext, ScheduleId, ScheduleStatus};
