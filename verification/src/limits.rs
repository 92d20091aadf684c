//! Hypervisor dependent limits.

use vstd::prelude::*;
use crate::types::{ApexUnsigned, MessageRange, MessageSize};

verus! {

/// Hypervisor dependent limits, with the standard's defaults.
pub trait ApexLimits {
    /// maximum number of partitions for a configuration
    const SYSTEM_LIMIT_NUMBER_OF_PARTITIONS: ApexUnsigned = 32;

    /// maximum number of messages in a port
    const SYSTEM_LIMIT_NUMBER_OF_MESSAGES: MessageRange = 512;

    /// maximum number of bytes in a single message
    const SYSTEM_LIMIT_MESSAGE_SIZE: MessageSize = 8192;

    /// maximum number of processes in a partition
    const SYSTEM_LIMIT_NUMBER_OF_PROCESSES: ApexUnsigned = 128;

    /// maximum number of sampling ports in a partition
    const SYSTEM_LIMIT_NUMBER_OF_SAMPLING_PORTS: ApexUnsigned = 512;

    /// maximum number of queuing ports in a partition
    const SYSTEM_LIMIT_NUMBER_OF_QUEUING_PORTS: ApexUnsigned = 512;

    /// maximum number of buffers in a partition
    const SYSTEM_LIMIT_NUMBER_OF_BUFFERS: ApexUnsigned = 256;

    /// maximum number of blackboards in a partition
    const SYSTEM_LIMIT_NUMBER_OF_BLACKBOARDS: ApexUnsigned = 256;

    /// maximum number of semaphores in a partition
    const SYSTEM_LIMIT_NUMBER_OF_SEMAPHORES: ApexUnsigned = 256;

    /// maximum number of events in a partition
    const SYSTEM_LIMIT_NUMBER_OF_EVENTS: ApexUnsigned = 256;

    /// maximum number of mutexes in a partition
    const SYSTEM_LIMIT_NUMBER_OF_MUTEXES: ApexUnsigned = 256;
}

} // verus!
