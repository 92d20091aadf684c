//! Health monitoring: error codes, the error status record, and the
//! hypervisor error reporting operations.

use vstd::prelude::*;
use crate::types::{
    validate_write, write_len_valid, ApexByte, ApexInteger, Error, ErrorReturnCode,
    ProcessorCoreId,
};
use crate::process::{ProcessId, StackSize, SystemAddress};
use crate::partition::StartContext;

verus! {

/// Maximum error message size in bytes.
pub const MAX_ERROR_MESSAGE_SIZE: usize = 128;

pub type ErrorMessageSize = ApexInteger;

pub type ErrorMessage = [ApexByte; MAX_ERROR_MESSAGE_SIZE];

/// A process level error.
#[derive(Copy, Clone, Debug, PartialEq, Eq, Structural)]
pub enum ErrorCode {
    DeadlineMissed,
    /// raised by application code through the error operations
    ApplicationError,
    NumericError,
    /// unallowed syscall or OS request
    IllegalRequest,
    StackOverflow,
    MemoryViolation,
    /// input/output error
    HardwareFault,
    /// info for saving data before power off
    PowerFail,
}

/// The error status as the hypervisor reports it.
#[derive(Copy, Clone, Debug, PartialEq, Eq)]
pub struct ErrorStatus {
    /// related implementation dependent address
    pub failed_address: SystemAddress,
    pub failed_process_id: ProcessId,
    pub error_code: ErrorCode,
    /// error message length
    pub length: ErrorMessageSize,
    pub message: ErrorMessage,
}

/// Whether other processes keep running while the error handler is active.
#[derive(Copy, Clone, Debug, PartialEq, Eq, Structural)]
pub enum ErrorHandlerConcurrencyControl {
    /// processes are paused when the error handler is active
    ProcessesPause,
    /// processes run parallel to the error handler
    ProcessesScheduled,
}

/// Required health monitoring operations of every hypervisor.
pub trait ApexErrorP4 {
    /// Reports a message to the health monitor.
    fn report_application_message(message: &[ApexByte]) -> Result<(), ErrorReturnCode>;

    /// Triggers the error handler process.
    fn raise_application_error(error_code: ErrorCode, message: &[ApexByte]) -> Result<
        (),
        ErrorReturnCode,
    >;
}

/// Extended health monitoring operations of a full hypervisor.
pub trait ApexErrorP1 {
    /// Registers the error handler; only valid during a start mode.
    fn create_error_handler(entry_point: SystemAddress, stack_size: StackSize) -> Result<
        (),
        ErrorReturnCode,
    >;

    /// The current error status; fails with `NoAction` when no error
    /// exists, or `InvalidConfig` outside the error handler.
    fn get_error_status() -> Result<ErrorStatus, ErrorReturnCode>;

    /// Configures the error handler; only valid during a start mode.
    fn configure_error_handler(
        concurrency_control: ErrorHandlerConcurrencyControl,
        processor_core_id: ProcessorCoreId,
    ) -> Result<(), ErrorReturnCode>;
}

/// Free extra operations for every implementer of [`ApexErrorP4`].
pub trait ApexErrorP4Ext {
    /// Reports a message to the health monitor; the message is rejected
    /// with `WriteError` exactly when it is empty or longer than the
    /// maximum error message size.
    fn report_application_message(message: &[ApexByte]) -> (r: Result<(), Error>)
        ensures
            r == Err::<(), Error>(Error::WriteError) <==> !write_len_valid(
                message@.len() as int,
                MAX_ERROR_MESSAGE_SIZE as u32,
            ),
            r != Err::<(), Error>(Error::ReadError),
    ;

    /// Triggers the error handler process with an application error; the
    /// message is rejected with `WriteError` exactly when it is empty or
    /// longer than the maximum error message size.
    fn raise_application_error(message: &[ApexByte]) -> (r: Result<(), Error>)
        ensures
            r == Err::<(), Error>(Error::WriteError) <==> !write_len_valid(
                message@.len() as int,
                MAX_ERROR_MESSAGE_SIZE as u32,
            ),
            r != Err::<(), Error>(Error::ReadError),
    ;
}

/// Free extra operations for every implementer of [`ApexErrorP1`].
pub trait ApexErrorP1Ext {
    /// The current error status.
    fn error_status() -> (r: Result<ErrorStatus, Error>)
        ensures
            r matches Err(e) ==> e != Error::WriteError && e != Error::ReadError,
    ;
}

impl<E: ApexErrorP4> ApexErrorP4Ext for E {
    fn report_application_message(message: &[ApexByte]) -> Result<(), Error> {
        match validate_write(message, MAX_ERROR_MESSAGE_SIZE as u32) {
            Ok(()) => match <E as ApexErrorP4>::report_application_message(message) {
                Ok(()) => Ok(()),
                Err(e) => Err(Error::from(e)),
            },
            Err(e) => Err(e),
        }
    }

    fn raise_application_error(message: &[ApexByte]) -> Result<(), Error> {
        match validate_write(message, MAX_ERROR_MESSAGE_SIZE as u32) {
            Ok(()) => match <E as ApexErrorP4>::raise_application_error(
                ErrorCode::ApplicationError,
                message,
            ) {
                Ok(()) => Ok(()),
                Err(e) => Err(Error::from(e)),
            },
            Err(e) => Err(e),
        }
    }
}

impl<E: ApexErrorP1> ApexErrorP1Ext for E {
    fn error_status() -> Result<ErrorStatus, Error> {
        match E::get_error_status() {
            Ok(s) => Ok(s),
            Err(e) => Err(Error::from(e)),
        }
    }
}

impl<E: ApexErrorP1> StartContext<E> {
    /// Registers the error handler; only valid during a start mode.
    pub fn set_error_handler(
        &self,
        entry_point: SystemAddress,
        stack_size: StackSize,
    ) -> (r: Result<(), Error>)
        ensures
            r matches Err(e) ==> e != Error::WriteError && e != Error::ReadError,
    {
        match E::create_error_handler(entry_point, stack_size) {
            Ok(()) => Ok(()),
            Err(e) => Err(Error::from(e)),
        }
    }

    /// Configures the error handler; only valid during a start mode.
    pub fn configure_error_handler(
        &self,
        concurrency_control: ErrorHandlerConcurrencyControl,
        processor_core_id: ProcessorCoreId,
    ) -> (r: Result<(), Error>)
        ensures
            r matches Err(e) ==> e != Error::WriteError && e != Error::ReadError,
    {
        match E::configure_error_handler(concurrency_control, processor_core_id) {
            Ok(()) => Ok(()),
            Err(e) => Err(Error::from(e)),
        }
    }
}

} // verus!
