//! Blackboards: last-value-wins message boards inside a partition.

use vstd::prelude::*;
use crate::types::{
    read_len_valid, validate_read, validate_write, write_len_valid, ApexByte, ApexLongInteger,
    ApexName, Error, ErrorReturnCode, MessageSize, Name, WaitingRange,
};
use crate::time::{ApexSystemTime, SystemTime};
use crate::partition::StartContext;

verus! {

pub type BlackboardName = ApexName;

pub type BlackboardId = ApexLongInteger;

/// Whether a blackboard currently shows a message.
#[derive(Copy, Clone, Debug, PartialEq, Eq, Structural)]
pub enum EmptyIndicator {
    Empty,
    Occupied,
}

#[derive(Copy, Clone, Debug, PartialEq, Eq, Structural)]
pub struct BlackboardStatus {
    pub empty_indicator: EmptyIndicator,
    pub max_message_size: MessageSize,
    pub waiting_processes: WaitingRange,
}

/// Required blackboard operations of every hypervisor.
pub trait ApexBlackboardP1 {
    /// Registers a blackboard; only valid during a start mode.
    fn create_blackboard(blackboard_name: BlackboardName, max_message_size: MessageSize) -> Result<
        BlackboardId,
        ErrorReturnCode,
    >;

    /// Displays a message on the blackboard.
    fn display_blackboard(blackboard_id: BlackboardId, message: &[ApexByte]) -> Result<
        (),
        ErrorReturnCode,
    >;

    /// Reads the displayed message into the buffer, waiting up to the
    /// timeout when none is there. The hypervisor writes only into the
    /// given buffer and reports how many bytes it placed there; the caller
    /// is obliged to pass a buffer at least as large as the board's
    /// message size.
    fn read_blackboard(
        blackboard_id: BlackboardId,
        time_out: ApexSystemTime,
        message: &mut [ApexByte],
    ) -> (r: Result<MessageSize, ErrorReturnCode>)
        ensures
            final(message)@.len() == old(message)@.len(),
            r matches Ok(len) ==> len <= final(message)@.len(),
    ;

    /// Clears the blackboard content.
    fn clear_blackboard(blackboard_id: BlackboardId) -> Result<(), ErrorReturnCode>;

    fn get_blackboard_id(blackboard_name: BlackboardName) -> Result<BlackboardId, ErrorReturnCode>;

    fn get_blackboard_status(blackboard_id: BlackboardId) -> Result<
        BlackboardStatus,
        ErrorReturnCode,
    >;
}

/// A typed handle on a created blackboard.
#[derive(Debug)]
pub struct Blackboard<B: ApexBlackboardP1> {
    _b: core::marker::PhantomData<B>,
    id: BlackboardId,
    size: MessageSize,
}

impl<B: ApexBlackboardP1> Blackboard<B> {
    pub closed spec fn spec_id(&self) -> BlackboardId {
        self.id
    }

    pub closed spec fn spec_size(&self) -> MessageSize {
        self.size
    }
}

impl<B: ApexBlackboardP1> Clone for Blackboard<B> {
    fn clone(&self) -> (r: Self)
        ensures
            r.spec_id() == self.spec_id(),
            r.spec_size() == self.spec_size(),
    {
        Blackboard { _b: self._b, id: self.id, size: self.size }
    }
}

/// Free extra operations for every implementer of [`ApexBlackboardP1`].
pub trait ApexBlackboardP1Ext: ApexBlackboardP1 + Sized {
    /// Looks a blackboard up by name.
    fn get_blackboard(name: Name) -> (r: Result<Blackboard<Self>, Error>)
        ensures
            r matches Err(e) ==> e != Error::WriteError && e != Error::ReadError,
    ;
}

impl<B: ApexBlackboardP1> ApexBlackboardP1Ext for B {
    fn get_blackboard(name: Name) -> Result<Blackboard<B>, Error> {
        let id = match B::get_blackboard_id(name.into_inner()) {
            Ok(id) => id,
            Err(e) => {
                return Err(Error::from(e));
            },
        };
        // Per the standard the status query can only fail for an unknown
        // identifier; this one came from the hypervisor a moment ago, so a
        // failure is surfaced instead of swallowed.
        match B::get_blackboard_status(id) {
            Ok(status) => Ok(Blackboard::from_status(id, &status)),
            Err(e) => Err(Error::from(e)),
        }
    }
}

impl<B: ApexBlackboardP1> Blackboard<B> {
    /// Builds the handle that a successful lookup records, pinned to the
    /// identifier and the message size the reported status carries.
    pub fn from_status(id: BlackboardId, status: &BlackboardStatus) -> (r: Blackboard<B>)
        ensures
            r.spec_id() == id,
            r.spec_size() == status.max_message_size,
    {
        Blackboard { _b: core::marker::PhantomData, id, size: status.max_message_size }
    }

    pub fn from_name(name: Name) -> (r: Result<Blackboard<B>, Error>)
        ensures
            r matches Err(e) ==> e != Error::WriteError && e != Error::ReadError,
    {
        B::get_blackboard(name)
    }

    pub fn id(&self) -> (r: BlackboardId)
        ensures
            r == self.spec_id(),
    {
        self.id
    }

    pub fn size(&self) -> (r: MessageSize)
        ensures
            r == self.spec_size(),
    {
        self.size
    }

    /// Checked display: the buffer is rejected with `WriteError` exactly
    /// when it is empty or longer than this board's message size.
    pub fn display(&self, buffer: &[ApexByte]) -> (r: Result<(), Error>)
        ensures
            r == Err::<(), Error>(Error::WriteError) <==> !write_len_valid(
                buffer@.len() as int,
                self.spec_size(),
            ),
            r != Err::<(), Error>(Error::ReadError),
    {
        match validate_write(buffer, self.size) {
            Ok(()) => match B::display_blackboard(self.id, buffer) {
                Ok(()) => Ok(()),
                Err(e) => Err(Error::from(e)),
            },
            Err(e) => Err(e),
        }
    }

    /// Checked read: the buffer is rejected with `ReadError` exactly when
    /// it is smaller than this board's message size; on success the
    /// returned slice is the read prefix of the buffer.
    pub fn read<'a>(&self, timeout: SystemTime, buffer: &'a mut [ApexByte]) -> (r: Result<
        &'a [ApexByte],
        Error,
    >)
        ensures
            final(buffer)@.len() == old(buffer)@.len(),
            r matches Err(e) ==> (e == Error::ReadError <==> !read_len_valid(
                old(buffer)@.len() as int,
                self.spec_size(),
            )),
            r matches Ok(m) ==> m@ == final(buffer)@.take(m@.len() as int),
    {
        match validate_read(buffer, self.size) {
            Ok(()) => self.read_unchecked(timeout, buffer),
            Err(e) => Err(e),
        }
    }

    /// Unchecked read; the caller is obliged to pass a buffer that can
    /// hold whatever is displayed.
    pub fn read_unchecked<'a>(&self, timeout: SystemTime, buffer: &'a mut [ApexByte]) -> (r:
        Result<&'a [ApexByte], Error>)
        ensures
            final(buffer)@.len() == old(buffer)@.len(),
            r matches Ok(m) ==> m@ == final(buffer)@.take(m@.len() as int),
            r matches Err(e) ==> e != Error::WriteError && e != Error::ReadError,
    {
        match B::read_blackboard(self.id, timeout.to_apex(), buffer) {
            Ok(len) => Ok(vstd::slice::slice_subrange(buffer, 0, len as usize)),
            Err(e) => Err(Error::from(e)),
        }
    }

    /// Clears the board. Per the standard this can only fail for an
    /// unknown identifier; since this handle's identifier came from the
    /// hypervisor, a failure is surfaced as an error.
    pub fn clear(&self) -> (r: Result<(), Error>)
        ensures
            r matches Err(e) ==> e != Error::WriteError && e != Error::ReadError,
    {
        match B::clear_blackboard(self.id) {
            Ok(()) => Ok(()),
            Err(e) => Err(Error::from(e)),
        }
    }

    /// The current board status; see [`Blackboard::clear`] on the error
    /// case.
    pub fn status(&self) -> (r: Result<BlackboardStatus, Error>)
        ensures
            r matches Err(e) ==> e != Error::WriteError && e != Error::ReadError,
    {
        match B::get_blackboard_status(self.id) {
            Ok(s) => Ok(s),
            Err(e) => Err(Error::from(e)),
        }
    }
}

impl<B: ApexBlackboardP1> StartContext<B> {
    /// Registers a blackboard; on success the handle records the size it
    /// was created with.
    pub fn create_blackboard(&mut self, name: Name, size: MessageSize) -> (r: Result<
        Blackboard<B>,
        Error,
    >)
        ensures
            r matches Ok(b) ==> b.spec_size() == size,
            r matches Err(e) ==> e != Error::WriteError && e != Error::ReadError,
    {
        match B::create_blackboard(name.into_inner(), size) {
            Ok(id) => Ok(Blackboard { _b: core::marker::PhantomData, id, size }),
            Err(e) => Err(Error::from(e)),
        }
    }
}

} // verus!
