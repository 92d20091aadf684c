//! Buffers: bounded, ordered message queues inside a partition.

use vstd::prelude::*;
use crate::types::{
    read_len_valid, validate_read, validate_write, write_len_valid, ApexByte, ApexLongInteger,
    ApexName, Error, ErrorReturnCode, MessageRange, MessageSize, Name, QueuingDiscipline,
    WaitingRange,
};
use crate::time::{ApexSystemTime, SystemTime};
use crate::partition::StartContext;

verus! {

pub type BufferName = ApexName;

pub type BufferId = ApexLongInteger;

#[derive(Copy, Clone, Debug, PartialEq, Eq, Structural)]
pub struct BufferStatus {
    /// number of messages currently queued
    pub nb_message: MessageRange,
    /// maximum number of messages this buffer can hold
    pub max_nb_message: MessageRange,
    pub max_message_size: MessageSize,
    pub waiting_processes: WaitingRange,
}

/// Required buffer operations of every hypervisor.
pub trait ApexBufferP1 {
    /// Registers a buffer; only valid during a start mode.
    fn create_buffer(
        buffer_name: BufferName,
        max_message_size: MessageSize,
        max_nb_message: MessageRange,
        queuing_discipline: QueuingDiscipline,
    ) -> Result<BufferId, ErrorReturnCode>;

    fn send_buffer(buffer_id: BufferId, message: &[ApexByte], time_out: ApexSystemTime) -> Result<
        (),
        ErrorReturnCode,
    >;

    /// Receives the next message into the buffer. The hypervisor writes
    /// only into the given buffer and reports how many bytes it placed
    /// there; the caller is obliged to pass a buffer at least as large as
    /// the queue's message size.
    fn receive_buffer(
        buffer_id: BufferId,
        time_out: ApexSystemTime,
        message: &mut [ApexByte],
    ) -> (r: Result<MessageSize, ErrorReturnCode>)
        ensures
            final(message)@.len() == old(message)@.len(),
            r matches Ok(len) ==> len <= final(message)@.len(),
    ;

    fn get_buffer_id(buffer_name: BufferName) -> Result<BufferId, ErrorReturnCode>;

    fn get_buffer_status(buffer_id: BufferId) -> Result<BufferStatus, ErrorReturnCode>;
}

/// A typed handle on a created buffer.
#[derive(Debug)]
pub struct Buffer<B: ApexBufferP1> {
    _b: core::marker::PhantomData<B>,
    id: BufferId,
    max_size: MessageSize,
    max_number_msgs: MessageRange,
}

impl<B: ApexBufferP1> Buffer<B> {
    pub closed spec fn spec_id(&self) -> BufferId {
        self.id
    }

    pub closed spec fn spec_size(&self) -> MessageSize {
        self.max_size
    }

    pub closed spec fn spec_range(&self) -> MessageRange {
        self.max_number_msgs
    }
}

impl<B: ApexBufferP1> Clone for Buffer<B> {
    fn clone(&self) -> (r: Self)
        ensures
            r.spec_id() == self.spec_id(),
            r.spec_size() == self.spec_size(),
            r.spec_range() == self.spec_range(),
    {
        Buffer {
            _b: self._b,
            id: self.id,
            max_size: self.max_size,
            max_number_msgs: self.max_number_msgs,
        }
    }
}

/// Free extra operations for every implementer of [`ApexBufferP1`].
pub trait ApexBufferP1Ext: ApexBufferP1 + Sized {
    /// Looks a buffer up by name.
    fn get_buffer(name: Name) -> (r: Result<Buffer<Self>, Error>)
        ensures
            r matches Err(e) ==> e != Error::WriteError && e != Error::ReadError,
    ;
}

impl<B: ApexBufferP1> ApexBufferP1Ext for B {
    fn get_buffer(name: Name) -> Result<Buffer<B>, Error> {
        let id = match B::get_buffer_id(name.into_inner()) {
            Ok(id) => id,
            Err(e) => {
                return Err(Error::from(e));
            },
        };
        // Per the standard the status query can only fail for an unknown
        // identifier; this one came from the hypervisor a moment ago, so a
        // failure is surfaced instead of swallowed.
        match B::get_buffer_status(id) {
            Ok(status) => Ok(Buffer::from_status(id, &status)),
            Err(e) => Err(Error::from(e)),
        }
    }
}

impl<B: ApexBufferP1> Buffer<B> {
    /// Builds the handle that a successful lookup records, pinned to the
    /// identifier and the size and depth the reported status carries.
    pub fn from_status(id: BufferId, status: &BufferStatus) -> (r: Buffer<B>)
        ensures
            r.spec_id() == id,
            r.spec_size() == status.max_message_size,
            r.spec_range() == status.max_nb_message,
    {
        Buffer {
            _b: core::marker::PhantomData,
            id,
            max_size: status.max_message_size,
            max_number_msgs: status.max_nb_message,
        }
    }

    pub fn from_name(name: Name) -> (r: Result<Buffer<B>, Error>)
        ensures
            r matches Err(e) ==> e != Error::WriteError && e != Error::ReadError,
    {
        B::get_buffer(name)
    }

    pub fn id(&self) -> (r: BufferId)
        ensures
            r == self.spec_id(),
    {
        self.id
    }

    /// Maximum message size for this buffer.
    pub fn size(&self) -> (r: MessageSize)
        ensures
            r == self.spec_size(),
    {
        self.max_size
    }

    /// Maximum number of messages in this buffer.
    pub fn range(&self) -> (r: MessageRange)
        ensures
            r == self.spec_range(),
    {
        self.max_number_msgs
    }

    /// Checked send: the buffer is rejected with `WriteError` exactly when
    /// it is empty or longer than this queue's message size.
    pub fn send(&self, buffer: &[ApexByte], timeout: SystemTime) -> (r: Result<(), Error>)
        ensures
            r == Err::<(), Error>(Error::WriteError) <==> !write_len_valid(
                buffer@.len() as int,
                self.spec_size(),
            ),
            r != Err::<(), Error>(Error::ReadError),
    {
        match validate_write(buffer, self.max_size) {
            Ok(()) => match B::send_buffer(self.id, buffer, timeout.to_apex()) {
                Ok(()) => Ok(()),
                Err(e) => Err(Error::from(e)),
            },
            Err(e) => Err(e),
        }
    }

    /// Checked receive: the buffer is rejected with `ReadError` exactly
    /// when it is smaller than this queue's message size; on success the
    /// returned slice is the received prefix of the buffer.
    pub fn receive<'a>(&self, buffer: &'a mut [ApexByte], timeout: SystemTime) -> (r: Result<
        &'a [ApexByte],
        Error,
    >)
        ensures
            final(buffer)@.len() == old(buffer)@.len(),
            r matches Err(e) ==> (e == Error::ReadError <==> !read_len_valid(
                old(buffer)@.len() as int,
                self.spec_size(),
            )),
            r matches Ok(m) ==> m@ == final(buffer)@.take(m@.len() as int),
    {
        match validate_read(buffer, self.max_size) {
            Ok(()) => self.receive_unchecked(timeout, buffer),
            Err(e) => Err(e),
        }
    }

    /// Unchecked receive; the caller is obliged to pass a buffer that can
    /// hold whatever is received.
    pub fn receive_unchecked<'a>(&self, timeout: SystemTime, buffer: &'a mut [ApexByte]) -> (r:
        Result<&'a [ApexByte], Error>)
        ensures
            final(buffer)@.len() == old(buffer)@.len(),
            r matches Ok(m) ==> m@ == final(buffer)@.take(m@.len() as int),
            r matches Err(e) ==> e != Error::WriteError && e != Error::ReadError,
    {
        match B::receive_buffer(self.id, timeout.to_apex(), buffer) {
            Ok(len) => Ok(vstd::slice::slice_subrange(buffer, 0, len as usize)),
            Err(e) => Err(Error::from(e)),
        }
    }

    /// The current buffer status. Per the standard the query can only fail
    /// for an unknown identifier; since this handle's identifier came from
    /// the hypervisor, a failure is surfaced as an error.
    pub fn status(&self) -> (r: Result<BufferStatus, Error>)
        ensures
            r matches Err(e) ==> e != Error::WriteError && e != Error::ReadError,
    {
        match B::get_buffer_status(self.id) {
            Ok(s) => Ok(s),
            Err(e) => Err(Error::from(e)),
        }
    }
}

impl<B: ApexBufferP1> StartContext<B> {
    /// Registers a buffer; on success the handle records the size and
    /// depth it was created with.
    pub fn create_buffer(
        &mut self,
        name: Name,
        size: MessageSize,
        range: MessageRange,
        qd: QueuingDiscipline,
    ) -> (r: Result<Buffer<B>, Error>)
        ensures
            r matches Ok(b) ==> b.spec_size() == size && b.spec_range() == range,
            r matches Err(e) ==> e != Error::WriteError && e != Error::ReadError,
    {
        match B::create_buffer(name.into_inner(), size, range, qd) {
            Ok(id) => Ok(
                Buffer {
                    _b: core::marker::PhantomData,
                    id,
                    max_size: size,
                    max_number_msgs: range,
                },
            ),
            Err(e) => Err(Error::from(e)),
        }
    }
}

} // verus!
