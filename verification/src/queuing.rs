//! Queuing ports: bounded, ordered message channels between partitions,
//! with checked and unchecked send/receive paths.

use vstd::prelude::*;
use crate::types::{
    read_len_valid, validate_read, validate_write, write_len_valid, ApexByte, ApexLongInteger,
    ApexName, Error, ErrorReturnCode, MessageRange, MessageSize, Name, PortDirection,
    QueuingDiscipline, WaitingRange,
};
use crate::time::{ApexSystemTime, SystemTime};
use crate::partition::StartContext;

verus! {

pub type QueuingPortName = ApexName;

pub type QueuingPortId = ApexLongInteger;

/// Whether the queue overflowed on the sender side.
pub type QueueOverflow = bool;

/// The standard reuses `InvalidConfig` to signal that the queue overflowed
/// on the sender side.
pub const QUEUE_OVERFLOW_ERROR: ErrorReturnCode = ErrorReturnCode::InvalidConfig;

/// The queuing port status as the hypervisor reports it.
#[derive(Copy, Clone, Debug, PartialEq, Eq, Structural)]
pub struct QueuingPortStatus {
    pub nb_message: MessageRange,
    pub max_nb_message: MessageRange,
    pub max_message_size: MessageSize,
    pub port_direction: PortDirection,
    pub waiting_processes: WaitingRange,
}

/// Required queuing port operations of every hypervisor.
pub trait ApexQueuingPortP4 {
    /// Registers a queuing port; only valid during a start mode. The
    /// hypervisor rejects a name that already exists with `NoAction`.
    fn create_queuing_port(
        queuing_port_name: QueuingPortName,
        max_message_size: MessageSize,
        max_nb_message: MessageRange,
        port_direction: PortDirection,
        queuing_discipline: QueuingDiscipline,
    ) -> Result<QueuingPortId, ErrorReturnCode>;

    fn send_queuing_message(
        queuing_port_id: QueuingPortId,
        message: &[ApexByte],
        time_out: ApexSystemTime,
    ) -> Result<(), ErrorReturnCode>;

    /// Receives the next message into the buffer. The hypervisor writes
    /// only into the given buffer and reports how many bytes it placed
    /// there; the caller is obliged to pass a buffer at least as large as
    /// the port's message size.
    fn receive_queuing_message(
        queuing_port_id: QueuingPortId,
        time_out: ApexSystemTime,
        message: &mut [ApexByte],
    ) -> (r: Result<(MessageSize, QueueOverflow), ErrorReturnCode>)
        ensures
            final(message)@.len() == old(message)@.len(),
            r matches Ok((len, o)) ==> len <= final(message)@.len(),
    ;

    fn get_queuing_port_status(queuing_port_id: QueuingPortId) -> Result<
        QueuingPortStatus,
        ErrorReturnCode,
    >;

    fn clear_queuing_port(queuing_port_id: QueuingPortId) -> Result<(), ErrorReturnCode>;
}

/// Extended queuing port operations of a full hypervisor.
pub trait ApexQueuingPortP1: ApexQueuingPortP4 {
    fn get_queuing_port_id(queuing_port_name: QueuingPortName) -> Result<
        QueuingPortId,
        ErrorReturnCode,
    >;
}

/// Free extra operations for every implementer of [`ApexQueuingPortP4`].
pub trait ApexQueuingPortP4Ext: ApexQueuingPortP4 + Sized {
    /// Sends without a buffer check; the abstracted error never names a
    /// buffer mismatch.
    fn queueing_port_send_unchecked(
        id: QueuingPortId,
        buffer: &[ApexByte],
        timeout: SystemTime,
    ) -> (r: Result<(), Error>)
        ensures
            r matches Err(e) ==> e != Error::WriteError && e != Error::ReadError,
    ;

    /// Receives without a buffer check; the caller is obliged to pass a
    /// buffer that can hold whatever is received. The returned slice is
    /// the prefix of the buffer that the hypervisor filled.
    fn queueing_port_receive_unchecked<'a>(
        id: QueuingPortId,
        timeout: SystemTime,
        buffer: &'a mut [ApexByte],
    ) -> (r: Result<(&'a [ApexByte], QueueOverflow), Error>)
        ensures
            final(buffer)@.len() == old(buffer)@.len(),
            r matches Ok((m, o)) ==> m@ == final(buffer)@.take(m@.len() as int),
            r matches Err(e) ==> e != Error::WriteError && e != Error::ReadError,
    ;
}

/// Free extra operations for every implementer of [`ApexQueuingPortP1`].
pub trait ApexQueuingPortP1Ext: ApexQueuingPortP1 + Sized {
    /// Looks a sender port up by name; fails with `InvalidConfig` when the
    /// port exists with the wrong direction.
    fn get_queuing_port_sender(name: Name) -> (r: Result<QueuingPortSender<Self>, Error>)
        ensures
            r matches Err(e) ==> e != Error::WriteError && e != Error::ReadError,
    ;

    /// Looks a receiver port up by name; fails with `InvalidConfig` when
    /// the port exists with the wrong direction.
    fn get_queuing_port_receiver(name: Name) -> (r: Result<QueuingPortReceiver<Self>, Error>)
        ensures
            r matches Err(e) ==> e != Error::WriteError && e != Error::ReadError,
    ;
}

/// A typed handle on a created queuing port sender.
#[derive(Debug)]
pub struct QueuingPortSender<Q: ApexQueuingPortP4Ext> {
    _b: core::marker::PhantomData<Q>,
    id: QueuingPortId,
    msg_size: MessageSize,
    nb_msgs: MessageRange,
}

impl<Q: ApexQueuingPortP4Ext> QueuingPortSender<Q> {
    pub closed spec fn spec_id(&self) -> QueuingPortId {
        self.id
    }

    pub closed spec fn spec_msg_size(&self) -> MessageSize {
        self.msg_size
    }

    pub closed spec fn spec_nb_msgs(&self) -> MessageRange {
        self.nb_msgs
    }
}

impl<Q: ApexQueuingPortP4Ext> Clone for QueuingPortSender<Q> {
    fn clone(&self) -> (r: Self)
        ensures
            r.spec_id() == self.spec_id(),
            r.spec_msg_size() == self.spec_msg_size(),
            r.spec_nb_msgs() == self.spec_nb_msgs(),
    {
        QueuingPortSender { _b: self._b, id: self.id, msg_size: self.msg_size, nb_msgs: self.nb_msgs }
    }
}

/// A typed handle on a created queuing port receiver.
#[derive(Debug)]
pub struct QueuingPortReceiver<Q: ApexQueuingPortP4Ext> {
    _b: core::marker::PhantomData<Q>,
    id: QueuingPortId,
    msg_size: MessageSize,
    nb_msgs: MessageRange,
}

impl<Q: ApexQueuingPortP4Ext> QueuingPortReceiver<Q> {
    pub closed spec fn spec_id(&self) -> QueuingPortId {
        self.id
    }

    pub closed spec fn spec_msg_size(&self) -> MessageSize {
        self.msg_size
    }

    pub closed spec fn spec_nb_msgs(&self) -> MessageRange {
        self.nb_msgs
    }
}

impl<Q: ApexQueuingPortP4Ext> Clone for QueuingPortReceiver<Q> {
    fn clone(&self) -> (r: Self)
        ensures
            r.spec_id() == self.spec_id(),
            r.spec_msg_size() == self.spec_msg_size(),
            r.spec_nb_msgs() == self.spec_nb_msgs(),
    {
        QueuingPortReceiver {
            _b: self._b,
            id: self.id,
            msg_size: self.msg_size,
            nb_msgs: self.nb_msgs,
        }
    }
}

impl<Q: ApexQueuingPortP4Ext> QueuingPortSender<Q> {
    /// Builds the handle that a successful lookup records, deciding on the
    /// reported status: accepted exactly when the port is a source, with
    /// the handle pinned to the identifier and the reported size and
    /// depth.
    pub fn from_status(id: QueuingPortId, status: &QueuingPortStatus) -> (r: Result<Self, Error>)
        ensures
            r is Ok <==> status.port_direction == PortDirection::Source,
            r matches Ok(p) ==> p.spec_id() == id && p.spec_msg_size() == status.max_message_size
                && p.spec_nb_msgs() == status.max_nb_message,
            r is Err ==> r == Err::<Self, Error>(Error::InvalidConfig),
    {
        match status.port_direction {
            PortDirection::Source => Ok(
                QueuingPortSender {
                    _b: core::marker::PhantomData,
                    id,
                    msg_size: status.max_message_size,
                    nb_msgs: status.max_nb_message,
                },
            ),
            PortDirection::Destination => Err(Error::InvalidConfig),
        }
    }
}

impl<Q: ApexQueuingPortP4Ext> QueuingPortReceiver<Q> {
    /// Builds the handle that a successful lookup records, deciding on the
    /// reported status: accepted exactly when the port is a destination,
    /// with the handle pinned to the identifier and the reported size and
    /// depth.
    pub fn from_status(id: QueuingPortId, status: &QueuingPortStatus) -> (r: Result<Self, Error>)
        ensures
            r is Ok <==> status.port_direction == PortDirection::Destination,
            r matches Ok(p) ==> p.spec_id() == id && p.spec_msg_size() == status.max_message_size
                && p.spec_nb_msgs() == status.max_nb_message,
            r is Err ==> r == Err::<Self, Error>(Error::InvalidConfig),
    {
        match status.port_direction {
            PortDirection::Destination => Ok(
                QueuingPortReceiver {
                    _b: core::marker::PhantomData,
                    id,
                    msg_size: status.max_message_size,
                    nb_msgs: status.max_nb_message,
                },
            ),
            PortDirection::Source => Err(Error::InvalidConfig),
        }
    }
}

/// A sender port whose message size and depth are pinned at the type level.
#[derive(Debug)]
pub struct ConstQueuingPortSender<const MSG_SIZE: u32, const NB_MSGS: u32, Q: ApexQueuingPortP4Ext>(
    QueuingPortSender<Q>,
);

impl<const MSG_SIZE: u32, const NB_MSGS: u32, Q: ApexQueuingPortP4Ext> ConstQueuingPortSender<
    MSG_SIZE,
    NB_MSGS,
    Q,
> {
    /// Pins an untyped port; rejected with `InvalidConfig` exactly when its
    /// message size or depth differs from the pinned ones.
    pub fn try_from(port: QueuingPortSender<Q>) -> (r: Result<Self, Error>)
        ensures
            r is Ok <==> port.spec_msg_size() == MSG_SIZE && port.spec_nb_msgs() == NB_MSGS,
            r matches Ok(c) ==> c.spec_port() == port,
            r is Err ==> (r matches Err(e) && e == Error::InvalidConfig),
    {
        if port.size() != MSG_SIZE || port.range() != NB_MSGS {
            return Err(Error::InvalidConfig);
        }
        Ok(ConstQueuingPortSender(port))
    }

    /// The untyped port underneath.
    pub fn port(&self) -> (r: &QueuingPortSender<Q>)
        ensures
            r == self.spec_port(),
    {
        &self.0
    }

    pub closed spec fn spec_port(&self) -> QueuingPortSender<Q> {
        self.0
    }

    pub fn into_inner(self) -> (r: QueuingPortSender<Q>)
        ensures
            r == self.spec_port(),
    {
        self.0
    }
}

/// A receiver port whose message size and depth are pinned at the type
/// level.
#[derive(Debug)]
pub struct ConstQueuingPortReceiver<
    const MSG_SIZE: u32,
    const NB_MSGS: u32,
    Q: ApexQueuingPortP4Ext,
>(QueuingPortReceiver<Q>);

impl<const MSG_SIZE: u32, const NB_MSGS: u32, Q: ApexQueuingPortP4Ext> ConstQueuingPortReceiver<
    MSG_SIZE,
    NB_MSGS,
    Q,
> {
    /// Pins an untyped port; rejected with `InvalidConfig` exactly when its
    /// message size or depth differs from the pinned ones.
    pub fn try_from(port: QueuingPortReceiver<Q>) -> (r: Result<Self, Error>)
        ensures
            r is Ok <==> port.spec_msg_size() == MSG_SIZE && port.spec_nb_msgs() == NB_MSGS,
            r matches Ok(c) ==> c.spec_port() == port,
            r is Err ==> (r matches Err(e) && e == Error::InvalidConfig),
    {
        if port.size() != MSG_SIZE || port.range() != NB_MSGS {
            return Err(Error::InvalidConfig);
        }
        Ok(ConstQueuingPortReceiver(port))
    }

    /// The untyped port underneath.
    pub fn port(&self) -> (r: &QueuingPortReceiver<Q>)
        ensures
            r == self.spec_port(),
    {
        &self.0
    }

    pub closed spec fn spec_port(&self) -> QueuingPortReceiver<Q> {
        self.0
    }

    pub fn into_inner(self) -> (r: QueuingPortReceiver<Q>)
        ensures
            r == self.spec_port(),
    {
        self.0
    }
}

impl<Q: ApexQueuingPortP4> ApexQueuingPortP4Ext for Q {
    fn queueing_port_send_unchecked(
        id: QueuingPortId,
        buffer: &[ApexByte],
        timeout: SystemTime,
    ) -> Result<(), Error> {
        match Q::send_queuing_message(id, buffer, timeout.to_apex()) {
            Ok(()) => Ok(()),
            Err(e) => Err(Error::from(e)),
        }
    }

    fn queueing_port_receive_unchecked<'a>(
        id: QueuingPortId,
        timeout: SystemTime,
        buffer: &'a mut [ApexByte],
    ) -> Result<(&'a [ApexByte], QueueOverflow), Error> {
        match Q::receive_queuing_message(id, timeout.to_apex(), buffer) {
            Ok((len, overflow)) => {
                let m = vstd::slice::slice_subrange(buffer, 0, len as usize);
                Ok((m, overflow))
            },
            Err(e) => Err(Error::from(e)),
        }
    }
}

impl<Q: ApexQueuingPortP1> ApexQueuingPortP1Ext for Q {
    fn get_queuing_port_sender(name: Name) -> Result<QueuingPortSender<Q>, Error> {
        let id = match Q::get_queuing_port_id(name.into_inner()) {
            Ok(id) => id,
            Err(e) => {
                return Err(Error::from(e));
            },
        };
        // Per the standard the status query can only fail for an unknown
        // identifier; this one came from the hypervisor a moment ago, so a
        // failure is surfaced instead of swallowed.
        let status = match Q::get_queuing_port_status(id) {
            Ok(s) => s,
            Err(e) => {
                return Err(Error::from(e));
            },
        };
        QueuingPortSender::from_status(id, &status)
    }

    fn get_queuing_port_receiver(name: Name) -> Result<QueuingPortReceiver<Q>, Error> {
        let id = match Q::get_queuing_port_id(name.into_inner()) {
            Ok(id) => id,
            Err(e) => {
                return Err(Error::from(e));
            },
        };
        let status = match Q::get_queuing_port_status(id) {
            Ok(s) => s,
            Err(e) => {
                return Err(Error::from(e));
            },
        };
        QueuingPortReceiver::from_status(id, &status)
    }
}

impl<Q: ApexQueuingPortP4Ext> QueuingPortSender<Q> {
    /// Checked send: the buffer is rejected with `WriteError` exactly when
    /// it is empty or longer than this port's message size; any other
    /// error comes from the hypervisor.
    pub fn send(&self, buffer: &[ApexByte], timeout: SystemTime) -> (r: Result<(), Error>)
        ensures
            r == Err::<(), Error>(Error::WriteError) <==> !write_len_valid(
                buffer@.len() as int,
                self.spec_msg_size(),
            ),
            r != Err::<(), Error>(Error::ReadError),
    {
        match validate_write(buffer, self.msg_size) {
            Ok(()) => Q::queueing_port_send_unchecked(self.id, buffer, timeout),
            Err(e) => Err(e),
        }
    }

    pub fn id(&self) -> (r: QueuingPortId)
        ensures
            r == self.spec_id(),
    {
        self.id
    }

    pub fn size(&self) -> (r: MessageSize)
        ensures
            r == self.spec_msg_size(),
    {
        self.msg_size
    }

    pub fn range(&self) -> (r: MessageRange)
        ensures
            r == self.spec_nb_msgs(),
    {
        self.nb_msgs
    }

    /// The current port status. Per the standard the query can only fail
    /// for an unknown identifier; since this handle's identifier came from
    /// the hypervisor, a failure is surfaced as an error.
    pub fn status(&self) -> (r: Result<QueuingPortStatus, Error>)
        ensures
            r matches Err(e) ==> e != Error::WriteError && e != Error::ReadError,
    {
        match Q::get_queuing_port_status(self.id) {
            Ok(s) => Ok(s),
            Err(e) => Err(Error::from(e)),
        }
    }
}

impl<Q: ApexQueuingPortP1Ext + ApexQueuingPortP1> QueuingPortSender<Q> {
    pub fn from_name(name: Name) -> (r: Result<QueuingPortSender<Q>, Error>)
        ensures
            r matches Err(e) ==> e != Error::WriteError && e != Error::ReadError,
    {
        Q::get_queuing_port_sender(name)
    }
}

impl<Q: ApexQueuingPortP4Ext> QueuingPortReceiver<Q> {
    /// Checked receive: the buffer is rejected with `ReadError` exactly
    /// when it is smaller than this port's message size; on success the
    /// returned slice is the received prefix of the buffer.
    pub fn receive<'a>(&self, buffer: &'a mut [ApexByte], timeout: SystemTime) -> (r: Result<
        (&'a [ApexByte], QueueOverflow),
        Error,
    >)
        ensures
            final(buffer)@.len() == old(buffer)@.len(),
            r matches Err(e) ==> (e == Error::ReadError <==> !read_len_valid(
                old(buffer)@.len() as int,
                self.spec_msg_size(),
            )),
            r matches Ok((m, o)) ==> m@ == final(buffer)@.take(m@.len() as int),
            r matches Ok((m, o)) ==> read_len_valid(old(buffer)@.len() as int, self.spec_msg_size()),
    {
        match validate_read(buffer, self.msg_size) {
            Ok(()) => Q::queueing_port_receive_unchecked(self.id, timeout, buffer),
            Err(e) => Err(e),
        }
    }

    /// Empties the queue. Per the standard this can only fail for an
    /// unknown identifier or a sender port; since this handle is a receiver
    /// created by the hypervisor, a failure is surfaced as an error.
    pub fn clear(&self) -> (r: Result<(), Error>)
        ensures
            r matches Err(e) ==> e != Error::WriteError && e != Error::ReadError,
    {
        match Q::clear_queuing_port(self.id) {
            Ok(()) => Ok(()),
            Err(e) => Err(Error::from(e)),
        }
    }

    pub fn id(&self) -> (r: QueuingPortId)
        ensures
            r == self.spec_id(),
    {
        self.id
    }

    pub fn size(&self) -> (r: MessageSize)
        ensures
            r == self.spec_msg_size(),
    {
        self.msg_size
    }

    pub fn range(&self) -> (r: MessageRange)
        ensures
            r == self.spec_nb_msgs(),
    {
        self.nb_msgs
    }

    /// The current port status; see [`QueuingPortSender::status`].
    pub fn status(&self) -> (r: Result<QueuingPortStatus, Error>)
        ensures
            r matches Err(e) ==> e != Error::WriteError && e != Error::ReadError,
    {
        match Q::get_queuing_port_status(self.id) {
            Ok(s) => Ok(s),
            Err(e) => Err(Error::from(e)),
        }
    }
}

impl<Q: ApexQueuingPortP1Ext + ApexQueuingPortP1> QueuingPortReceiver<Q> {
    pub fn from_name(name: Name) -> (r: Result<QueuingPortReceiver<Q>, Error>)
        ensures
            r matches Err(e) ==> e != Error::WriteError && e != Error::ReadError,
    {
        Q::get_queuing_port_receiver(name)
    }
}

impl<Q: ApexQueuingPortP4Ext> StartContext<Q> {
    /// Registers a sender port under the pinned message size and depth.
    pub fn create_const_queuing_port_sender<const MSG_SIZE: u32, const NB_MSGS: u32>(
        &mut self,
        name: Name,
        qd: QueuingDiscipline,
    ) -> (r: Result<ConstQueuingPortSender<MSG_SIZE, NB_MSGS, Q>, Error>)
        ensures
            r matches Ok(c) ==> c.spec_port().spec_msg_size() == MSG_SIZE
                && c.spec_port().spec_nb_msgs() == NB_MSGS,
            r matches Err(e) ==> e != Error::WriteError && e != Error::ReadError,
    {
        let port = match self.create_queuing_port_sender(name, MSG_SIZE, NB_MSGS, qd) {
            Ok(p) => p,
            Err(e) => {
                return Err(e);
            },
        };
        Ok(ConstQueuingPortSender(port))
    }

    /// Registers a receiver port under the pinned message size and depth.
    pub fn create_const_queuing_port_receiver<const MSG_SIZE: u32, const NB_MSGS: u32>(
        &mut self,
        name: Name,
        qd: QueuingDiscipline,
    ) -> (r: Result<ConstQueuingPortReceiver<MSG_SIZE, NB_MSGS, Q>, Error>)
        ensures
            r matches Ok(c) ==> c.spec_port().spec_msg_size() == MSG_SIZE
                && c.spec_port().spec_nb_msgs() == NB_MSGS,
            r matches Err(e) ==> e != Error::WriteError && e != Error::ReadError,
    {
        let port = match self.create_queuing_port_receiver(name, MSG_SIZE, NB_MSGS, qd) {
            Ok(p) => p,
            Err(e) => {
                return Err(e);
            },
        };
        Ok(ConstQueuingPortReceiver(port))
    }

    /// Registers a sender port; on success the handle records the size and
    /// depth it was created with.
    pub fn create_queuing_port_sender(
        &mut self,
        name: Name,
        msg_size: MessageSize,
        nb_msgs: MessageRange,
        qd: QueuingDiscipline,
    ) -> (r: Result<QueuingPortSender<Q>, Error>)
        ensures
            r matches Ok(p) ==> p.spec_msg_size() == msg_size && p.spec_nb_msgs() == nb_msgs,
            r matches Err(e) ==> e != Error::WriteError && e != Error::ReadError,
    {
        match Q::create_queuing_port(
            name.into_inner(),
            msg_size,
            nb_msgs,
            PortDirection::Source,
            qd,
        ) {
            Ok(id) => Ok(
                QueuingPortSender { _b: core::marker::PhantomData, id, msg_size, nb_msgs },
            ),
            Err(e) => Err(Error::from(e)),
        }
    }

    /// Registers a receiver port; on success the handle records the size
    /// and depth it was created with.
    pub fn create_queuing_port_receiver(
        &mut self,
        name: Name,
        msg_size: MessageSize,
        nb_msgs: MessageRange,
        qd: QueuingDiscipline,
    ) -> (r: Result<QueuingPortReceiver<Q>, Error>)
        ensures
            r matches Ok(p) ==> p.spec_msg_size() == msg_size && p.spec_nb_msgs() == nb_msgs,
            r matches Err(e) ==> e != Error::WriteError && e != Error::ReadError,
    {
        match Q::create_queuing_port(
            name.into_inner(),
            msg_size,
            nb_msgs,
            PortDirection::Destination,
            qd,
        ) {
            Ok(id) => Ok(
                QueuingPortReceiver { _b: core::marker::PhantomData, id, msg_size, nb_msgs },
            ),
            Err(e) => Err(Error::from(e)),
        }
    }
}

} // verus!
