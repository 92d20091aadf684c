//! Sampling ports: last-value-wins channels between partitions, with
//! checked and unchecked send/receive paths.

use vstd::prelude::*;
use crate::types::{
    read_len_valid, validate_read, validate_write, write_len_valid, ApexByte, ApexLongInteger,
    ApexName, Error, ErrorReturnCode, MessageSize, Name, PortDirection,
};
use crate::time::{ApexSystemTime, Duration, SystemTime};
use crate::partition::StartContext;

verus! {

pub type SamplingPortName = ApexName;

pub type SamplingPortId = ApexLongInteger;

/// Whether the last message of a sampling port is fresh.
#[derive(Copy, Clone, Debug, PartialEq, Eq, Structural)]
pub enum Validity {
    Invalid,
    Valid,
}

/// The raw sampling port status as the hypervisor reports it.
#[derive(Copy, Clone, Debug, PartialEq, Eq, Structural)]
pub struct ApexSamplingPortStatus {
    pub refresh_period: ApexSystemTime,
    pub max_message_size: MessageSize,
    pub port_direction: PortDirection,
    pub last_msg_validity: Validity,
}

/// The abstracted sampling port status.
#[derive(Copy, Clone, Debug, PartialEq, Eq, Structural)]
pub struct SamplingPortStatus {
    pub refresh_period: SystemTime,
    pub max_message_size: MessageSize,
    pub port_direction: PortDirection,
    pub last_msg_validity: Validity,
}

impl SamplingPortStatus {
    /// Abstracts the raw status field by field.
    pub fn from_apex(s: &ApexSamplingPortStatus) -> (r: SamplingPortStatus)
        ensures
            r.refresh_period == crate::time::spec_system_time_of(s.refresh_period),
            r.max_message_size == s.max_message_size,
            r.port_direction == s.port_direction,
            r.last_msg_validity == s.last_msg_validity,
    {
        SamplingPortStatus {
            refresh_period: SystemTime::new(s.refresh_period),
            max_message_size: s.max_message_size,
            port_direction: s.port_direction,
            last_msg_validity: s.last_msg_validity,
        }
    }
}

/// Required sampling port operations of every hypervisor.
pub trait ApexSamplingPortP4 {
    /// Registers a sampling port; only valid during a start mode. The
    /// hypervisor rejects a name that already exists with `NoAction`.
    fn create_sampling_port(
        sampling_port_name: SamplingPortName,
        max_message_size: MessageSize,
        port_direction: PortDirection,
        refresh_period: ApexSystemTime,
    ) -> Result<SamplingPortId, ErrorReturnCode>;

    fn write_sampling_message(sampling_port_id: SamplingPortId, message: &[ApexByte]) -> Result<
        (),
        ErrorReturnCode,
    >;

    /// Reads the latest message into the buffer. The hypervisor writes
    /// only into the given buffer and reports how many bytes it placed
    /// there; the caller is obliged to pass a buffer at least as large as
    /// the port's message size.
    fn read_sampling_message(sampling_port_id: SamplingPortId, message: &mut [ApexByte]) -> (r:
        Result<(Validity, MessageSize), ErrorReturnCode>)
        ensures
            final(message)@.len() == old(message)@.len(),
            r matches Ok((v, len)) ==> len <= final(message)@.len(),
    ;
}

/// Extended sampling port operations of a full hypervisor.
pub trait ApexSamplingPortP1: ApexSamplingPortP4 {
    fn get_sampling_port_id(sampling_port_name: SamplingPortName) -> Result<
        SamplingPortId,
        ErrorReturnCode,
    >;

    fn get_sampling_port_status(sampling_port_id: SamplingPortId) -> Result<
        ApexSamplingPortStatus,
        ErrorReturnCode,
    >;
}

/// Free extra operations for every implementer of [`ApexSamplingPortP4`].
pub trait ApexSamplingPortP4Ext: ApexSamplingPortP4 + Sized {
    /// Sends without a buffer check; the abstracted error never names a
    /// buffer mismatch.
    fn sampling_port_send_unchecked(id: SamplingPortId, buffer: &[ApexByte]) -> (r: Result<
        (),
        Error,
    >)
        ensures
            r matches Err(e) ==> e != Error::WriteError && e != Error::ReadError,
    ;

    /// Receives without a buffer check; the caller is obliged to pass a
    /// buffer that can hold whatever is received. The returned slice is
    /// the prefix of the buffer that the hypervisor filled.
    fn sampling_port_receive_unchecked<'a>(
        id: SamplingPortId,
        buffer: &'a mut [ApexByte],
    ) -> (r: Result<(Validity, &'a [ApexByte]), Error>)
        ensures
            final(buffer)@.len() == old(buffer)@.len(),
            r matches Ok((v, m)) ==> m@ == final(buffer)@.take(m@.len() as int),
            r matches Err(e) ==> e != Error::WriteError && e != Error::ReadError,
    ;
}

/// Free extra operations for every implementer of [`ApexSamplingPortP1`].
pub trait ApexSamplingPortP1Ext: ApexSamplingPortP1 + Sized {
    /// Looks a source port up by name; fails with `InvalidConfig` when the
    /// port exists with the wrong direction.
    fn get_sampling_port_source(name: Name) -> (r: Result<SamplingPortSource<Self>, Error>)
        ensures
            r matches Err(e) ==> e != Error::WriteError && e != Error::ReadError,
    ;

    /// Looks a destination port up by name; fails with `InvalidConfig`
    /// when the port exists with the wrong direction.
    fn get_sampling_port_destination(name: Name) -> (r: Result<
        SamplingPortDestination<Self>,
        Error,
    >)
        ensures
            r matches Err(e) ==> e != Error::WriteError && e != Error::ReadError,
    ;
}

/// A typed handle on a created sampling port source.
#[derive(Debug)]
pub struct SamplingPortSource<S: ApexSamplingPortP4Ext> {
    _b: core::marker::PhantomData<S>,
    id: SamplingPortId,
    msg_size: MessageSize,
}

impl<S: ApexSamplingPortP4Ext> SamplingPortSource<S> {
    pub closed spec fn spec_id(&self) -> SamplingPortId {
        self.id
    }

    pub closed spec fn spec_msg_size(&self) -> MessageSize {
        self.msg_size
    }
}

impl<S: ApexSamplingPortP4Ext> Clone for SamplingPortSource<S> {
    fn clone(&self) -> (r: Self)
        ensures
            r.spec_id() == self.spec_id(),
            r.spec_msg_size() == self.spec_msg_size(),
    {
        SamplingPortSource { _b: self._b, id: self.id, msg_size: self.msg_size }
    }
}

/// A typed handle on a created sampling port destination.
#[derive(Debug)]
pub struct SamplingPortDestination<S: ApexSamplingPortP4Ext> {
    _b: core::marker::PhantomData<S>,
    id: SamplingPortId,
    msg_size: MessageSize,
    refresh: Duration,
}

impl<S: ApexSamplingPortP4Ext> SamplingPortDestination<S> {
    pub closed spec fn spec_id(&self) -> SamplingPortId {
        self.id
    }

    pub closed spec fn spec_msg_size(&self) -> MessageSize {
        self.msg_size
    }

    pub closed spec fn spec_refresh(&self) -> Duration {
        self.refresh
    }
}

impl<S: ApexSamplingPortP4Ext> Clone for SamplingPortDestination<S> {
    fn clone(&self) -> (r: Self)
        ensures
            r.spec_id() == self.spec_id(),
            r.spec_msg_size() == self.spec_msg_size(),
            r.spec_refresh() == self.spec_refresh(),
    {
        SamplingPortDestination {
            _b: self._b,
            id: self.id,
            msg_size: self.msg_size,
            refresh: self.refresh,
        }
    }
}

impl<S: ApexSamplingPortP4Ext> SamplingPortSource<S> {
    /// Builds the handle that a successful lookup records, deciding on the
    /// reported status: accepted exactly when the port is a source, with
    /// the handle pinned to the identifier and the reported message size.
    pub fn from_status(id: SamplingPortId, status: &ApexSamplingPortStatus) -> (r: Result<
        Self,
        Error,
    >)
        ensures
            r is Ok <==> status.port_direction == PortDirection::Source,
            r matches Ok(p) ==> p.spec_id() == id && p.spec_msg_size() == status.max_message_size,
            r is Err ==> r == Err::<Self, Error>(Error::InvalidConfig),
    {
        match status.port_direction {
            PortDirection::Source => Ok(
                SamplingPortSource {
                    _b: core::marker::PhantomData,
                    id,
                    msg_size: status.max_message_size,
                },
            ),
            PortDirection::Destination => Err(Error::InvalidConfig),
        }
    }
}

impl<S: ApexSamplingPortP4Ext> SamplingPortDestination<S> {
    /// Builds the handle that a successful lookup records, deciding on the
    /// reported status: accepted exactly when the port is a destination
    /// with a finite refresh period (per the standard the period set at
    /// start is always positive), with the handle pinned to the
    /// identifier, the reported message size and the reported period.
    pub fn from_status(id: SamplingPortId, status: &ApexSamplingPortStatus) -> (r: Result<
        Self,
        Error,
    >)
        ensures
            r is Ok <==> (status.port_direction == PortDirection::Destination
                && status.refresh_period >= 0),
            r matches Ok(p) ==> p.spec_id() == id && p.spec_msg_size() == status.max_message_size
                && crate::time::spec_system_time_of(status.refresh_period) == SystemTime::Normal(
                p.spec_refresh(),
            ),
            r is Err ==> r == Err::<Self, Error>(Error::InvalidConfig),
    {
        match status.port_direction {
            PortDirection::Destination => {
                let refresh = match SystemTime::new(status.refresh_period) {
                    SystemTime::Normal(d) => d,
                    SystemTime::Infinite => {
                        return Err(Error::InvalidConfig);
                    },
                };
                Ok(
                    SamplingPortDestination {
                        _b: core::marker::PhantomData,
                        id,
                        msg_size: status.max_message_size,
                        refresh,
                    },
                )
            },
            PortDirection::Source => Err(Error::InvalidConfig),
        }
    }
}

/// A source port whose message size is pinned at the type level.
#[derive(Debug)]
pub struct ConstSamplingPortSource<const MSG_SIZE: u32, S: ApexSamplingPortP4Ext>(
    SamplingPortSource<S>,
);

impl<const MSG_SIZE: u32, S: ApexSamplingPortP4Ext> ConstSamplingPortSource<MSG_SIZE, S> {
    /// Pins an untyped port; rejected with `InvalidConfig` exactly when its
    /// message size differs from the pinned one.
    pub fn try_from(port: SamplingPortSource<S>) -> (r: Result<Self, Error>)
        ensures
            r is Ok <==> port.spec_msg_size() == MSG_SIZE,
            r matches Ok(c) ==> c.spec_port().spec_msg_size() == MSG_SIZE && c.spec_port().spec_id()
                == port.spec_id(),
            r is Err ==> (r matches Err(e) && e == Error::InvalidConfig),
    {
        if port.size() != MSG_SIZE {
            return Err(Error::InvalidConfig);
        }
        Ok(ConstSamplingPortSource(port))
    }

    /// The untyped port underneath.
    pub fn port(&self) -> (r: &SamplingPortSource<S>)
        ensures
            r == self.spec_port(),
    {
        &self.0
    }

    pub closed spec fn spec_port(&self) -> SamplingPortSource<S> {
        self.0
    }

    pub fn into_inner(self) -> (r: SamplingPortSource<S>)
        ensures
            r == self.spec_port(),
    {
        self.0
    }
}

/// A destination port whose message size is pinned at the type level.
#[derive(Debug)]
pub struct ConstSamplingPortDestination<const MSG_SIZE: u32, S: ApexSamplingPortP4Ext>(
    SamplingPortDestination<S>,
);

impl<const MSG_SIZE: u32, S: ApexSamplingPortP4Ext> ConstSamplingPortDestination<MSG_SIZE, S> {
    /// Pins an untyped port; rejected with `InvalidConfig` exactly when its
    /// message size differs from the pinned one.
    pub fn try_from(port: SamplingPortDestination<S>) -> (r: Result<Self, Error>)
        ensures
            r is Ok <==> port.spec_msg_size() == MSG_SIZE,
            r matches Ok(c) ==> c.spec_port().spec_msg_size() == MSG_SIZE && c.spec_port().spec_id()
                == port.spec_id(),
            r is Err ==> (r matches Err(e) && e == Error::InvalidConfig),
    {
        if port.size() != MSG_SIZE {
            return Err(Error::InvalidConfig);
        }
        Ok(ConstSamplingPortDestination(port))
    }

    /// The untyped port underneath.
    pub fn port(&self) -> (r: &SamplingPortDestination<S>)
        ensures
            r == self.spec_port(),
    {
        &self.0
    }

    pub closed spec fn spec_port(&self) -> SamplingPortDestination<S> {
        self.0
    }

    pub fn into_inner(self) -> (r: SamplingPortDestination<S>)
        ensures
            r == self.spec_port(),
    {
        self.0
    }
}

impl<S: ApexSamplingPortP4> ApexSamplingPortP4Ext for S {
    fn sampling_port_send_unchecked(id: SamplingPortId, buffer: &[ApexByte]) -> Result<
        (),
        Error,
    > {
        match S::write_sampling_message(id, buffer) {
            Ok(()) => Ok(()),
            Err(e) => Err(Error::from(e)),
        }
    }

    fn sampling_port_receive_unchecked<'a>(
        id: SamplingPortId,
        buffer: &'a mut [ApexByte],
    ) -> Result<(Validity, &'a [ApexByte]), Error> {
        match S::read_sampling_message(id, buffer) {
            Ok((val, len)) => {
                let m = vstd::slice::slice_subrange(buffer, 0, len as usize);
                Ok((val, m))
            },
            Err(e) => Err(Error::from(e)),
        }
    }
}

impl<S: ApexSamplingPortP1> ApexSamplingPortP1Ext for S {
    fn get_sampling_port_source(name: Name) -> Result<SamplingPortSource<S>, Error> {
        let id = match S::get_sampling_port_id(name.into_inner()) {
            Ok(id) => id,
            Err(e) => {
                return Err(Error::from(e));
            },
        };
        // Per the standard the status query can only fail for an unknown
        // identifier; this one came from the hypervisor a moment ago, so a
        // failure is surfaced instead of swallowed.
        let status = match S::get_sampling_port_status(id) {
            Ok(s) => s,
            Err(e) => {
                return Err(Error::from(e));
            },
        };
        SamplingPortSource::from_status(id, &status)
    }

    fn get_sampling_port_destination(name: Name) -> Result<SamplingPortDestination<S>, Error> {
        let id = match S::get_sampling_port_id(name.into_inner()) {
            Ok(id) => id,
            Err(e) => {
                return Err(Error::from(e));
            },
        };
        let status = match S::get_sampling_port_status(id) {
            Ok(s) => s,
            Err(e) => {
                return Err(Error::from(e));
            },
        };
        SamplingPortDestination::from_status(id, &status)
    }
}

impl<S: ApexSamplingPortP4Ext> SamplingPortSource<S> {
    /// Checked send: the buffer is rejected with `WriteError` exactly when
    /// it is empty or longer than this port's message size; any other
    /// error comes from the hypervisor.
    pub fn send(&self, buffer: &[ApexByte]) -> (r: Result<(), Error>)
        ensures
            r == Err::<(), Error>(Error::WriteError) <==> !write_len_valid(
                buffer@.len() as int,
                self.spec_msg_size(),
            ),
            r != Err::<(), Error>(Error::ReadError),
    {
        match validate_write(buffer, self.msg_size) {
            Ok(()) => S::sampling_port_send_unchecked(self.id, buffer),
            Err(e) => Err(e),
        }
    }

    pub fn id(&self) -> (r: SamplingPortId)
        ensures
            r == self.spec_id(),
    {
        self.id
    }

    pub fn size(&self) -> (r: MessageSize)
        ensures
            r == self.spec_msg_size(),
    {
        self.msg_size
    }
}

impl<S: ApexSamplingPortP1Ext + ApexSamplingPortP1> SamplingPortSource<S> {
    pub fn from_name(name: Name) -> (r: Result<SamplingPortSource<S>, Error>)
        ensures
            r matches Err(e) ==> e != Error::WriteError && e != Error::ReadError,
    {
        S::get_sampling_port_source(name)
    }

    /// The current port status. Per the standard the query can only fail
    /// for an unknown identifier; since this handle's identifier came from
    /// the hypervisor, a failure is surfaced as an error.
    pub fn status(&self) -> (r: Result<SamplingPortStatus, Error>)
        ensures
            r matches Err(e) ==> e != Error::WriteError && e != Error::ReadError,
    {
        match S::get_sampling_port_status(self.id) {
            Ok(s) => Ok(SamplingPortStatus::from_apex(&s)),
            Err(e) => Err(Error::from(e)),
        }
    }
}

impl<S: ApexSamplingPortP4Ext> SamplingPortDestination<S> {
    /// Checked receive: the buffer is rejected with `ReadError` exactly
    /// when it is smaller than this port's message size; on success the
    /// returned slice is the received prefix of the buffer.
    pub fn receive<'a>(&self, buffer: &'a mut [ApexByte]) -> (r: Result<
        (Validity, &'a [ApexByte]),
        Error,
    >)
        ensures
            final(buffer)@.len() == old(buffer)@.len(),
            r matches Err(e) ==> (e == Error::ReadError <==> !read_len_valid(
                old(buffer)@.len() as int,
                self.spec_msg_size(),
            )),
            r matches Ok((v, m)) ==> m@ == final(buffer)@.take(m@.len() as int),
            r matches Ok((v, m)) ==> read_len_valid(old(buffer)@.len() as int, self.spec_msg_size()),
    {
        match validate_read(buffer, self.msg_size) {
            Ok(()) => S::sampling_port_receive_unchecked(self.id, buffer),
            Err(e) => Err(e),
        }
    }

    pub fn id(&self) -> (r: SamplingPortId)
        ensures
            r == self.spec_id(),
    {
        self.id
    }

    pub fn size(&self) -> (r: MessageSize)
        ensures
            r == self.spec_msg_size(),
    {
        self.msg_size
    }

    pub fn refresh_period(&self) -> (r: Duration)
        ensures
            r == self.spec_refresh(),
    {
        self.refresh
    }
}

impl<S: ApexSamplingPortP1Ext + ApexSamplingPortP1> SamplingPortDestination<S> {
    pub fn from_name(name: Name) -> (r: Result<SamplingPortDestination<S>, Error>)
        ensures
            r matches Err(e) ==> e != Error::WriteError && e != Error::ReadError,
    {
        S::get_sampling_port_destination(name)
    }

    /// The current port status; see [`SamplingPortSource::status`].
    pub fn status(&self) -> (r: Result<SamplingPortStatus, Error>)
        ensures
            r matches Err(e) ==> e != Error::WriteError && e != Error::ReadError,
    {
        match S::get_sampling_port_status(self.id) {
            Ok(s) => Ok(SamplingPortStatus::from_apex(&s)),
            Err(e) => Err(Error::from(e)),
        }
    }
}

impl<S: ApexSamplingPortP4Ext> StartContext<S> {
    /// Registers a source port under the pinned message size.
    pub fn create_const_sampling_port_source<const MSG_SIZE: u32>(&mut self, name: Name) -> (r:
        Result<ConstSamplingPortSource<MSG_SIZE, S>, Error>)
        ensures
            r matches Ok(c) ==> c.spec_port().spec_msg_size() == MSG_SIZE,
            r matches Err(e) ==> e != Error::WriteError && e != Error::ReadError,
    {
        let port = match self.create_sampling_port_source(name, MSG_SIZE) {
            Ok(p) => p,
            Err(e) => {
                return Err(e);
            },
        };
        Ok(ConstSamplingPortSource(port))
    }

    /// Registers a destination port under the pinned message size.
    pub fn create_const_sampling_port_destination<const MSG_SIZE: u32>(
        &mut self,
        name: Name,
        refresh: Duration,
    ) -> (r: Result<ConstSamplingPortDestination<MSG_SIZE, S>, Error>)
        ensures
            r matches Ok(c) ==> c.spec_port().spec_msg_size() == MSG_SIZE && c.spec_port().spec_refresh()
                == refresh,
            r matches Err(e) ==> e != Error::WriteError && e != Error::ReadError,
    {
        let port = match self.create_sampling_port_destination(name, MSG_SIZE, refresh) {
            Ok(p) => p,
            Err(e) => {
                return Err(e);
            },
        };
        Ok(ConstSamplingPortDestination(port))
    }

    /// Registers a source port; on success the handle records the size it
    /// was created with.
    pub fn create_sampling_port_source(&mut self, name: Name, msg_size: MessageSize) -> (r: Result<
        SamplingPortSource<S>,
        Error,
    >)
        ensures
            r matches Ok(p) ==> p.spec_msg_size() == msg_size,
            r matches Err(e) ==> e != Error::WriteError && e != Error::ReadError,
    {
        // The refresh period is ignored for a source but must not be zero,
        // so a one-nanosecond span is handed over.
        let refresh = SystemTime::Normal(Duration::new(0, 1)).to_apex();
        match S::create_sampling_port(
            name.into_inner(),
            msg_size,
            PortDirection::Source,
            refresh,
        ) {
            Ok(id) => Ok(SamplingPortSource { _b: core::marker::PhantomData, id, msg_size }),
            Err(e) => Err(Error::from(e)),
        }
    }

    /// Registers a destination port; on success the handle records the
    /// size and refresh period it was created with.
    pub fn create_sampling_port_destination(
        &mut self,
        name: Name,
        msg_size: MessageSize,
        refresh: Duration,
    ) -> (r: Result<SamplingPortDestination<S>, Error>)
        ensures
            r matches Ok(p) ==> p.spec_msg_size() == msg_size && p.spec_refresh() == refresh,
            r matches Err(e) ==> e != Error::WriteError && e != Error::ReadError,
    {
        match S::create_sampling_port(
            name.into_inner(),
            msg_size,
            PortDirection::Destination,
            SystemTime::Normal(refresh).to_apex(),
        ) {
            Ok(id) => Ok(
                SamplingPortDestination { _b: core::marker::PhantomData, id, msg_size, refresh },
            ),
            Err(e) => Err(Error::from(e)),
        }
    }
}

} // verus!
