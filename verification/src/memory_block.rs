//! Memory blocks: named, statically configured memory regions. The
//! region's start is carried as an opaque address; dereferencing it is
//! the embedder's business, outside this library.

use vstd::prelude::*;
use crate::types::{ApexInteger, ApexName, Error, ErrorReturnCode, Name};
use crate::process::SystemAddress;

verus! {

pub type MemoryBlockName = ApexName;

pub type MemoryBlockSize = ApexInteger;

/// Whether a memory block may be written.
#[derive(Copy, Clone, Debug, PartialEq, Eq, Structural)]
pub enum MemoryBlockMode {
    Read,
    ReadWrite,
}

/// The raw memory block status as the hypervisor reports it.
#[derive(Copy, Clone, Debug, PartialEq, Eq, Structural)]
pub struct ApexMemoryBlockStatus {
    /// start of the region, as an opaque address
    pub address: SystemAddress,
    /// region length in bytes
    pub size: MemoryBlockSize,
    pub mode: MemoryBlockMode,
}

/// Required memory block operations of a memory-block-aware hypervisor.
pub trait ApexMemoryBlockP2 {
    fn get_memory_block_status(memory_block_name: MemoryBlockName) -> Result<
        ApexMemoryBlockStatus,
        ErrorReturnCode,
    >;
}

/// A typed handle on a configured memory block.
#[derive(Debug)]
pub struct MemoryBlock<M: ApexMemoryBlockP2> {
    _m: core::marker::PhantomData<M>,
    address: SystemAddress,
    size: MemoryBlockSize,
    mode: MemoryBlockMode,
}

impl<M: ApexMemoryBlockP2> MemoryBlock<M> {
    pub closed spec fn spec_address(&self) -> SystemAddress {
        self.address
    }

    pub closed spec fn spec_size(&self) -> MemoryBlockSize {
        self.size
    }

    pub closed spec fn spec_mode(&self) -> MemoryBlockMode {
        self.mode
    }
}

/// Free extra operations for every implementer of [`ApexMemoryBlockP2`].
pub trait ApexMemoryBlockP2Ext: ApexMemoryBlockP2 + Sized {
    /// Looks a memory block up by name.
    fn get_memory_block(name: Name) -> (r: Result<MemoryBlock<Self>, Error>)
        ensures
            r matches Err(e) ==> e != Error::WriteError && e != Error::ReadError,
    ;
}

impl<M: ApexMemoryBlockP2> ApexMemoryBlockP2Ext for M {
    fn get_memory_block(name: Name) -> Result<MemoryBlock<M>, Error> {
        match M::get_memory_block_status(name.into_inner()) {
            Ok(s) => Ok(
                MemoryBlock {
                    _m: core::marker::PhantomData,
                    address: s.address,
                    size: s.size,
                    mode: s.mode,
                },
            ),
            Err(e) => Err(Error::from(e)),
        }
    }
}

impl<M: ApexMemoryBlockP2> MemoryBlock<M> {
    pub fn from_name(name: Name) -> (r: Result<MemoryBlock<M>, Error>)
        ensures
            r matches Err(e) ==> e != Error::WriteError && e != Error::ReadError,
    {
        M::get_memory_block(name)
    }

    /// The region's opaque start address.
    pub fn address(&self) -> (r: SystemAddress)
        ensures
            r == self.spec_address(),
    {
        self.address
    }

    /// The region length in bytes.
    pub fn size(&self) -> (r: MemoryBlockSize)
        ensures
            r == self.spec_size(),
    {
        self.size
    }

    pub fn mode(&self) -> (r: MemoryBlockMode)
        ensures
            r == self.spec_mode(),
    {
        self.mode
    }
}

} // verus!
