//! Basic ARINC653 types: return codes, port attributes, the 32-byte name
//! encoding and the buffer validation rules shared by all ports.

use vstd::prelude::*;

verus! {

use vstd::string::StringSliceAdditionalSpecFns;

/// According to ARINC653P1, the maximum name length is always 32.
pub const MAX_NAME_LENGTH: usize = 32;

/// Apex internal return code type.
pub type ReturnCode = u32;

/// A fixed-size, NUL-padded name as handed to the hypervisor.
pub type ApexName = [u8; MAX_NAME_LENGTH];

pub type ApexByte = u8;

pub type ApexInteger = i32;

pub type ApexUnsigned = u32;

pub type ApexLongInteger = i64;

pub type MessageSize = ApexUnsigned;

pub type MessageRange = ApexUnsigned;

pub type WaitingRange = ApexInteger;

pub type ProcessorCoreId = ApexInteger;

pub const CORE_AFFINITY_NO_PREFERENCE: ProcessorCoreId = -1;

/// The normal APEX return codes without the non-error variant.
#[derive(Copy, Clone, Debug, PartialEq, Eq, Structural)]
pub enum ErrorReturnCode {
    /// status of system unaffected by request
    NoAction,
    /// resource required by request unavailable
    NotAvailable,
    /// invalid parameter specified in request
    InvalidParam,
    /// parameter incompatible with configuration
    InvalidConfig,
    /// request incompatible with current mode
    InvalidMode,
    /// time-out tied up with request has expired
    TimedOut,
}

/// The result that a raw return code stands for: `0` is success, `1` to `6`
/// name the six error conditions.
pub open spec fn spec_return_code_result(code: ReturnCode) -> Result<(), ErrorReturnCode> {
    if code == 0 {
        Ok(())
    } else if code == 1 {
        Err(ErrorReturnCode::NoAction)
    } else if code == 2 {
        Err(ErrorReturnCode::NotAvailable)
    } else if code == 3 {
        Err(ErrorReturnCode::InvalidParam)
    } else if code == 4 {
        Err(ErrorReturnCode::InvalidConfig)
    } else if code == 5 {
        Err(ErrorReturnCode::InvalidMode)
    } else {
        Err(ErrorReturnCode::TimedOut)
    }
}

impl ErrorReturnCode {
    /// Turns a raw return code into a `Result`; codes above `6` have no
    /// meaning in the standard and are ruled out by the precondition.
    pub fn from(from: ReturnCode) -> (r: Result<(), Self>)
        requires
            from <= 6,
        ensures
            r == spec_return_code_result(from),
    {
        match from {
            0 => Ok(()),
            1 => Err(ErrorReturnCode::NoAction),
            2 => Err(ErrorReturnCode::NotAvailable),
            3 => Err(ErrorReturnCode::InvalidParam),
            4 => Err(ErrorReturnCode::InvalidConfig),
            5 => Err(ErrorReturnCode::InvalidMode),
            _ => Err(ErrorReturnCode::TimedOut),
        }
    }
}

#[derive(Copy, Clone, Debug, PartialEq, Eq, Structural)]
pub enum PortDirection {
    Source,
    Destination,
}

impl PortDirection {
    /// `0` is a source, `1` a destination; anything else is handed back.
    pub fn try_from(value: ApexUnsigned) -> (r: Result<Self, ApexUnsigned>)
        ensures
            value == 0 ==> r == Ok::<Self, ApexUnsigned>(PortDirection::Source),
            value == 1 ==> r == Ok::<Self, ApexUnsigned>(PortDirection::Destination),
            value > 1 ==> r == Err::<Self, ApexUnsigned>(value),
    {
        match value {
            0 => Ok(PortDirection::Source),
            1 => Ok(PortDirection::Destination),
            _ => Err(value),
        }
    }
}

#[derive(Copy, Clone, Debug, PartialEq, Eq, Structural)]
pub enum QueuingDiscipline {
    /// First in/first out queue
    Fifo,
    /// Priority queue
    Priority,
}

impl QueuingDiscipline {
    /// `0` is FIFO, `1` priority; anything else is handed back.
    pub fn try_from(value: ApexUnsigned) -> (r: Result<Self, ApexUnsigned>)
        ensures
            value == 0 ==> r == Ok::<Self, ApexUnsigned>(QueuingDiscipline::Fifo),
            value == 1 ==> r == Ok::<Self, ApexUnsigned>(QueuingDiscipline::Priority),
            value > 1 ==> r == Err::<Self, ApexUnsigned>(value),
    {
        match value {
            0 => Ok(QueuingDiscipline::Fifo),
            1 => Ok(QueuingDiscipline::Priority),
            _ => Err(value),
        }
    }
}

/// Error type used by the abstracted operations: all variants of
/// [`ErrorReturnCode`] plus `WriteError` and `ReadError` for buffer-size
/// mismatches caught before the hypervisor is ever called.
#[derive(Copy, Clone, Debug, PartialEq, Eq, Structural)]
pub enum Error {
    /// status of system unaffected by request
    NoAction,
    /// resource required by request unavailable
    NotAvailable,
    /// invalid parameter specified in request
    InvalidParam,
    /// parameter incompatible with configuration
    InvalidConfig,
    /// request incompatible with current mode
    InvalidMode,
    /// time-out tied up with request has expired
    TimedOut,
    /// buffer has zero length or is too long
    WriteError,
    /// buffer is too small
    ReadError,
}

/// The abstracted error that a raw hypervisor error stands for.
pub open spec fn spec_error_of(rc: ErrorReturnCode) -> Error {
    match rc {
        ErrorReturnCode::NoAction => Error::NoAction,
        ErrorReturnCode::NotAvailable => Error::NotAvailable,
        ErrorReturnCode::InvalidParam => Error::InvalidParam,
        ErrorReturnCode::InvalidConfig => Error::InvalidConfig,
        ErrorReturnCode::InvalidMode => Error::InvalidMode,
        ErrorReturnCode::TimedOut => Error::TimedOut,
    }
}

impl Error {
    /// Widens a raw hypervisor error; never produces `WriteError` or
    /// `ReadError`, which only the buffer checks raise.
    pub fn from(rc: ErrorReturnCode) -> (r: Error)
        ensures
            r == spec_error_of(rc),
    {
        match rc {
            ErrorReturnCode::NoAction => Error::NoAction,
            ErrorReturnCode::NotAvailable => Error::NotAvailable,
            ErrorReturnCode::InvalidParam => Error::InvalidParam,
            ErrorReturnCode::InvalidConfig => Error::InvalidConfig,
            ErrorReturnCode::InvalidMode => Error::InvalidMode,
            ErrorReturnCode::TimedOut => Error::TimedOut,
        }
    }
}

/// A buffer may be written out whole when it is neither empty nor longer
/// than the port's message size.
pub open spec fn write_len_valid(len: int, size: MessageSize) -> bool {
    0 < len && len <= size as int
}

/// A buffer may receive any message when it is at least as large as the
/// port's message size.
pub open spec fn read_len_valid(len: int, size: MessageSize) -> bool {
    len >= size as int
}

/// Checks a buffer before a send: rejected exactly when it is empty or
/// longer than `size`.
pub fn validate_write(buffer: &[ApexByte], size: MessageSize) -> (r: Result<(), Error>)
    ensures
        r is Ok <==> write_len_valid(buffer@.len() as int, size),
        r is Err ==> r == Err::<(), Error>(Error::WriteError),
{
    if buffer.len() == 0 || buffer.len() > size as usize {
        Err(Error::WriteError)
    } else {
        Ok(())
    }
}

/// Checks a buffer before a receive: rejected exactly when it is smaller
/// than `size`.
pub fn validate_read(buffer: &[ApexByte], size: MessageSize) -> (r: Result<(), Error>)
    ensures
        r is Ok <==> read_len_valid(buffer@.len() as int, size),
        r is Err ==> r == Err::<(), Error>(Error::ReadError),
{
    if buffer.len() < size as usize {
        Err(Error::ReadError)
    } else {
        Ok(())
    }
}

/// The index of the first NUL byte, or the length when none occurs.
pub open spec fn nul_index(b: Seq<u8>) -> int
    decreases b.len(),
{
    if b.len() == 0 {
        0
    } else if b[0] == 0 {
        0
    } else {
        1 + nul_index(b.drop_first())
    }
}

/// The bytes of a stored name up to its NUL padding.
pub open spec fn name_prefix(b: Seq<u8>) -> Seq<u8> {
    b.take(nul_index(b))
}

/// `nul_index` points at the first NUL: everything before it is non-NUL,
/// and it only falls short of the length when a NUL is there.
pub proof fn lemma_nul_index(b: Seq<u8>)
    ensures
        0 <= nul_index(b) <= b.len(),
        forall|j: int| 0 <= j < nul_index(b) ==> b[j] != 0,
        nul_index(b) < b.len() ==> b[nul_index(b)] == 0,
    decreases b.len(),
{
    if b.len() > 0 && b[0] != 0 {
        lemma_nul_index(b.drop_first());
        assert forall|j: int| 0 <= j < nul_index(b) implies b[j] != 0 by {
            if j > 0 {
                assert(b.drop_first()[j - 1] != 0);
            }
        }
        if nul_index(b) < b.len() {
            assert(b.drop_first()[nul_index(b) - 1] == 0);
        }
    }
}

/// NUL-padding up to the full name length.
pub open spec fn pad_name_bytes(s: Seq<u8>) -> Seq<u8>
    recommends
        s.len() <= MAX_NAME_LENGTH,
{
    s + Seq::new((MAX_NAME_LENGTH - s.len()) as nat, |i: int| 0u8)
}

#[verifier::external_type_specification]
#[verifier::external_body]
pub struct ExUtf8Error(core::str::Utf8Error);

/// Relies on core::str::from_utf8: it succeeds exactly on valid UTF-8 and
/// then views the bytes as the characters they encode.
#[verifier::external_body]
fn bytes_as_str(v: &[u8]) -> (r: Result<&str, core::str::Utf8Error>)
    ensures
        r is Ok <==> vstd::utf8::valid_utf8(v@),
        r matches Ok(s) ==> s@ == vstd::utf8::decode_utf8(v@) && s.spec_bytes() == v@,
{
    core::str::from_utf8(v)
}

/// Convenient abstraction name type; wraps an [`ApexName`].
#[derive(Copy, Clone, Debug, PartialEq, Eq)]
pub struct Name(ApexName);

impl View for Name {
    type V = Seq<u8>;

    closed spec fn view(&self) -> Seq<u8> {
        self.0@
    }
}

impl Name {
    pub fn new(name: ApexName) -> (r: Self)
        ensures
            r@ == name@,
    {
        Name(name)
    }

    /// Encodes a string by NUL-padding its bytes to the full name length;
    /// a longer string is rejected with its byte length.
    pub fn encode(s: &str) -> (r: Result<Self, ApexUnsigned>)
        ensures
            r is Ok <==> s.spec_bytes().len() <= MAX_NAME_LENGTH,
            r matches Ok(n) ==> n@ == pad_name_bytes(s.spec_bytes()),
            r matches Err(e) ==> e == s.spec_bytes().len() as u32,
    {
        let bytes = s.as_bytes();
        if bytes.len() > MAX_NAME_LENGTH {
            return Err(bytes.len() as ApexUnsigned);
        }
        let mut array_name: ApexName = [0; MAX_NAME_LENGTH];
        let mut i: usize = 0;
        while i < bytes.len()
            invariant
                bytes@.len() <= MAX_NAME_LENGTH,
                i <= bytes@.len(),
                array_name@.len() == MAX_NAME_LENGTH,
                forall|j: int| 0 <= j < i ==> array_name@[j] == bytes@[j],
                forall|j: int| i <= j < MAX_NAME_LENGTH ==> array_name@[j] == 0,
            decreases bytes@.len() - i,
        {
            array_name[i] = bytes[i];
            i += 1;
        }
        assert(array_name@ =~= pad_name_bytes(bytes@));
        Ok(Name(array_name))
    }

    /// Decodes the bytes before the NUL padding back into a string; fails
    /// exactly when they are not valid UTF-8.
    pub fn to_str(&self) -> (r: Result<&str, core::str::Utf8Error>)
        ensures
            r is Ok <==> vstd::utf8::valid_utf8(name_prefix(self@)),
            r matches Ok(s) ==> s@ == vstd::utf8::decode_utf8(name_prefix(self@))
                && s.spec_bytes() == name_prefix(self@),
    {
        let mut end: usize = 0;
        while end < MAX_NAME_LENGTH && self.0[end] != 0
            invariant
                end <= MAX_NAME_LENGTH,
                self@.len() == MAX_NAME_LENGTH,
                forall|j: int| 0 <= j < end ==> self@[j] != 0,
            decreases MAX_NAME_LENGTH - end,
        {
            end += 1;
        }
        proof {
            lemma_nul_index(self@);
            if end < MAX_NAME_LENGTH {
                assert(self@[end as int] == 0);
            }
            assert(end == nul_index(self@));
        }
        let slice = vstd::slice::slice_subrange(self.0.as_slice(), 0, end);
        assert(slice@ =~= name_prefix(self@));
        bytes_as_str(slice)
    }

    pub fn into_inner(self) -> (r: ApexName)
        ensures
            r@ == self@,
    {
        self.0
    }
}

impl core::str::FromStr for Name {
    type Err = ApexUnsigned;

    fn from_str(s: &str) -> Result<Self, Self::Err> {
        Name::encode(s)
    }
}

} // verus!
