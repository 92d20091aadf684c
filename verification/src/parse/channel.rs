//! Channel descriptors: the four channel-kind markers, their fields, and
//! the validated port name type.

use vstd::prelude::*;
use crate::decl::{
    clone_string, contains_attribute, has_attr, spec_find_field, Attr, AttrValue, BuildError,
    BuildErrorKind, Decl, DeclKind, FieldName, Marker,
};
use crate::parse::util::{
    byte_size_of, duration_literal_bounded, duration_literal_bounded_check, duration_of,
    eq_ignore_case_bytes, str_bytes, WrappedByteSize, WrappedDuration,
};
use crate::time::{dur_wf, dur_nanos, Duration};
use crate::types::{pad_name_bytes, Name, QueuingDiscipline, MAX_NAME_LENGTH};

verus! {

use vstd::string::StringSliceAdditionalSpecFns;

/// A printable ASCII byte.
pub open spec fn is_printable_ascii(b: u8) -> bool {
    0x20 <= b <= 0x7e
}

/// A valid port name: at most 32 bytes, all of them printable ASCII.
pub open spec fn valid_name_bytes(s: Seq<u8>) -> bool {
    s.len() <= MAX_NAME_LENGTH && (forall|i: int| 0 <= i < s.len() ==> is_printable_ascii(s[i]))
}

/// A validated port or process name, as the descriptors carry it; viewed
/// as its byte sequence.
#[derive(Debug, PartialEq, Eq)]
pub struct PortName {
    name: String,
}

impl View for PortName {
    type V = Seq<u8>;

    closed spec fn view(&self) -> Seq<u8> {
        str_bytes(self.name@)
    }
}

impl PortName {
    #[verifier::type_invariant]
    spec fn type_inv(&self) -> bool {
        valid_name_bytes(self@)
    }

    /// Validates a name: rejected exactly when it is longer than 32 bytes
    /// or holds a byte outside printable ASCII.
    pub fn from_string(value: &str) -> (r: Result<PortName, ()>)
        ensures
            r is Ok <==> valid_name_bytes(value.spec_bytes()),
            r matches Ok(p) ==> p@ == value.spec_bytes(),
    {
        let bytes = value.as_bytes();
        if bytes.len() > MAX_NAME_LENGTH {
            return Err(());
        }
        let mut i: usize = 0;
        while i < bytes.len()
            invariant
                i <= bytes@.len(),
                bytes@ == value.spec_bytes(),
                bytes@.len() <= MAX_NAME_LENGTH,
                forall|j: int| 0 <= j < i ==> is_printable_ascii(bytes@[j]),
            decreases bytes@.len() - i,
        {
            let b = bytes[i];
            if b < 0x20 || b > 0x7e {
                proof {
                    assert(!is_printable_ascii(bytes@[i as int]));
                }
                return Err(());
            }
            i += 1;
        }
        Ok(PortName { name: value.to_owned() })
    }

    /// The name's characters.
    pub fn as_str(&self) -> (r: &str)
        ensures
            r.spec_bytes() == self@,
    {
        self.name.as_str()
    }

    /// Encodes the name by NUL-padding it to the full name length.
    pub fn to_name(&self) -> (r: Name)
        ensures
            r@ == pad_name_bytes(self@),
    {
        proof {
            use_type_invariant(self);
        }
        match Name::encode(self.name.as_str()) {
            Ok(n) => n,
            Err(_) => unreached(),
        }
    }

    /// A structural copy of this name.
    pub fn deep_clone(&self) -> (r: PortName)
        ensures
            r == *self,
    {
        proof {
            use_type_invariant(self);
        }
        PortName { name: clone_string(&self.name) }
    }
}

/// The name a declaration's marker selects: the explicit `name` field
/// when it is a non-empty string, the declaration's identifier otherwise.
pub open spec fn spec_name_source(ident: Seq<char>, attrs: Seq<Attr>, m: Seq<char>) -> Seq<char> {
    match spec_find_field(attrs, m, "name"@) {
        Some(AttrValue::Str(s)) => if s@.len() == 0 {
            ident
        } else {
            s@
        },
        _ => ident,
    }
}

/// The name field is well-formed: absent, or a string; and the selected
/// name is valid.
pub open spec fn name_field_ok(ident: Seq<char>, attrs: Seq<Attr>, m: Seq<char>) -> bool {
    &&& match spec_find_field(attrs, m, "name"@) {
        None => true,
        Some(AttrValue::Str(_)) => true,
        Some(_) => false,
    }
    &&& valid_name_bytes(str_bytes(spec_name_source(ident, attrs, m)))
}

/// Reads and validates the marker's name field, substituting the
/// declaration's identifier when none was given.
pub(crate) fn parse_name(ident: &str, attrs: &Vec<Attr>, m: &str) -> (r: Result<PortName, BuildErrorKind>)
    ensures
        r is Ok <==> name_field_ok(ident@, attrs@, m@),
        r matches Ok(p) ==> p@ == str_bytes(spec_name_source(ident@, attrs@, m@)),
        r matches Err(e) ==> e == (BuildErrorKind::InvalidName { field: FieldName::Name }),
{
    let source: &str = match crate::decl::find_field(attrs, m, "name") {
        Some(AttrValue::Str(s)) => {
            if s.as_str().is_empty() {
                ident
            } else {
                s.as_str()
            }
        },
        Some(_) => {
            return Err(BuildErrorKind::InvalidName { field: FieldName::Name });
        },
        None => ident,
    };
    match PortName::from_string(source) {
        Ok(p) => Ok(p),
        Err(_) => Err(BuildErrorKind::InvalidName { field: FieldName::Name }),
    }
}

/// The message size field is well-formed: a size literal that parses to a
/// positive count representable as a message size.
pub open spec fn msg_size_ok(attrs: Seq<Attr>, m: Seq<char>) -> bool {
    match spec_find_field(attrs, m, "msg_size"@) {
        Some(AttrValue::Str(s)) => match byte_size_of(s@) {
            Some(n) => 0 < n <= u32::MAX,
            None => false,
        },
        _ => false,
    }
}

/// The parsed message size; meaningful under [`msg_size_ok`].
pub open spec fn spec_msg_size(attrs: Seq<Attr>, m: Seq<char>) -> u64 {
    match spec_find_field(attrs, m, "msg_size"@) {
        Some(AttrValue::Str(s)) => match byte_size_of(s@) {
            Some(n) => n,
            None => 0,
        },
        _ => 0,
    }
}

/// The error a bad message size field reports; meaningful when
/// [`msg_size_ok`] fails.
pub open spec fn spec_msg_size_err(attrs: Seq<Attr>, m: Seq<char>) -> BuildErrorKind {
    match spec_find_field(attrs, m, "msg_size"@) {
        None => BuildErrorKind::MissingField { field: FieldName::MsgSize },
        Some(AttrValue::Str(s)) => match byte_size_of(s@) {
            Some(n) => BuildErrorKind::OutOfRange { field: FieldName::MsgSize },
            None => BuildErrorKind::MalformedLiteral { field: FieldName::MsgSize },
        },
        Some(_) => BuildErrorKind::MalformedLiteral { field: FieldName::MsgSize },
    }
}

/// Reads and validates the marker's message size field.
fn parse_msg_size(attrs: &Vec<Attr>, m: &str) -> (r: Result<u32, BuildErrorKind>)
    ensures
        r is Ok <==> msg_size_ok(attrs@, m@),
        r matches Ok(n) ==> n == spec_msg_size(attrs@, m@),
        r matches Err(e) ==> e == spec_msg_size_err(attrs@, m@),
{
    match crate::decl::find_field(attrs, m, "msg_size") {
        Some(AttrValue::Str(s)) => match WrappedByteSize::from_string(s.as_str()) {
            Ok(w) => {
                let n = w.bytes();
                if n == 0 || n > u32::MAX as u64 {
                    Err(BuildErrorKind::OutOfRange { field: FieldName::MsgSize })
                } else {
                    Ok(n as u32)
                }
            },
            Err(_) => Err(BuildErrorKind::MalformedLiteral { field: FieldName::MsgSize }),
        },
        Some(_) => Err(BuildErrorKind::MalformedLiteral { field: FieldName::MsgSize }),
        None => Err(BuildErrorKind::MissingField { field: FieldName::MsgSize }),
    }
}

/// The message count field is well-formed: an integer literal that is
/// positive and representable as a message range.
pub open spec fn msg_count_ok(attrs: Seq<Attr>, m: Seq<char>) -> bool {
    match spec_find_field(attrs, m, "msg_count"@) {
        Some(AttrValue::Int(c)) => 0 < c <= u32::MAX,
        _ => false,
    }
}

/// The parsed message count; meaningful under [`msg_count_ok`].
pub open spec fn spec_msg_count(attrs: Seq<Attr>, m: Seq<char>) -> int {
    match spec_find_field(attrs, m, "msg_count"@) {
        Some(AttrValue::Int(c)) => c as int,
        _ => 0,
    }
}

/// The error a bad message count field reports; meaningful when
/// [`msg_count_ok`] fails.
pub open spec fn spec_msg_count_err(attrs: Seq<Attr>, m: Seq<char>) -> BuildErrorKind {
    match spec_find_field(attrs, m, "msg_count"@) {
        None => BuildErrorKind::MissingField { field: FieldName::MsgCount },
        Some(AttrValue::Int(c)) => BuildErrorKind::OutOfRange { field: FieldName::MsgCount },
        Some(_) => BuildErrorKind::MalformedLiteral { field: FieldName::MsgCount },
    }
}

/// Reads and validates the marker's message count field; zero or a
/// negative count is out of range.
fn parse_msg_count(attrs: &Vec<Attr>, m: &str) -> (r: Result<u32, BuildErrorKind>)
    ensures
        r is Ok <==> msg_count_ok(attrs@, m@),
        r matches Ok(n) ==> n == spec_msg_count(attrs@, m@),
        r matches Err(e) ==> e == spec_msg_count_err(attrs@, m@),
{
    match crate::decl::find_field(attrs, m, "msg_count") {
        Some(AttrValue::Int(c)) => {
            let c = *c;
            if c <= 0 || c > u32::MAX as i64 {
                Err(BuildErrorKind::OutOfRange { field: FieldName::MsgCount })
            } else {
                Ok(c as u32)
            }
        },
        Some(_) => Err(BuildErrorKind::MalformedLiteral { field: FieldName::MsgCount }),
        None => Err(BuildErrorKind::MissingField { field: FieldName::MsgCount }),
    }
}

/// The discipline a literal denotes, matched case-insensitively against
/// the closed set.
pub open spec fn discipline_of(s: Seq<char>) -> Option<QueuingDiscipline> {
    if eq_ignore_case_bytes(str_bytes(s), str_bytes("fifo"@)) {
        Some(QueuingDiscipline::Fifo)
    } else if eq_ignore_case_bytes(str_bytes(s), str_bytes("priority"@)) {
        Some(QueuingDiscipline::Priority)
    } else {
        None
    }
}

impl QueuingDiscipline {
    /// Parses a discipline literal against the closed set,
    /// case-insensitively.
    pub fn from_string(value: &str) -> (r: Result<QueuingDiscipline, ()>)
        ensures
            r is Ok <==> discipline_of(value@) is Some,
            r matches Ok(d) ==> Some(d) == discipline_of(value@),
    {
        if crate::parse::util::eq_ignore_ascii_case(value, "fifo") {
            Ok(QueuingDiscipline::Fifo)
        } else if crate::parse::util::eq_ignore_ascii_case(value, "priority") {
            Ok(QueuingDiscipline::Priority)
        } else {
            Err(())
        }
    }
}

/// The discipline field is well-formed: a string naming one of the two
/// disciplines, in any case.
pub open spec fn discipline_field_ok(attrs: Seq<Attr>, m: Seq<char>) -> bool {
    match spec_find_field(attrs, m, "discipline"@) {
        Some(AttrValue::Str(s)) => discipline_of(s@) is Some,
        _ => false,
    }
}

/// The parsed discipline; meaningful under [`discipline_field_ok`].
pub open spec fn spec_discipline(attrs: Seq<Attr>, m: Seq<char>) -> QueuingDiscipline {
    match spec_find_field(attrs, m, "discipline"@) {
        Some(AttrValue::Str(s)) => match discipline_of(s@) {
            Some(d) => d,
            None => QueuingDiscipline::Fifo,
        },
        _ => QueuingDiscipline::Fifo,
    }
}

/// The error a bad discipline field reports; meaningful when
/// [`discipline_field_ok`] fails.
pub open spec fn spec_discipline_err(attrs: Seq<Attr>, m: Seq<char>) -> BuildErrorKind {
    match spec_find_field(attrs, m, "discipline"@) {
        None => BuildErrorKind::MissingField { field: FieldName::Discipline },
        Some(AttrValue::Str(s)) => BuildErrorKind::UnknownEnumValue { field: FieldName::Discipline },
        Some(_) => BuildErrorKind::MalformedLiteral { field: FieldName::Discipline },
    }
}

/// Reads and validates the marker's discipline field against the closed
/// set, case-insensitively.
fn parse_discipline(attrs: &Vec<Attr>, m: &str) -> (r: Result<QueuingDiscipline, BuildErrorKind>)
    ensures
        r is Ok <==> discipline_field_ok(attrs@, m@),
        r matches Ok(d) ==> d == spec_discipline(attrs@, m@),
        r matches Err(e) ==> e == spec_discipline_err(attrs@, m@),
{
    match crate::decl::find_field(attrs, m, "discipline") {
        Some(AttrValue::Str(s)) => match QueuingDiscipline::from_string(s.as_str()) {
            Ok(d) => Ok(d),
            Err(_) => Err(BuildErrorKind::UnknownEnumValue { field: FieldName::Discipline }),
        },
        Some(_) => Err(BuildErrorKind::MalformedLiteral { field: FieldName::Discipline }),
        None => Err(BuildErrorKind::MissingField { field: FieldName::Discipline }),
    }
}

/// The refresh period field is well-formed: a duration literal that
/// parses to a positive span.
pub open spec fn refresh_period_ok(attrs: Seq<Attr>, m: Seq<char>) -> bool {
    match spec_find_field(attrs, m, "refresh_period"@) {
        Some(AttrValue::Str(s)) => duration_literal_bounded(str_bytes(s@)) && match duration_of(
            s@,
        ) {
            Some(p) => p.0 > 0 || p.1 > 0,
            None => false,
        },
        _ => false,
    }
}

/// The parsed refresh period; meaningful under [`refresh_period_ok`].
pub open spec fn spec_refresh_period(attrs: Seq<Attr>, m: Seq<char>) -> Duration {
    match spec_find_field(attrs, m, "refresh_period"@) {
        Some(AttrValue::Str(s)) => match duration_of(s@) {
            Some(p) => Duration { secs: p.0, nanos: p.1 },
            None => Duration { secs: 0, nanos: 0 },
        },
        _ => Duration { secs: 0, nanos: 0 },
    }
}

/// The error a bad refresh period field reports; meaningful when
/// [`refresh_period_ok`] fails.
pub open spec fn spec_refresh_period_err(attrs: Seq<Attr>, m: Seq<char>) -> BuildErrorKind {
    match spec_find_field(attrs, m, "refresh_period"@) {
        None => BuildErrorKind::MissingField { field: FieldName::RefreshPeriod },
        Some(AttrValue::Str(s)) => if !duration_literal_bounded(str_bytes(s@)) {
            BuildErrorKind::OutOfRange { field: FieldName::RefreshPeriod }
        } else {
            match duration_of(s@) {
                Some(p) => BuildErrorKind::OutOfRange { field: FieldName::RefreshPeriod },
                None => BuildErrorKind::MalformedLiteral { field: FieldName::RefreshPeriod },
            }
        },
        Some(_) => BuildErrorKind::MalformedLiteral { field: FieldName::RefreshPeriod },
    }
}

/// Reads and validates the marker's refresh period field; a zero span is
/// out of range.
fn parse_refresh_period(attrs: &Vec<Attr>, m: &str) -> (r: Result<Duration, BuildErrorKind>)
    ensures
        r is Ok <==> refresh_period_ok(attrs@, m@),
        r matches Ok(d) ==> d == spec_refresh_period(attrs@, m@) && dur_wf(d) && dur_nanos(d) > 0,
        r matches Err(e) ==> e == spec_refresh_period_err(attrs@, m@),
{
    match crate::decl::find_field(attrs, m, "refresh_period") {
        Some(AttrValue::Str(s)) => if !duration_literal_bounded_check(s.as_str()) {
            Err(BuildErrorKind::OutOfRange { field: FieldName::RefreshPeriod })
        } else {
            match WrappedDuration::from_string(s.as_str()) {
            Ok(w) => {
                let d = w.to_duration();
                if d.is_zero() {
                    Err(BuildErrorKind::OutOfRange { field: FieldName::RefreshPeriod })
                } else {
                    proof {
                        assert(d.secs > 0 || d.nanos > 0);
                        assert(dur_nanos(d) > 0) by (nonlinear_arith)
                            requires
                                d.secs > 0 || d.nanos > 0,
                                d.secs >= 0,
                                d.nanos >= 0,
                        {}
                    }
                    Ok(d)
                }
            },
                Err(_) => Err(BuildErrorKind::MalformedLiteral { field: FieldName::RefreshPeriod }),
            }
        },
        Some(_) => Err(BuildErrorKind::MalformedLiteral { field: FieldName::RefreshPeriod }),
        None => Err(BuildErrorKind::MissingField { field: FieldName::RefreshPeriod }),
    }
}

/// A sampling-port source declaration.
#[derive(Debug, PartialEq, Eq)]
pub struct SamplingOutProc {
    pub name: PortName,
    pub msg_size: u32,
}

/// A sampling-port destination declaration.
#[derive(Debug, PartialEq, Eq)]
pub struct SamplingInProc {
    pub name: PortName,
    pub msg_size: u32,
    pub refresh_period: Duration,
}

/// A queuing-port sender declaration.
#[derive(Debug, PartialEq, Eq)]
pub struct QueuingOutProc {
    pub name: PortName,
    pub msg_size: u32,
    pub msg_count: u32,
    pub discipline: QueuingDiscipline,
}

/// A queuing-port receiver declaration.
#[derive(Debug, PartialEq, Eq)]
pub struct QueuingInProc {
    pub name: PortName,
    pub msg_size: u32,
    pub msg_count: u32,
    pub discipline: QueuingDiscipline,
}

/// All fields of a `sampling_out` marker are well-formed.
pub open spec fn sampling_out_ok(ident: Seq<char>, attrs: Seq<Attr>) -> bool {
    name_field_ok(ident, attrs, "sampling_out"@) && msg_size_ok(attrs, "sampling_out"@)
}

/// All fields of a `sampling_in` marker are well-formed.
pub open spec fn sampling_in_ok(ident: Seq<char>, attrs: Seq<Attr>) -> bool {
    name_field_ok(ident, attrs, "sampling_in"@) && msg_size_ok(attrs, "sampling_in"@)
        && refresh_period_ok(attrs, "sampling_in"@)
}

/// All fields of a `queuing_out` marker are well-formed.
pub open spec fn queuing_out_ok(ident: Seq<char>, attrs: Seq<Attr>) -> bool {
    name_field_ok(ident, attrs, "queuing_out"@) && msg_size_ok(attrs, "queuing_out"@)
        && msg_count_ok(attrs, "queuing_out"@) && discipline_field_ok(attrs, "queuing_out"@)
}

/// All fields of a `queuing_in` marker are well-formed.
pub open spec fn queuing_in_ok(ident: Seq<char>, attrs: Seq<Attr>) -> bool {
    name_field_ok(ident, attrs, "queuing_in"@) && msg_size_ok(attrs, "queuing_in"@)
        && msg_count_ok(attrs, "queuing_in"@) && discipline_field_ok(attrs, "queuing_in"@)
}

/// The first field error a `sampling_out` marker reports; meaningful when
/// [`sampling_out_ok`] fails.
pub open spec fn spec_sampling_out_err(ident: Seq<char>, attrs: Seq<Attr>) -> BuildErrorKind {
    if !name_field_ok(ident, attrs, "sampling_out"@) {
        BuildErrorKind::InvalidName { field: FieldName::Name }
    } else {
        spec_msg_size_err(attrs, "sampling_out"@)
    }
}

/// The first field error a `sampling_in` marker reports; meaningful when
/// [`sampling_in_ok`] fails.
pub open spec fn spec_sampling_in_err(ident: Seq<char>, attrs: Seq<Attr>) -> BuildErrorKind {
    if !name_field_ok(ident, attrs, "sampling_in"@) {
        BuildErrorKind::InvalidName { field: FieldName::Name }
    } else if !msg_size_ok(attrs, "sampling_in"@) {
        spec_msg_size_err(attrs, "sampling_in"@)
    } else {
        spec_refresh_period_err(attrs, "sampling_in"@)
    }
}

/// The first field error a queuing marker reports; meaningful when the
/// marker's fields are not all well-formed.
pub open spec fn spec_queuing_err(ident: Seq<char>, attrs: Seq<Attr>, m: Seq<char>) -> BuildErrorKind {
    if !name_field_ok(ident, attrs, m) {
        BuildErrorKind::InvalidName { field: FieldName::Name }
    } else if !msg_size_ok(attrs, m) {
        spec_msg_size_err(attrs, m)
    } else if !msg_count_ok(attrs, m) {
        spec_msg_count_err(attrs, m)
    } else {
        spec_discipline_err(attrs, m)
    }
}

impl SamplingOutProc {
    /// Parses a `sampling_out` marker when one is present; `None` when the
    /// declaration carries none.
    pub fn may_from_attributes(ident: &str, attrs: &Vec<Attr>) -> (r: Option<
        Result<SamplingOutProc, BuildErrorKind>,
    >)
        ensures
            r is None <==> !has_attr(attrs@, "sampling_out"@),
            r matches Some(res) ==> (res is Ok <==> sampling_out_ok(ident@, attrs@)),
            r matches Some(Ok(p)) ==> p.name@ == str_bytes(
                spec_name_source(ident@, attrs@, "sampling_out"@),
            ) && p.msg_size == spec_msg_size(attrs@, "sampling_out"@),
            r matches Some(Err(e)) ==> e == spec_sampling_out_err(ident@, attrs@),
    {
        if !contains_attribute("sampling_out", attrs.as_slice()) {
            return None;
        }
        let name = match parse_name(ident, attrs, "sampling_out") {
            Ok(n) => n,
            Err(e) => {
                return Some(Err(e));
            },
        };
        let msg_size = match parse_msg_size(attrs, "sampling_out") {
            Ok(n) => n,
            Err(e) => {
                return Some(Err(e));
            },
        };
        Some(Ok(SamplingOutProc { name, msg_size }))
    }
}

impl SamplingInProc {
    /// Parses a `sampling_in` marker when one is present; `None` when the
    /// declaration carries none.
    pub fn may_from_attributes(ident: &str, attrs: &Vec<Attr>) -> (r: Option<
        Result<SamplingInProc, BuildErrorKind>,
    >)
        ensures
            r is None <==> !has_attr(attrs@, "sampling_in"@),
            r matches Some(res) ==> (res is Ok <==> sampling_in_ok(ident@, attrs@)),
            r matches Some(Ok(p)) ==> p.name@ == str_bytes(
                spec_name_source(ident@, attrs@, "sampling_in"@),
            ) && p.msg_size == spec_msg_size(attrs@, "sampling_in"@) && p.refresh_period
                == spec_refresh_period(attrs@, "sampling_in"@),
            r matches Some(Err(e)) ==> e == spec_sampling_in_err(ident@, attrs@),
    {
        if !contains_attribute("sampling_in", attrs.as_slice()) {
            return None;
        }
        let name = match parse_name(ident, attrs, "sampling_in") {
            Ok(n) => n,
            Err(e) => {
                return Some(Err(e));
            },
        };
        let msg_size = match parse_msg_size(attrs, "sampling_in") {
            Ok(n) => n,
            Err(e) => {
                return Some(Err(e));
            },
        };
        let refresh_period = match parse_refresh_period(attrs, "sampling_in") {
            Ok(d) => d,
            Err(e) => {
                return Some(Err(e));
            },
        };
        Some(Ok(SamplingInProc { name, msg_size, refresh_period }))
    }
}

impl QueuingOutProc {
    /// Parses a `queuing_out` marker when one is present; `None` when the
    /// declaration carries none.
    pub fn may_from_attributes(ident: &str, attrs: &Vec<Attr>) -> (r: Option<
        Result<QueuingOutProc, BuildErrorKind>,
    >)
        ensures
            r is None <==> !has_attr(attrs@, "queuing_out"@),
            r matches Some(res) ==> (res is Ok <==> queuing_out_ok(ident@, attrs@)),
            r matches Some(Ok(p)) ==> p.name@ == str_bytes(
                spec_name_source(ident@, attrs@, "queuing_out"@),
            ) && p.msg_size == spec_msg_size(attrs@, "queuing_out"@) && p.msg_count
                == spec_msg_count(attrs@, "queuing_out"@) && p.discipline == spec_discipline(
                attrs@,
                "queuing_out"@,
            ),
            r matches Some(Err(e)) ==> e == spec_queuing_err(ident@, attrs@, "queuing_out"@),
    {
        if !contains_attribute("queuing_out", attrs.as_slice()) {
            return None;
        }
        match parse_queuing_fields(ident, attrs, "queuing_out") {
            Ok((name, msg_size, msg_count, discipline)) => Some(
                Ok(QueuingOutProc { name, msg_size, msg_count, discipline }),
            ),
            Err(e) => Some(Err(e)),
        }
    }
}

impl QueuingInProc {
    /// Parses a `queuing_in` marker when one is present; `None` when the
    /// declaration carries none.
    pub fn may_from_attributes(ident: &str, attrs: &Vec<Attr>) -> (r: Option<
        Result<QueuingInProc, BuildErrorKind>,
    >)
        ensures
            r is None <==> !has_attr(attrs@, "queuing_in"@),
            r matches Some(res) ==> (res is Ok <==> queuing_in_ok(ident@, attrs@)),
            r matches Some(Ok(p)) ==> p.name@ == str_bytes(
                spec_name_source(ident@, attrs@, "queuing_in"@),
            ) && p.msg_size == spec_msg_size(attrs@, "queuing_in"@) && p.msg_count
                == spec_msg_count(attrs@, "queuing_in"@) && p.discipline == spec_discipline(
                attrs@,
                "queuing_in"@,
            ),
            r matches Some(Err(e)) ==> e == spec_queuing_err(ident@, attrs@, "queuing_in"@),
    {
        if !contains_attribute("queuing_in", attrs.as_slice()) {
            return None;
        }
        match parse_queuing_fields(ident, attrs, "queuing_in") {
            Ok((name, msg_size, msg_count, discipline)) => Some(
                Ok(QueuingInProc { name, msg_size, msg_count, discipline }),
            ),
            Err(e) => Some(Err(e)),
        }
    }
}

/// Reads the shared field set of the two queuing markers.
fn parse_queuing_fields(ident: &str, attrs: &Vec<Attr>, m: &str) -> (r: Result<
    (PortName, u32, u32, QueuingDiscipline),
    BuildErrorKind,
>)
    ensures
        r is Ok <==> (name_field_ok(ident@, attrs@, m@) && msg_size_ok(attrs@, m@) && msg_count_ok(
            attrs@,
            m@,
        ) && discipline_field_ok(attrs@, m@)),
        r matches Ok(p) ==> p.0@ == str_bytes(spec_name_source(ident@, attrs@, m@)) && p.1
            == spec_msg_size(attrs@, m@) && p.2 == spec_msg_count(attrs@, m@) && p.3
            == spec_discipline(attrs@, m@),
        r matches Err(e) ==> e == spec_queuing_err(ident@, attrs@, m@),
{
    let name = match parse_name(ident, attrs, m) {
        Ok(n) => n,
        Err(e) => {
            return Err(e);
        },
    };
    let msg_size = match parse_msg_size(attrs, m) {
        Ok(n) => n,
        Err(e) => {
            return Err(e);
        },
    };
    let msg_count = match parse_msg_count(attrs, m) {
        Ok(n) => n,
        Err(e) => {
            return Err(e);
        },
    };
    let discipline = match parse_discipline(attrs, m) {
        Ok(d) => d,
        Err(e) => {
            return Err(e);
        },
    };
    Ok((name, msg_size, msg_count, discipline))
}

/// One parsed channel descriptor, keeping the declaration's identifier.
#[derive(Debug, PartialEq, Eq)]
pub enum Channel {
    SamplingOut(String, SamplingOutProc),
    SamplingIn(String, SamplingInProc),
    QueuingOut(String, QueuingOutProc),
    QueuingIn(String, QueuingInProc),
}

impl Channel {
    /// The declaration identifier, used for the generated namespace.
    pub open spec fn spec_ident(&self) -> Seq<char> {
        match self {
            Channel::SamplingOut(id, _) => id@,
            Channel::SamplingIn(id, _) => id@,
            Channel::QueuingOut(id, _) => id@,
            Channel::QueuingIn(id, _) => id@,
        }
    }

    /// The external name bytes.
    pub open spec fn spec_name(&self) -> Seq<u8> {
        match self {
            Channel::SamplingOut(_, p) => p.name@,
            Channel::SamplingIn(_, p) => p.name@,
            Channel::QueuingOut(_, p) => p.name@,
            Channel::QueuingIn(_, p) => p.name@,
        }
    }

    /// The message size in bytes.
    pub open spec fn spec_msg_size(&self) -> u32 {
        match self {
            Channel::SamplingOut(_, p) => p.msg_size,
            Channel::SamplingIn(_, p) => p.msg_size,
            Channel::QueuingOut(_, p) => p.msg_size,
            Channel::QueuingIn(_, p) => p.msg_size,
        }
    }

    /// The identifier, for the generated namespace.
    pub fn ident(&self) -> (r: &String)
        ensures
            r@ == self.spec_ident(),
    {
        match self {
            Channel::SamplingOut(id, _) => id,
            Channel::SamplingIn(id, _) => id,
            Channel::QueuingOut(id, _) => id,
            Channel::QueuingIn(id, _) => id,
        }
    }

    /// The external name.
    pub fn name(&self) -> (r: &PortName)
        ensures
            r@ == self.spec_name(),
    {
        match self {
            Channel::SamplingOut(_, p) => &p.name,
            Channel::SamplingIn(_, p) => &p.name,
            Channel::QueuingOut(_, p) => &p.name,
            Channel::QueuingIn(_, p) => &p.name,
        }
    }

    /// The message size in bytes.
    pub fn msg_size(&self) -> (r: u32)
        ensures
            r == self.spec_msg_size(),
    {
        match self {
            Channel::SamplingOut(_, p) => p.msg_size,
            Channel::SamplingIn(_, p) => p.msg_size,
            Channel::QueuingOut(_, p) => p.msg_size,
            Channel::QueuingIn(_, p) => p.msg_size,
        }
    }

    /// The queue depth of a queuing channel.
    pub fn msg_count(&self) -> (r: Option<u32>)
        ensures
            self matches Channel::QueuingOut(_, p) ==> r == Some(p.msg_count),
            self matches Channel::QueuingIn(_, p) ==> r == Some(p.msg_count),
            self matches Channel::SamplingOut(_, _) ==> r is None,
            self matches Channel::SamplingIn(_, _) ==> r is None,
    {
        match self {
            Channel::QueuingOut(_, p) => Some(p.msg_count),
            Channel::QueuingIn(_, p) => Some(p.msg_count),
            _ => None,
        }
    }

    /// The discipline of a queuing channel.
    pub fn discipline(&self) -> (r: Option<QueuingDiscipline>)
        ensures
            self matches Channel::QueuingOut(_, p) ==> r == Some(p.discipline),
            self matches Channel::QueuingIn(_, p) ==> r == Some(p.discipline),
            self matches Channel::SamplingOut(_, _) ==> r is None,
            self matches Channel::SamplingIn(_, _) ==> r is None,
    {
        match self {
            Channel::QueuingOut(_, p) => Some(p.discipline),
            Channel::QueuingIn(_, p) => Some(p.discipline),
            _ => None,
        }
    }

    /// The refresh period of a sampling destination.
    pub fn refresh_period(&self) -> (r: Option<Duration>)
        ensures
            self matches Channel::SamplingIn(_, p) ==> r == Some(p.refresh_period),
            !(self matches Channel::SamplingIn(_, _)) ==> r is None,
    {
        match self {
            Channel::SamplingIn(_, p) => Some(p.refresh_period),
            _ => None,
        }
    }
}

/// The channel-kind markers a declaration carries, in a fixed order.
pub open spec fn spec_channel_markers(attrs: Seq<Attr>) -> Seq<Marker> {
    (if has_attr(attrs, "sampling_out"@) {
        seq![Marker::SamplingOut]
    } else {
        Seq::empty()
    }) + (if has_attr(attrs, "sampling_in"@) {
        seq![Marker::SamplingIn]
    } else {
        Seq::empty()
    }) + (if has_attr(attrs, "queuing_out"@) {
        seq![Marker::QueuingOut]
    } else {
        Seq::empty()
    }) + (if has_attr(attrs, "queuing_in"@) {
        seq![Marker::QueuingIn]
    } else {
        Seq::empty()
    })
}

/// How many channel-kind markers a declaration carries.
pub open spec fn channel_marker_count(attrs: Seq<Attr>) -> int {
    spec_channel_markers(attrs).len() as int
}

/// Lists the channel-kind markers a declaration carries.
pub fn channel_markers(attrs: &Vec<Attr>) -> (r: Vec<Marker>)
    ensures
        r@ == spec_channel_markers(attrs@),
{
    let mut markers: Vec<Marker> = Vec::new();
    if contains_attribute("sampling_out", attrs.as_slice()) {
        markers.push(Marker::SamplingOut);
    }
    if contains_attribute("sampling_in", attrs.as_slice()) {
        markers.push(Marker::SamplingIn);
    }
    if contains_attribute("queuing_out", attrs.as_slice()) {
        markers.push(Marker::QueuingOut);
    }
    if contains_attribute("queuing_in", attrs.as_slice()) {
        markers.push(Marker::QueuingIn);
    }
    proof {
        assert(markers@ =~= spec_channel_markers(attrs@));
    }
    markers
}

/// A struct declaration that is a channel: it carries exactly one
/// channel-kind marker.
pub open spec fn is_channel_decl(d: Decl) -> bool {
    d.kind is Struct && channel_marker_count(d.attrs@) == 1
}

/// A declaration passes the channel parser: as a struct it carries at most
/// one channel-kind marker, and a carried marker's fields are well-formed.
/// Anything that is no struct is not the parser's business.
pub open spec fn decl_channel_ok(d: Decl) -> bool {
    d.kind is Struct ==> {
        &&& channel_marker_count(d.attrs@) <= 1
        &&& (has_attr(d.attrs@, "sampling_out"@) ==> sampling_out_ok(d.ident@, d.attrs@))
        &&& (has_attr(d.attrs@, "sampling_in"@) ==> sampling_in_ok(d.ident@, d.attrs@))
        &&& (has_attr(d.attrs@, "queuing_out"@) ==> queuing_out_ok(d.ident@, d.attrs@))
        &&& (has_attr(d.attrs@, "queuing_in"@) ==> queuing_in_ok(d.ident@, d.attrs@))
    }
}

/// The parsed channel corresponds to the declaration: same identifier,
/// and the descriptor fields are the marker's parsed fields.
pub open spec fn channel_matches_decl(ch: Channel, d: Decl) -> bool {
    match ch {
        Channel::SamplingOut(id, p) => {
            &&& id@ == d.ident@
            &&& has_attr(d.attrs@, "sampling_out"@)
            &&& p.name@ == str_bytes(spec_name_source(d.ident@, d.attrs@, "sampling_out"@))
            &&& p.msg_size == spec_msg_size(d.attrs@, "sampling_out"@)
        },
        Channel::SamplingIn(id, p) => {
            &&& id@ == d.ident@
            &&& has_attr(d.attrs@, "sampling_in"@)
            &&& p.name@ == str_bytes(spec_name_source(d.ident@, d.attrs@, "sampling_in"@))
            &&& p.msg_size == spec_msg_size(d.attrs@, "sampling_in"@)
            &&& p.refresh_period == spec_refresh_period(d.attrs@, "sampling_in"@)
        },
        Channel::QueuingOut(id, p) => {
            &&& id@ == d.ident@
            &&& has_attr(d.attrs@, "queuing_out"@)
            &&& p.name@ == str_bytes(spec_name_source(d.ident@, d.attrs@, "queuing_out"@))
            &&& p.msg_size == spec_msg_size(d.attrs@, "queuing_out"@)
            &&& p.msg_count == spec_msg_count(d.attrs@, "queuing_out"@)
            &&& p.discipline == spec_discipline(d.attrs@, "queuing_out"@)
        },
        Channel::QueuingIn(id, p) => {
            &&& id@ == d.ident@
            &&& has_attr(d.attrs@, "queuing_in"@)
            &&& p.name@ == str_bytes(spec_name_source(d.ident@, d.attrs@, "queuing_in"@))
            &&& p.msg_size == spec_msg_size(d.attrs@, "queuing_in"@)
            &&& p.msg_count == spec_msg_count(d.attrs@, "queuing_in"@)
            &&& p.discipline == spec_discipline(d.attrs@, "queuing_in"@)
        },
    }
}

/// The first bad field of a declaration's single channel marker;
/// meaningful when the declaration carries exactly one marker and fails.
pub open spec fn spec_channel_field_err(d: Decl) -> BuildErrorKind {
    if has_attr(d.attrs@, "sampling_out"@) {
        spec_sampling_out_err(d.ident@, d.attrs@)
    } else if has_attr(d.attrs@, "sampling_in"@) {
        spec_sampling_in_err(d.ident@, d.attrs@)
    } else if has_attr(d.attrs@, "queuing_out"@) {
        spec_queuing_err(d.ident@, d.attrs@, "queuing_out"@)
    } else {
        spec_queuing_err(d.ident@, d.attrs@, "queuing_in"@)
    }
}

/// The error the channel parser reports for a declaration: the combined
/// error naming all markers found when several stand on it, else the
/// first bad field of its single marker.
pub open spec fn channel_err_matches(e: BuildErrorKind, d: Decl) -> bool {
    if channel_marker_count(d.attrs@) >= 2 {
        e matches BuildErrorKind::MultipleMarkers { markers } && markers@ == spec_channel_markers(
            d.attrs@,
        )
    } else {
        e == spec_channel_field_err(d)
    }
}

/// Parses the channel of one declaration: `Ok(None)` when it declares no
/// channel, and an error exactly when it breaks a channel rule. A
/// declaration with several channel-kind markers is rejected with one
/// combined error naming all markers found; a single bad marker reports
/// its first bad field.
pub fn channel_of_decl(d: &Decl) -> (r: Result<Option<Channel>, BuildErrorKind>)
    ensures
        r is Err <==> !decl_channel_ok(*d),
        r matches Ok(Some(ch)) ==> channel_matches_decl(ch, *d) && is_channel_decl(*d),
        r matches Ok(None) ==> !is_channel_decl(*d),
        r matches Err(e) ==> channel_err_matches(e, *d),
{
    match &d.kind {
        DeclKind::Struct => {},
        _ => {
            return Ok(None);
        },
    }
    let markers = channel_markers(&d.attrs);
    if markers.len() == 0 {
        return Ok(None);
    }
    if markers.len() >= 2 {
        return Err(BuildErrorKind::MultipleMarkers { markers });
    }
    if let Some(res) = SamplingOutProc::may_from_attributes(d.ident.as_str(), &d.attrs) {
        return match res {
            Ok(p) => Ok(Some(Channel::SamplingOut(clone_string(&d.ident), p))),
            Err(e) => Err(e),
        };
    }
    if let Some(res) = SamplingInProc::may_from_attributes(d.ident.as_str(), &d.attrs) {
        return match res {
            Ok(p) => Ok(Some(Channel::SamplingIn(clone_string(&d.ident), p))),
            Err(e) => Err(e),
        };
    }
    if let Some(res) = QueuingOutProc::may_from_attributes(d.ident.as_str(), &d.attrs) {
        return match res {
            Ok(p) => Ok(Some(Channel::QueuingOut(clone_string(&d.ident), p))),
            Err(e) => Err(e),
        };
    }
    if let Some(res) = QueuingInProc::may_from_attributes(d.ident.as_str(), &d.attrs) {
        return match res {
            Ok(p) => Ok(Some(Channel::QueuingIn(clone_string(&d.ident), p))),
            Err(e) => Err(e),
        };
    }
    proof {
        assert(spec_channel_markers(d.attrs@).len() == 0);
        assert(false);
    }
    Ok(None)
}

/// The declarations echoed through: everything that is not a channel,
/// in order.
pub open spec fn spec_passthrough_decls(ds: Seq<Decl>) -> Seq<Decl>
    decreases ds.len(),
{
    if ds.len() == 0 {
        Seq::empty()
    } else if is_channel_decl(ds[0]) {
        spec_passthrough_decls(ds.drop_first())
    } else {
        seq![ds[0]] + spec_passthrough_decls(ds.drop_first())
    }
}

/// The parsed channels correspond one to one, in order, to the channel
/// declarations of the module.
pub open spec fn channels_match_decls(chs: Seq<Channel>, ds: Seq<Decl>) -> bool
    decreases ds.len(),
{
    if ds.len() == 0 {
        chs.len() == 0
    } else if is_channel_decl(ds[0]) {
        chs.len() > 0 && channel_matches_decl(chs[0], ds[0]) && channels_match_decls(
            chs.drop_first(),
            ds.drop_first(),
        )
    } else {
        channels_match_decls(chs, ds.drop_first())
    }
}

proof fn lemma_passthrough_push(ds: Seq<Decl>, d: Decl)
    ensures
        spec_passthrough_decls(ds.push(d)) == if is_channel_decl(d) {
            spec_passthrough_decls(ds)
        } else {
            spec_passthrough_decls(ds).push(d)
        },
    decreases ds.len(),
{
    if ds.len() == 0 {
        assert(ds.push(d)[0] == d);
        assert(ds.push(d).drop_first() =~= Seq::<Decl>::empty());
        assert(spec_passthrough_decls(Seq::<Decl>::empty()) =~= Seq::<Decl>::empty());
        if !is_channel_decl(d) {
            assert(spec_passthrough_decls(ds.push(d)) =~= seq![d]
                + spec_passthrough_decls(Seq::<Decl>::empty()));
            assert(spec_passthrough_decls(ds.push(d)) =~= spec_passthrough_decls(ds).push(d));
        }
    } else {
        assert(ds.push(d).drop_first() =~= ds.drop_first().push(d));
        assert(ds.push(d)[0] == ds[0]);
        lemma_passthrough_push(ds.drop_first(), d);
        if !is_channel_decl(d) {
            if is_channel_decl(ds[0]) {
            } else {
                assert(seq![ds[0]] + spec_passthrough_decls(ds.drop_first()).push(d)
                    =~= (seq![ds[0]] + spec_passthrough_decls(ds.drop_first())).push(d));
            }
        }
    }
}

proof fn lemma_channels_match_push(chs: Seq<Channel>, ds: Seq<Decl>, ch: Channel, d: Decl)
    requires
        channels_match_decls(chs, ds),
        is_channel_decl(d) ==> channel_matches_decl(ch, d),
    ensures
        is_channel_decl(d) ==> channels_match_decls(chs.push(ch), ds.push(d)),
        !is_channel_decl(d) ==> channels_match_decls(chs, ds.push(d)),
    decreases ds.len(),
{
    reveal_with_fuel(channels_match_decls, 3);
    if ds.len() == 0 {
        assert(ds.push(d)[0] == d);
        assert(ds.push(d).drop_first() =~= Seq::<Decl>::empty());
        if is_channel_decl(d) {
            assert(chs.len() == 0);
            assert(chs.push(ch)[0] == ch);
            assert(chs.push(ch).drop_first() =~= Seq::<Channel>::empty());
            assert(channels_match_decls(chs.push(ch), ds.push(d)));
        } else {
            assert(channels_match_decls(chs, ds.push(d)));
        }
    } else {
        assert(ds.push(d)[0] == ds[0]);
        assert(ds.push(d).drop_first() =~= ds.drop_first().push(d));
        if is_channel_decl(ds[0]) {
            assert(chs.len() > 0);
            lemma_channels_match_push(chs.drop_first(), ds.drop_first(), ch, d);
            if is_channel_decl(d) {
                assert(chs.push(ch)[0] == chs[0]);
                assert(chs.push(ch).drop_first() =~= chs.drop_first().push(ch));
                assert(channels_match_decls(chs.push(ch).drop_first(), ds.push(d).drop_first()));
                assert(channels_match_decls(chs.push(ch), ds.push(d)));
            } else {
                assert(channels_match_decls(chs.drop_first(), ds.drop_first().push(d)));
                assert(channels_match_decls(chs, ds.push(d)));
            }
        } else {
            lemma_channels_match_push(chs, ds.drop_first(), ch, d);
            if is_channel_decl(d) {
                assert(channels_match_decls(chs.push(ch), ds.drop_first().push(d)));
                assert(channels_match_decls(chs.push(ch), ds.push(d)));
            } else {
                assert(channels_match_decls(chs, ds.drop_first().push(d)));
                assert(channels_match_decls(chs, ds.push(d)));
            }
        }
    }
}

impl Channel {
    /// Walks the module's declarations, parsing every channel struct and
    /// removing it from the list; everything else passes through. All
    /// errors across all declarations are collected, and any error aborts
    /// the build: the declarations are then left untouched.
    pub fn from_content(items: &mut Vec<Decl>) -> (r: Result<Vec<Channel>, Vec<BuildError>>)
        ensures
            r is Ok <==> (forall|i: int|
                0 <= i < old(items)@.len() ==> decl_channel_ok(#[trigger] old(items)@[i])),
            r matches Ok(chs) ==> channels_match_decls(chs@, old(items)@) && final(items)@
                == spec_passthrough_decls(old(items)@),
            r matches Err(errs) ==> errs@.len() > 0 && final(items)@ == old(items)@ && (forall|k: int|
                0 <= k < errs@.len() ==> errs@[k].decl < old(items)@.len() && !decl_channel_ok(
                    #[trigger] old(items)@[errs@[k].decl as int],
                ) && channel_err_matches(errs@[k].kind, old(items)@[errs@[k].decl as int])),
        r matches Err(errs) ==> (forall|i: int|
                0 <= i < old(items)@.len() && !decl_channel_ok(#[trigger] old(items)@[i]) ==> (
                exists|k: int| 0 <= k < errs@.len() && (#[trigger] errs@[k]).decl == i)),
    {
        let ghost orig = items@;
        let mut errors: Vec<BuildError> = Vec::new();
        let mut i: usize = 0;
        while i < items.len()
            invariant
                items@ == orig,
                i <= orig.len(),
                errors@.len() == 0 <==> (forall|j: int|
                    0 <= j < i ==> decl_channel_ok(#[trigger] orig[j])),
                forall|k: int|
                    0 <= k < errors@.len() ==> (#[trigger] errors@[k]).decl < i && !decl_channel_ok(
                        orig[errors@[k].decl as int],
                    ) && channel_err_matches(errors@[k].kind, orig[errors@[k].decl as int]),
                forall|j: int|
                    0 <= j < i && !decl_channel_ok(#[trigger] orig[j]) ==> (exists|k: int|
                        0 <= k < errors@.len() && (#[trigger] errors@[k]).decl == j),
            decreases orig.len() - i,
        {
            match channel_of_decl(&items[i]) {
                Ok(_) => {},
                Err(e) => {
                    let ghost before = errors@;
                    errors.push(BuildError { decl: i, kind: e });
                    proof {
                        assert(errors@[before.len() as int].decl == i);
                        assert(forall|k: int| 0 <= k < before.len() ==> errors@[k] == before[k]);
                    }
                },
            }
            i += 1;
        }
        if errors.len() > 0 {
            return Err(errors);
        }
        let mut channels: Vec<Channel> = Vec::new();
        let mut out: Vec<Decl> = Vec::new();
        let ghost done: Seq<Decl> = Seq::empty();
        proof {
            assert(channels_match_decls(channels@, done));
            assert(out@ =~= spec_passthrough_decls(done));
        }
        let ghost mut processed: Seq<Decl> = Seq::<Decl>::empty();
        while items.len() > 0
            invariant
                processed + items@ =~= orig,
                forall|j: int| 0 <= j < orig.len() ==> decl_channel_ok(#[trigger] orig[j]),
                channels_match_decls(channels@, processed),
                out@ == spec_passthrough_decls(processed),
            decreases items@.len(),
        {
            let ghost prev = items@;
            let d = items.remove(0);
            proof {
                assert(prev.remove(0) =~= prev.drop_first());
                assert(d == prev[0]);
                assert(orig[processed.len() as int] == d);
            }
            let ghost next_processed = processed.push(d);
            match channel_of_decl(&d) {
                Ok(Some(ch)) => {
                    proof {
                        lemma_channels_match_push(channels@, processed, ch, d);
                        lemma_passthrough_push(processed, d);
                    }
                    channels.push(ch);
                },
                Ok(None) => {
                    proof {
                        let ghost nothing: Channel = vstd::pervasive::arbitrary();
                        lemma_channels_match_push(channels@, processed, nothing, d);
                        lemma_passthrough_push(processed, d);
                    }
                    out.push(d);
                },
                Err(_) => {
                    proof {
                        assert(decl_channel_ok(d));
                    }
                    unreached::<()>();
                },
            }
            proof {
                processed = next_processed;
                assert(processed + items@ =~= orig);
            }
        }
        proof {
            assert(processed =~= orig);
        }
        *items = out;
        Ok(channels)
    }
}

/// *Name round-trip*, on bytes: for a printable name of at most the full
/// length, the bytes before the NUL padding of its padded encoding are
/// the original bytes.
pub proof fn lemma_name_round_trip(s: Seq<u8>)
    requires
        valid_name_bytes(s),
    ensures
        crate::types::name_prefix(pad_name_bytes(s)) == s,
{
    let b = pad_name_bytes(s);
    crate::types::lemma_nul_index(b);
    let ni = crate::types::nul_index(b);
    assert(b.len() == MAX_NAME_LENGTH);
    assert(forall|j: int| 0 <= j < s.len() ==> b[j] == s[j]);
    assert(forall|j: int| s.len() <= j < b.len() ==> b[j] == 0);
    if ni < s.len() {
        assert(b[ni] == 0);
        assert(is_printable_ascii(s[ni]));
        assert(false);
    }
    if ni > s.len() {
        assert(b[s.len() as int] == 0);
        assert(false);
    }
    assert(crate::types::name_prefix(b) =~= s);
}

/// A printable character is in particular an ASCII character.
proof fn lemma_printable_char_ascii(c: char)
    requires
        0x20 <= c as u32 <= 0x7e,
    ensures
        '\0' <= c <= '\u{7f}',
{
}

/// *Name round-trip*, on characters: encoding a printable name of at most
/// the full length and decoding the bytes before the padding yields the
/// original characters.
pub proof fn lemma_name_str_round_trip(s: Seq<char>)
    requires
        s.len() <= MAX_NAME_LENGTH,
        forall|i: int| 0 <= i < s.len() ==> 0x20 <= (#[trigger] s[i]) as u32 <= 0x7e,
    ensures
        valid_name_bytes(str_bytes(s)),
        vstd::utf8::valid_utf8(crate::types::name_prefix(pad_name_bytes(str_bytes(s)))),
        vstd::utf8::decode_utf8(crate::types::name_prefix(pad_name_bytes(str_bytes(s)))) == s,
{
    assert forall|i: int| 0 <= i < s.len() implies '\0' <= #[trigger] s[i] <= '\u{7f}' by {
        assert(0x20 <= s[i] as u32 <= 0x7e);
        lemma_printable_char_ascii(s[i]);
    }
    assert(vstd::utf8::is_ascii_chars(s));
    vstd::utf8::is_ascii_chars_encode_utf8(s);
    let b = str_bytes(s);
    assert(b =~= Seq::new(s.len(), |i: int| s[i] as u8));
    assert(forall|i: int| 0 <= i < b.len() ==> is_printable_ascii(#[trigger] b[i]));
    lemma_name_round_trip(b);
    vstd::utf8::encode_utf8_valid_utf8(s);
    vstd::utf8::encode_utf8_decode_utf8(s);
}

/// *Multiplicity*: a struct declaration carrying two or more channel-kind
/// markers never passes the channel parser, whichever markers they are.
pub proof fn lemma_multiple_markers_rejected(d: Decl)
    requires
        d.kind is Struct,
        channel_marker_count(d.attrs@) >= 2,
    ensures
        !decl_channel_ok(d),
{
}

} // verus!
