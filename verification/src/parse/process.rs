//! Process descriptors: the periodic and aperiodic markers and their
//! fields, including time-capacity literals that may be unbounded.

use vstd::prelude::*;
use crate::decl::{
    clone_string, contains_attribute, has_attr, no_return_type, single_function_argument,
    spec_find_field, Attr, AttrValue, BuildError, BuildErrorKind, Decl, DeclKind, FieldName,
    Marker,
};
use crate::parse::channel::{name_field_ok, parse_name, spec_name_source, PortName};
use crate::parse::util::{
    byte_size_of, duration_literal_bounded, duration_literal_bounded_check, duration_of,
    eq_ignore_case_bytes, has_digit, str_bytes, WrappedByteSize, WrappedDuration,
};
use crate::time::{dur_wf, Duration, SystemTime};
use crate::process::{Deadline, MAX_PRIORITY_VALUE, MIN_PRIORITY_VALUE};

verus! {

use vstd::string::StringSliceAdditionalSpecFns;

/// The time a capacity or period literal denotes: a literal with a digit
/// is a duration, admitted only while it stays within the library's digit
/// bound; otherwise the two keywords for an unbounded span are accepted in
/// any case.
pub open spec fn system_time_of_str(s: Seq<char>) -> Option<SystemTime> {
    if has_digit(str_bytes(s)) {
        if !duration_literal_bounded(str_bytes(s)) {
            None
        } else {
            match duration_of(s) {
                Some(p) => Some(SystemTime::Normal(Duration { secs: p.0, nanos: p.1 })),
                None => None,
            }
        }
    } else if eq_ignore_case_bytes(str_bytes(s), str_bytes("infinite"@)) {
        Some(SystemTime::Infinite)
    } else if eq_ignore_case_bytes(str_bytes(s), str_bytes("unbounded"@)) {
        Some(SystemTime::Infinite)
    } else {
        None
    }
}

impl SystemTime {
    /// Parses a time literal: a duration when it holds a digit, else the
    /// unbounded keyword.
    pub fn from_string(value: &str) -> (r: Result<SystemTime, ()>)
        ensures
            r is Ok <==> system_time_of_str(value@) is Some,
            r matches Ok(t) ==> Some(t) == system_time_of_str(value@),
    {
        let bytes = value.as_bytes();
        let mut i: usize = 0;
        let mut digit: bool = false;
        while i < bytes.len() && !digit
            invariant
                i <= bytes@.len(),
                bytes@ == value.spec_bytes(),
                digit ==> i > 0 && crate::parse::util::is_ascii_digit(bytes@[i - 1]),
                !digit ==> (forall|j: int|
                    0 <= j < i ==> !crate::parse::util::is_ascii_digit(bytes@[j])),
            decreases bytes@.len() - i,
        {
            let b = bytes[i];
            if 0x30 <= b && b <= 0x39 {
                digit = true;
            }
            i += 1;
        }
        if digit {
            if !duration_literal_bounded_check(value) {
                return Err(());
            }
            match WrappedDuration::from_string(value) {
                Ok(w) => {
                    let d = w.to_duration();
                    Ok(SystemTime::Normal(d))
                },
                Err(_) => Err(()),
            }
        } else {
            if crate::parse::util::eq_ignore_ascii_case(value, "infinite") {
                Ok(SystemTime::Infinite)
            } else if crate::parse::util::eq_ignore_ascii_case(value, "unbounded") {
                Ok(SystemTime::Infinite)
            } else {
                Err(())
            }
        }
    }
}

/// The deadline a literal denotes, matched case-insensitively against the
/// closed set.
pub open spec fn deadline_of(s: Seq<char>) -> Option<Deadline> {
    if eq_ignore_case_bytes(str_bytes(s), str_bytes("soft"@)) {
        Some(Deadline::Soft)
    } else if eq_ignore_case_bytes(str_bytes(s), str_bytes("hard"@)) {
        Some(Deadline::Hard)
    } else {
        None
    }
}

impl Deadline {
    /// Parses a deadline literal against the closed set, case-insensitively.
    pub fn from_string(value: &str) -> (r: Result<Deadline, ()>)
        ensures
            r is Ok <==> deadline_of(value@) is Some,
            r matches Ok(d) ==> Some(d) == deadline_of(value@),
    {
        if crate::parse::util::eq_ignore_ascii_case(value, "soft") {
            Ok(Deadline::Soft)
        } else if crate::parse::util::eq_ignore_ascii_case(value, "hard") {
            Ok(Deadline::Hard)
        } else {
            Err(())
        }
    }
}

/// The time capacity field is well-formed: a literal that is unbounded or
/// a positive duration.
pub open spec fn time_capacity_ok(attrs: Seq<Attr>, m: Seq<char>) -> bool {
    match spec_find_field(attrs, m, "time_capacity"@) {
        Some(AttrValue::Str(s)) => match system_time_of_str(s@) {
            Some(SystemTime::Normal(d)) => crate::time::dur_nanos(d) > 0,
            Some(SystemTime::Infinite) => true,
            None => false,
        },
        _ => false,
    }
}

/// The parsed time capacity; meaningful under [`time_capacity_ok`].
pub open spec fn spec_time_capacity(attrs: Seq<Attr>, m: Seq<char>) -> SystemTime {
    match spec_find_field(attrs, m, "time_capacity"@) {
        Some(AttrValue::Str(s)) => match system_time_of_str(s@) {
            Some(t) => t,
            None => SystemTime::Infinite,
        },
        _ => SystemTime::Infinite,
    }
}

/// The error a bad time capacity reports; meaningful when
/// [`time_capacity_ok`] fails.
pub open spec fn spec_time_capacity_err(attrs: Seq<Attr>, m: Seq<char>) -> BuildErrorKind {
    match spec_find_field(attrs, m, "time_capacity"@) {
        None => BuildErrorKind::MissingField { field: FieldName::TimeCapacity },
        Some(AttrValue::Str(s)) => if !duration_literal_bounded(str_bytes(s@)) {
            BuildErrorKind::OutOfRange { field: FieldName::TimeCapacity }
        } else {
            match system_time_of_str(s@) {
                Some(t) => BuildErrorKind::OutOfRange { field: FieldName::TimeCapacity },
                None => BuildErrorKind::MalformedLiteral { field: FieldName::TimeCapacity },
            }
        },
        Some(_) => BuildErrorKind::MalformedLiteral { field: FieldName::TimeCapacity },
    }
}

/// Reads and validates the marker's time capacity field; a zero duration
/// is out of range, an unbounded capacity is accepted.
fn parse_time_capacity(attrs: &Vec<Attr>, m: &str) -> (r: Result<SystemTime, BuildErrorKind>)
    ensures
        r is Ok <==> time_capacity_ok(attrs@, m@),
        r matches Ok(t) ==> t == spec_time_capacity(attrs@, m@),
        r matches Err(e) ==> e == spec_time_capacity_err(attrs@, m@),
{
    match crate::decl::find_field(attrs, m, "time_capacity") {
        Some(AttrValue::Str(s)) => if !duration_literal_bounded_check(s.as_str()) {
            proof {
                if !has_digit(str_bytes(s@)) {
                    crate::parse::util::lemma_no_digit_count(str_bytes(s@));
                }
            }
            Err(BuildErrorKind::OutOfRange { field: FieldName::TimeCapacity })
        } else {
            match SystemTime::from_string(s.as_str()) {
            Ok(SystemTime::Normal(d)) => {
                if d.is_zero() {
                    Err(BuildErrorKind::OutOfRange { field: FieldName::TimeCapacity })
                } else {
                    proof {
                        assert(crate::time::dur_nanos(d) > 0) by (nonlinear_arith)
                            requires
                                d.secs > 0 || d.nanos > 0,
                                d.secs >= 0,
                                d.nanos >= 0,
                        {}
                    }
                    Ok(SystemTime::Normal(d))
                }
            },
                Ok(SystemTime::Infinite) => Ok(SystemTime::Infinite),
                Err(_) => Err(BuildErrorKind::MalformedLiteral { field: FieldName::TimeCapacity }),
            }
        },
        Some(_) => Err(BuildErrorKind::MalformedLiteral { field: FieldName::TimeCapacity }),
        None => Err(BuildErrorKind::MissingField { field: FieldName::TimeCapacity }),
    }
}

/// The period field is well-formed: a duration literal that parses to a
/// positive span.
pub open spec fn period_ok(attrs: Seq<Attr>, m: Seq<char>) -> bool {
    match spec_find_field(attrs, m, "period"@) {
        Some(AttrValue::Str(s)) => duration_literal_bounded(str_bytes(s@)) && match duration_of(
            s@,
        ) {
            Some(p) => p.0 > 0 || p.1 > 0,
            None => false,
        },
        _ => false,
    }
}

/// The parsed period; meaningful under [`period_ok`].
pub open spec fn spec_period(attrs: Seq<Attr>, m: Seq<char>) -> Duration {
    match spec_find_field(attrs, m, "period"@) {
        Some(AttrValue::Str(s)) => match duration_of(s@) {
            Some(p) => Duration { secs: p.0, nanos: p.1 },
            None => Duration { secs: 0, nanos: 0 },
        },
        _ => Duration { secs: 0, nanos: 0 },
    }
}

/// The error a bad period reports; meaningful when [`period_ok`] fails.
pub open spec fn spec_period_err(attrs: Seq<Attr>, m: Seq<char>) -> BuildErrorKind {
    match spec_find_field(attrs, m, "period"@) {
        None => BuildErrorKind::MissingField { field: FieldName::Period },
        Some(AttrValue::Str(s)) => if !duration_literal_bounded(str_bytes(s@)) {
            BuildErrorKind::OutOfRange { field: FieldName::Period }
        } else {
            match duration_of(s@) {
                Some(p) => BuildErrorKind::OutOfRange { field: FieldName::Period },
                None => BuildErrorKind::MalformedLiteral { field: FieldName::Period },
            }
        },
        Some(_) => BuildErrorKind::MalformedLiteral { field: FieldName::Period },
    }
}

/// Reads and validates the periodic marker's period field; a zero span is
/// out of range.
fn parse_period(attrs: &Vec<Attr>, m: &str) -> (r: Result<Duration, BuildErrorKind>)
    ensures
        r is Ok <==> period_ok(attrs@, m@),
        r matches Ok(d) ==> d == spec_period(attrs@, m@) && dur_wf(d),
        r matches Err(e) ==> e == spec_period_err(attrs@, m@),
{
    match crate::decl::find_field(attrs, m, "period") {
        Some(AttrValue::Str(s)) => if !duration_literal_bounded_check(s.as_str()) {
            Err(BuildErrorKind::OutOfRange { field: FieldName::Period })
        } else {
            match WrappedDuration::from_string(s.as_str()) {
            Ok(w) => {
                let d = w.to_duration();
                if d.is_zero() {
                    Err(BuildErrorKind::OutOfRange { field: FieldName::Period })
                } else {
                    proof {
                        assert(crate::time::dur_nanos(d) > 0) by (nonlinear_arith)
                            requires
                                d.secs > 0 || d.nanos > 0,
                                d.secs >= 0,
                                d.nanos >= 0,
                        {}
                    }
                    Ok(d)
                }
            },
                Err(_) => Err(BuildErrorKind::MalformedLiteral { field: FieldName::Period }),
            }
        },
        Some(_) => Err(BuildErrorKind::MalformedLiteral { field: FieldName::Period }),
        None => Err(BuildErrorKind::MissingField { field: FieldName::Period }),
    }
}

/// The stack size field is well-formed: a size literal that parses to a
/// positive count representable as a stack size.
pub open spec fn stack_size_ok(attrs: Seq<Attr>, m: Seq<char>) -> bool {
    match spec_find_field(attrs, m, "stack_size"@) {
        Some(AttrValue::Str(s)) => match byte_size_of(s@) {
            Some(n) => 0 < n <= u32::MAX,
            None => false,
        },
        _ => false,
    }
}

/// The parsed stack size; meaningful under [`stack_size_ok`].
pub open spec fn spec_stack_size(attrs: Seq<Attr>, m: Seq<char>) -> u64 {
    match spec_find_field(attrs, m, "stack_size"@) {
        Some(AttrValue::Str(s)) => match byte_size_of(s@) {
            Some(n) => n,
            None => 0,
        },
        _ => 0,
    }
}

/// The error a bad stack size reports; meaningful when [`stack_size_ok`]
/// fails.
pub open spec fn spec_stack_size_err(attrs: Seq<Attr>, m: Seq<char>) -> BuildErrorKind {
    match spec_find_field(attrs, m, "stack_size"@) {
        None => BuildErrorKind::MissingField { field: FieldName::StackSize },
        Some(AttrValue::Str(s)) => match byte_size_of(s@) {
            Some(n) => BuildErrorKind::OutOfRange { field: FieldName::StackSize },
            None => BuildErrorKind::MalformedLiteral { field: FieldName::StackSize },
        },
        Some(_) => BuildErrorKind::MalformedLiteral { field: FieldName::StackSize },
    }
}

/// Reads and validates the marker's stack size field.
fn parse_stack_size(attrs: &Vec<Attr>, m: &str) -> (r: Result<u32, BuildErrorKind>)
    ensures
        r is Ok <==> stack_size_ok(attrs@, m@),
        r matches Ok(n) ==> n == spec_stack_size(attrs@, m@),
        r matches Err(e) ==> e == spec_stack_size_err(attrs@, m@),
{
    match crate::decl::find_field(attrs, m, "stack_size") {
        Some(AttrValue::Str(s)) => match WrappedByteSize::from_string(s.as_str()) {
            Ok(w) => {
                let n = w.bytes();
                if n == 0 || n > u32::MAX as u64 {
                    Err(BuildErrorKind::OutOfRange { field: FieldName::StackSize })
                } else {
                    Ok(n as u32)
                }
            },
            Err(_) => Err(BuildErrorKind::MalformedLiteral { field: FieldName::StackSize }),
        },
        Some(_) => Err(BuildErrorKind::MalformedLiteral { field: FieldName::StackSize }),
        None => Err(BuildErrorKind::MissingField { field: FieldName::StackSize }),
    }
}

/// The base priority field is well-formed: an integer in the valid
/// priority range.
pub open spec fn base_priority_ok(attrs: Seq<Attr>, m: Seq<char>) -> bool {
    match spec_find_field(attrs, m, "base_priority"@) {
        Some(AttrValue::Int(p)) => MIN_PRIORITY_VALUE <= p <= MAX_PRIORITY_VALUE,
        _ => false,
    }
}

/// The parsed base priority; meaningful under [`base_priority_ok`].
pub open spec fn spec_base_priority(attrs: Seq<Attr>, m: Seq<char>) -> int {
    match spec_find_field(attrs, m, "base_priority"@) {
        Some(AttrValue::Int(p)) => p as int,
        _ => 0,
    }
}

/// The error a bad base priority reports; meaningful when
/// [`base_priority_ok`] fails.
pub open spec fn spec_base_priority_err(attrs: Seq<Attr>, m: Seq<char>) -> BuildErrorKind {
    match spec_find_field(attrs, m, "base_priority"@) {
        None => BuildErrorKind::MissingField { field: FieldName::BasePriority },
        Some(AttrValue::Int(p)) => BuildErrorKind::OutOfRange { field: FieldName::BasePriority },
        Some(_) => BuildErrorKind::MalformedLiteral { field: FieldName::BasePriority },
    }
}

/// Reads and validates the marker's base priority field against the valid
/// priority range.
fn parse_base_priority(attrs: &Vec<Attr>, m: &str) -> (r: Result<i32, BuildErrorKind>)
    ensures
        r is Ok <==> base_priority_ok(attrs@, m@),
        r matches Ok(p) ==> p == spec_base_priority(attrs@, m@),
        r matches Err(e) ==> e == spec_base_priority_err(attrs@, m@),
{
    match crate::decl::find_field(attrs, m, "base_priority") {
        Some(AttrValue::Int(p)) => {
            let p = *p;
            if p < MIN_PRIORITY_VALUE as i64 || p > MAX_PRIORITY_VALUE as i64 {
                Err(BuildErrorKind::OutOfRange { field: FieldName::BasePriority })
            } else {
                Ok(p as i32)
            }
        },
        Some(_) => Err(BuildErrorKind::MalformedLiteral { field: FieldName::BasePriority }),
        None => Err(BuildErrorKind::MissingField { field: FieldName::BasePriority }),
    }
}

/// The deadline field is well-formed: a string naming one of the two
/// deadline kinds, in any case.
pub open spec fn deadline_field_ok(attrs: Seq<Attr>, m: Seq<char>) -> bool {
    match spec_find_field(attrs, m, "deadline"@) {
        Some(AttrValue::Str(s)) => deadline_of(s@) is Some,
        _ => false,
    }
}

/// The parsed deadline; meaningful under [`deadline_field_ok`].
pub open spec fn spec_deadline(attrs: Seq<Attr>, m: Seq<char>) -> Deadline {
    match spec_find_field(attrs, m, "deadline"@) {
        Some(AttrValue::Str(s)) => match deadline_of(s@) {
            Some(d) => d,
            None => Deadline::Soft,
        },
        _ => Deadline::Soft,
    }
}

/// The error a bad deadline reports; meaningful when
/// [`deadline_field_ok`] fails.
pub open spec fn spec_deadline_err(attrs: Seq<Attr>, m: Seq<char>) -> BuildErrorKind {
    match spec_find_field(attrs, m, "deadline"@) {
        None => BuildErrorKind::MissingField { field: FieldName::Deadline },
        Some(AttrValue::Str(s)) => BuildErrorKind::UnknownEnumValue { field: FieldName::Deadline },
        Some(_) => BuildErrorKind::MalformedLiteral { field: FieldName::Deadline },
    }
}

/// Reads and validates the marker's deadline field against the closed
/// set, case-insensitively.
fn parse_deadline(attrs: &Vec<Attr>, m: &str) -> (r: Result<Deadline, BuildErrorKind>)
    ensures
        r is Ok <==> deadline_field_ok(attrs@, m@),
        r matches Ok(d) ==> d == spec_deadline(attrs@, m@),
        r matches Err(e) ==> e == spec_deadline_err(attrs@, m@),
{
    match crate::decl::find_field(attrs, m, "deadline") {
        Some(AttrValue::Str(s)) => match Deadline::from_string(s.as_str()) {
            Ok(d) => Ok(d),
            Err(_) => Err(BuildErrorKind::UnknownEnumValue { field: FieldName::Deadline }),
        },
        Some(_) => Err(BuildErrorKind::MalformedLiteral { field: FieldName::Deadline }),
        None => Err(BuildErrorKind::MissingField { field: FieldName::Deadline }),
    }
}

/// An aperiodic process declaration.
#[derive(Debug, PartialEq, Eq)]
pub struct Aperiodic {
    pub name: PortName,
    pub time_capacity: SystemTime,
    pub stack_size: u32,
    pub base_priority: i32,
    pub deadline: Deadline,
}

/// A periodic process declaration.
#[derive(Debug, PartialEq, Eq)]
pub struct Periodic {
    pub name: PortName,
    pub time_capacity: SystemTime,
    pub period: Duration,
    pub stack_size: u32,
    pub base_priority: i32,
    pub deadline: Deadline,
}

/// All fields of an `aperiodic` marker are well-formed.
pub open spec fn aperiodic_ok(ident: Seq<char>, attrs: Seq<Attr>) -> bool {
    name_field_ok(ident, attrs, "aperiodic"@) && time_capacity_ok(attrs, "aperiodic"@)
        && stack_size_ok(attrs, "aperiodic"@) && base_priority_ok(attrs, "aperiodic"@)
        && deadline_field_ok(attrs, "aperiodic"@)
}

/// All fields of a `periodic` marker are well-formed.
pub open spec fn periodic_ok(ident: Seq<char>, attrs: Seq<Attr>) -> bool {
    name_field_ok(ident, attrs, "periodic"@) && time_capacity_ok(attrs, "periodic"@) && period_ok(
        attrs,
        "periodic"@,
    ) && stack_size_ok(attrs, "periodic"@) && base_priority_ok(attrs, "periodic"@)
        && deadline_field_ok(attrs, "periodic"@)
}

/// The first field error an `aperiodic` marker reports; meaningful when
/// [`aperiodic_ok`] fails.
pub open spec fn spec_aperiodic_err(ident: Seq<char>, attrs: Seq<Attr>) -> BuildErrorKind {
    if !name_field_ok(ident, attrs, "aperiodic"@) {
        BuildErrorKind::InvalidName { field: FieldName::Name }
    } else if !time_capacity_ok(attrs, "aperiodic"@) {
        spec_time_capacity_err(attrs, "aperiodic"@)
    } else if !stack_size_ok(attrs, "aperiodic"@) {
        spec_stack_size_err(attrs, "aperiodic"@)
    } else if !base_priority_ok(attrs, "aperiodic"@) {
        spec_base_priority_err(attrs, "aperiodic"@)
    } else {
        spec_deadline_err(attrs, "aperiodic"@)
    }
}

/// The first field error a `periodic` marker reports; meaningful when
/// [`periodic_ok`] fails.
pub open spec fn spec_periodic_err(ident: Seq<char>, attrs: Seq<Attr>) -> BuildErrorKind {
    if !name_field_ok(ident, attrs, "periodic"@) {
        BuildErrorKind::InvalidName { field: FieldName::Name }
    } else if !time_capacity_ok(attrs, "periodic"@) {
        spec_time_capacity_err(attrs, "periodic"@)
    } else if !period_ok(attrs, "periodic"@) {
        spec_period_err(attrs, "periodic"@)
    } else if !stack_size_ok(attrs, "periodic"@) {
        spec_stack_size_err(attrs, "periodic"@)
    } else if !base_priority_ok(attrs, "periodic"@) {
        spec_base_priority_err(attrs, "periodic"@)
    } else {
        spec_deadline_err(attrs, "periodic"@)
    }
}

impl Aperiodic {
    /// Parses an `aperiodic` marker when one is present; `None` when the
    /// declaration carries none.
    pub fn may_from_attributes(ident: &str, attrs: &Vec<Attr>) -> (r: Option<
        Result<Aperiodic, BuildErrorKind>,
    >)
        ensures
            r is None <==> !has_attr(attrs@, "aperiodic"@),
            r matches Some(res) ==> (res is Ok <==> aperiodic_ok(ident@, attrs@)),
            r matches Some(Ok(a)) ==> a.name@ == str_bytes(
                spec_name_source(ident@, attrs@, "aperiodic"@),
            ) && a.time_capacity == spec_time_capacity(attrs@, "aperiodic"@) && a.stack_size
                == spec_stack_size(attrs@, "aperiodic"@) && a.base_priority == spec_base_priority(
                attrs@,
                "aperiodic"@,
            ) && a.deadline == spec_deadline(attrs@, "aperiodic"@),
            r matches Some(Err(e)) ==> e == spec_aperiodic_err(ident@, attrs@),
    {
        if !contains_attribute("aperiodic", attrs.as_slice()) {
            return None;
        }
        let name = match parse_name(ident, attrs, "aperiodic") {
            Ok(n) => n,
            Err(e) => {
                return Some(Err(e));
            },
        };
        let time_capacity = match parse_time_capacity(attrs, "aperiodic") {
            Ok(t) => t,
            Err(e) => {
                return Some(Err(e));
            },
        };
        let stack_size = match parse_stack_size(attrs, "aperiodic") {
            Ok(n) => n,
            Err(e) => {
                return Some(Err(e));
            },
        };
        let base_priority = match parse_base_priority(attrs, "aperiodic") {
            Ok(p) => p,
            Err(e) => {
                return Some(Err(e));
            },
        };
        let deadline = match parse_deadline(attrs, "aperiodic") {
            Ok(d) => d,
            Err(e) => {
                return Some(Err(e));
            },
        };
        Some(Ok(Aperiodic { name, time_capacity, stack_size, base_priority, deadline }))
    }
}

impl Periodic {
    /// Parses a `periodic` marker when one is present; `None` when the
    /// declaration carries none.
    pub fn may_from_attributes(ident: &str, attrs: &Vec<Attr>) -> (r: Option<
        Result<Periodic, BuildErrorKind>,
    >)
        ensures
            r is None <==> !has_attr(attrs@, "periodic"@),
            r matches Some(res) ==> (res is Ok <==> periodic_ok(ident@, attrs@)),
            r matches Some(Ok(p)) ==> p.name@ == str_bytes(
                spec_name_source(ident@, attrs@, "periodic"@),
            ) && p.time_capacity == spec_time_capacity(attrs@, "periodic"@) && p.period
                == spec_period(attrs@, "periodic"@) && p.stack_size == spec_stack_size(
                attrs@,
                "periodic"@,
            ) && p.base_priority == spec_base_priority(attrs@, "periodic"@) && p.deadline
                == spec_deadline(attrs@, "periodic"@),
            r matches Some(Err(e)) ==> e == spec_periodic_err(ident@, attrs@),
    {
        if !contains_attribute("periodic", attrs.as_slice()) {
            return None;
        }
        let name = match parse_name(ident, attrs, "periodic") {
            Ok(n) => n,
            Err(e) => {
                return Some(Err(e));
            },
        };
        let time_capacity = match parse_time_capacity(attrs, "periodic") {
            Ok(t) => t,
            Err(e) => {
                return Some(Err(e));
            },
        };
        let period = match parse_period(attrs, "periodic") {
            Ok(d) => d,
            Err(e) => {
                return Some(Err(e));
            },
        };
        let stack_size = match parse_stack_size(attrs, "periodic") {
            Ok(n) => n,
            Err(e) => {
                return Some(Err(e));
            },
        };
        let base_priority = match parse_base_priority(attrs, "periodic") {
            Ok(p) => p,
            Err(e) => {
                return Some(Err(e));
            },
        };
        let deadline = match parse_deadline(attrs, "periodic") {
            Ok(d) => d,
            Err(e) => {
                return Some(Err(e));
            },
        };
        Some(Ok(Periodic { name, time_capacity, period, stack_size, base_priority, deadline }))
    }
}

/// One parsed process descriptor: an aperiodic process has an unbounded
/// period, a periodic one carries its period.
#[derive(Debug, PartialEq, Eq)]
pub struct Process {
    /// the external name
    pub name: PortName,
    /// the declaration identifier, used for the generated namespace
    pub ident: String,
    pub time_capacity: SystemTime,
    pub period: SystemTime,
    pub stack_size: u32,
    pub base_priority: i32,
    pub deadline: Deadline,
}

impl Process {
    /// Lifts an aperiodic declaration; the period is unbounded.
    pub fn from_aperiodic(ident: String, a: Aperiodic) -> (r: Process)
        ensures
            r.name == a.name,
            r.ident == ident,
            r.time_capacity == a.time_capacity,
            r.period == SystemTime::Infinite,
            r.stack_size == a.stack_size,
            r.base_priority == a.base_priority,
            r.deadline == a.deadline,
    {
        Process {
            name: a.name,
            ident,
            time_capacity: a.time_capacity,
            period: SystemTime::Infinite,
            stack_size: a.stack_size,
            base_priority: a.base_priority,
            deadline: a.deadline,
        }
    }

    /// Lifts a periodic declaration; the period is its finite span.
    pub fn from_periodic(ident: String, p: Periodic) -> (r: Process)
        ensures
            r.name == p.name,
            r.ident == ident,
            r.time_capacity == p.time_capacity,
            r.period == SystemTime::Normal(p.period),
            r.stack_size == p.stack_size,
            r.base_priority == p.base_priority,
            r.deadline == p.deadline,
    {
        Process {
            name: p.name,
            ident,
            time_capacity: p.time_capacity,
            period: SystemTime::Normal(p.period),
            stack_size: p.stack_size,
            base_priority: p.base_priority,
            deadline: p.deadline,
        }
    }
}

/// The process-kind markers a declaration carries, in a fixed order.
pub open spec fn spec_process_markers(attrs: Seq<Attr>) -> Seq<Marker> {
    (if has_attr(attrs, "aperiodic"@) {
        seq![Marker::Aperiodic]
    } else {
        Seq::empty()
    }) + (if has_attr(attrs, "periodic"@) {
        seq![Marker::Periodic]
    } else {
        Seq::empty()
    })
}

/// How many process-kind markers a declaration carries.
pub open spec fn process_marker_count(attrs: Seq<Attr>) -> int {
    spec_process_markers(attrs).len() as int
}

/// Lists the process-kind markers a declaration carries.
pub fn process_markers(attrs: &Vec<Attr>) -> (r: Vec<Marker>)
    ensures
        r@ == spec_process_markers(attrs@),
{
    let mut markers: Vec<Marker> = Vec::new();
    if contains_attribute("aperiodic", attrs.as_slice()) {
        markers.push(Marker::Aperiodic);
    }
    if contains_attribute("periodic", attrs.as_slice()) {
        markers.push(Marker::Periodic);
    }
    proof {
        assert(markers@ =~= spec_process_markers(attrs@));
    }
    markers
}

/// A function declaration that is a process: it carries at least one
/// process-kind marker.
pub open spec fn is_process_decl(d: Decl) -> bool {
    d.kind is Func && process_marker_count(d.attrs@) >= 1
}

/// The function takes exactly one parameter of its own context type and
/// declares no return type.
pub open spec fn proc_sig_ok(d: Decl) -> bool {
    match d.kind {
        DeclKind::Func(sig) => {
            &&& sig.inputs@.len() == 1
            &&& sig.inputs@[0]@ == d.ident@ + "::Context"@
            &&& (sig.output is None || (sig.output matches Some(t) && t@ == "()"@))
        },
        _ => false,
    }
}

/// A declaration passes the process parser: as a function it carries at
/// most one process-kind marker, and a carried marker's fields and the
/// function's shape are well-formed.
pub open spec fn decl_process_ok(d: Decl) -> bool {
    d.kind is Func ==> {
        &&& process_marker_count(d.attrs@) <= 1
        &&& (has_attr(d.attrs@, "aperiodic"@) ==> aperiodic_ok(d.ident@, d.attrs@) && proc_sig_ok(
            d,
        ))
        &&& (has_attr(d.attrs@, "periodic"@) ==> periodic_ok(d.ident@, d.attrs@) && proc_sig_ok(d))
    }
}

/// The parsed process corresponds to the declaration: same identifier,
/// and the descriptor fields are the marker's parsed fields.
pub open spec fn process_matches_decl(p: Process, d: Decl) -> bool {
    &&& p.ident@ == d.ident@
    &&& if has_attr(d.attrs@, "aperiodic"@) {
        &&& p.name@ == str_bytes(spec_name_source(d.ident@, d.attrs@, "aperiodic"@))
        &&& p.time_capacity == spec_time_capacity(d.attrs@, "aperiodic"@)
        &&& p.period == SystemTime::Infinite
        &&& p.stack_size == spec_stack_size(d.attrs@, "aperiodic"@)
        &&& p.base_priority == spec_base_priority(d.attrs@, "aperiodic"@)
        &&& p.deadline == spec_deadline(d.attrs@, "aperiodic"@)
    } else {
        &&& has_attr(d.attrs@, "periodic"@)
        &&& p.name@ == str_bytes(spec_name_source(d.ident@, d.attrs@, "periodic"@))
        &&& p.time_capacity == spec_time_capacity(d.attrs@, "periodic"@)
        &&& p.period == SystemTime::Normal(spec_period(d.attrs@, "periodic"@))
        &&& p.stack_size == spec_stack_size(d.attrs@, "periodic"@)
        &&& p.base_priority == spec_base_priority(d.attrs@, "periodic"@)
        &&& p.deadline == spec_deadline(d.attrs@, "periodic"@)
    }
}

/// The function takes exactly one parameter of its own context type.
pub open spec fn proc_arg_ok(d: Decl) -> bool {
    match d.kind {
        DeclKind::Func(sig) => sig.inputs@.len() == 1 && sig.inputs@[0]@ == d.ident@
            + "::Context"@,
        _ => false,
    }
}

/// The error the process parser reports for a declaration: the combined
/// error naming both markers when both stand on it; else the first bad
/// field of its marker; else the shape fault of its signature.
pub open spec fn process_err_matches(e: BuildErrorKind, d: Decl) -> bool {
    if process_marker_count(d.attrs@) >= 2 {
        e matches BuildErrorKind::MultipleMarkers { markers } && markers@ == spec_process_markers(
            d.attrs@,
        )
    } else if has_attr(d.attrs@, "aperiodic"@) && !aperiodic_ok(d.ident@, d.attrs@) {
        e == spec_aperiodic_err(d.ident@, d.attrs@)
    } else if has_attr(d.attrs@, "periodic"@) && !periodic_ok(d.ident@, d.attrs@) {
        e == spec_periodic_err(d.ident@, d.attrs@)
    } else if !proc_arg_ok(d) {
        e matches BuildErrorKind::WrongParameter { expected } && expected@ == d.ident@
            + "::Context"@
    } else {
        e == BuildErrorKind::ReturnNotAllowed
    }
}

/// Parses the process of one declaration: `Ok(None)` when it declares no
/// process, and an error exactly when it breaks a process rule. A
/// declaration with both process-kind markers is rejected with one
/// combined error naming both; a single bad marker reports its first bad
/// field, then its signature faults.
pub fn process_of_decl(d: &Decl) -> (r: Result<Option<Process>, BuildErrorKind>)
    ensures
        r is Err <==> !decl_process_ok(*d),
        r matches Ok(Some(p)) ==> process_matches_decl(p, *d) && is_process_decl(*d),
        r matches Ok(None) ==> !is_process_decl(*d),
        r matches Err(e) ==> process_err_matches(e, *d),
{
    let sig = match &d.kind {
        DeclKind::Func(sig) => sig,
        _ => {
            return Ok(None);
        },
    };
    let markers = process_markers(&d.attrs);
    if markers.len() == 0 {
        return Ok(None);
    }
    if markers.len() >= 2 {
        return Err(BuildErrorKind::MultipleMarkers { markers });
    }
    let proc = if let Some(res) = Aperiodic::may_from_attributes(d.ident.as_str(), &d.attrs) {
        match res {
            Ok(a) => Process::from_aperiodic(clone_string(&d.ident), a),
            Err(e) => {
                return Err(e);
            },
        }
    } else {
        match Periodic::may_from_attributes(d.ident.as_str(), &d.attrs) {
            Some(Ok(p)) => Process::from_periodic(clone_string(&d.ident), p),
            Some(Err(e)) => {
                return Err(e);
            },
            None => {
                proof {
                    assert(spec_process_markers(d.attrs@).len() == 0);
                }
                unreached()
            },
        }
    };
    let expected = clone_string(&d.ident).concat("::Context");
    match single_function_argument(expected.as_str(), sig) {
        Ok(()) => {},
        Err(e) => {
            return Err(e);
        },
    }
    match no_return_type("Process", &sig.output) {
        Ok(()) => {},
        Err(e) => {
            return Err(e);
        },
    }
    Ok(Some(proc))
}

/// The parsed processes correspond one to one, in order, to the process
/// declarations of the module.
pub open spec fn procs_match_decls(ps: Seq<Process>, ds: Seq<Decl>) -> bool
    decreases ds.len(),
{
    if ds.len() == 0 {
        ps.len() == 0
    } else if is_process_decl(ds[0]) {
        ps.len() > 0 && process_matches_decl(ps[0], ds[0]) && procs_match_decls(
            ps.drop_first(),
            ds.drop_first(),
        )
    } else {
        procs_match_decls(ps, ds.drop_first())
    }
}

proof fn lemma_procs_match_push(ps: Seq<Process>, ds: Seq<Decl>, p: Process, d: Decl)
    requires
        procs_match_decls(ps, ds),
        is_process_decl(d) ==> process_matches_decl(p, d),
    ensures
        is_process_decl(d) ==> procs_match_decls(ps.push(p), ds.push(d)),
        !is_process_decl(d) ==> procs_match_decls(ps, ds.push(d)),
    decreases ds.len(),
{
    reveal_with_fuel(procs_match_decls, 3);
    if ds.len() == 0 {
        assert(ds.push(d)[0] == d);
        assert(ds.push(d).drop_first() =~= Seq::<Decl>::empty());
        if is_process_decl(d) {
            assert(ps.len() == 0);
            assert(ps.push(p)[0] == p);
            assert(ps.push(p).drop_first() =~= Seq::<Process>::empty());
        }
    } else {
        assert(ds.push(d)[0] == ds[0]);
        assert(ds.push(d).drop_first() =~= ds.drop_first().push(d));
        if is_process_decl(ds[0]) {
            assert(ps.len() > 0);
            lemma_procs_match_push(ps.drop_first(), ds.drop_first(), p, d);
            if is_process_decl(d) {
                assert(ps.push(p)[0] == ps[0]);
                assert(ps.push(p).drop_first() =~= ps.drop_first().push(p));
            }
        } else {
            lemma_procs_match_push(ps, ds.drop_first(), p, d);
        }
    }
}

/// The declaration with its process markers consumed: a process function
/// keeps everything but the marker attributes, anything else is
/// untouched.
pub open spec fn process_decl_stripped(nd: Decl, od: Decl) -> bool {
    if is_process_decl(od) {
        &&& nd.ident == od.ident
        &&& nd.kind == od.kind
        &&& nd.attrs@ == crate::decl::spec_remove_attrs(
            crate::decl::spec_remove_attrs(od.attrs@, "aperiodic"@),
            "periodic"@,
        )
    } else {
        nd == od
    }
}

impl Process {
    /// Walks the module's declarations, parsing every process function and
    /// consuming its marker attributes; the functions themselves stay in
    /// the module. All errors across all declarations are collected, and
    /// any error aborts the build: the declarations are then left
    /// untouched.
    pub fn from_content(items: &mut Vec<Decl>) -> (r: Result<Vec<Process>, Vec<BuildError>>)
        ensures
            r is Ok <==> (forall|i: int|
                0 <= i < old(items)@.len() ==> decl_process_ok(#[trigger] old(items)@[i])),
            r matches Ok(ps) ==> procs_match_decls(ps@, old(items)@) && final(items)@.len() == old(
                items,
            )@.len() && (forall|i: int|
                0 <= i < old(items)@.len() ==> process_decl_stripped(
                    #[trigger] final(items)@[i],
                    old(items)@[i],
                )),
            r matches Err(errs) ==> errs@.len() > 0 && final(items)@ == old(items)@ && (forall|k: int|
                0 <= k < errs@.len() ==> errs@[k].decl < old(items)@.len() && !decl_process_ok(
                    #[trigger] old(items)@[errs@[k].decl as int],
                ) && process_err_matches(errs@[k].kind, old(items)@[errs@[k].decl as int])),
        r matches Err(errs) ==> (forall|i: int|
                0 <= i < old(items)@.len() && !decl_process_ok(#[trigger] old(items)@[i]) ==> (
                exists|k: int| 0 <= k < errs@.len() && (#[trigger] errs@[k]).decl == i)),
    {
        let ghost orig = items@;
        let mut errors: Vec<BuildError> = Vec::new();
        let mut i: usize = 0;
        while i < items.len()
            invariant
                items@ == orig,
                i <= orig.len(),
                errors@.len() == 0 <==> (forall|j: int|
                    0 <= j < i ==> decl_process_ok(#[trigger] orig[j])),
                forall|k: int|
                    0 <= k < errors@.len() ==> (#[trigger] errors@[k]).decl < i && !decl_process_ok(
                        orig[errors@[k].decl as int],
                    ) && process_err_matches(errors@[k].kind, orig[errors@[k].decl as int]),
                forall|j: int|
                    0 <= j < i && !decl_process_ok(#[trigger] orig[j]) ==> (exists|k: int|
                        0 <= k < errors@.len() && (#[trigger] errors@[k]).decl == j),
            decreases orig.len() - i,
        {
            match process_of_decl(&items[i]) {
                Ok(_) => {},
                Err(e) => {
                    let ghost before = errors@;
                    errors.push(BuildError { decl: i, kind: e });
                    proof {
                        assert(errors@[before.len() as int].decl == i);
                        assert(forall|k: int| 0 <= k < before.len() ==> errors@[k] == before[k]);
                    }
                },
            }
            i += 1;
        }
        if errors.len() > 0 {
            return Err(errors);
        }
        let mut procs: Vec<Process> = Vec::new();
        let mut out: Vec<Decl> = Vec::new();
        let ghost mut processed: Seq<Decl> = Seq::<Decl>::empty();
        proof {
            assert(procs_match_decls(procs@, processed));
        }
        while items.len() > 0
            invariant
                processed + items@ =~= orig,
                forall|j: int| 0 <= j < orig.len() ==> decl_process_ok(#[trigger] orig[j]),
                procs_match_decls(procs@, processed),
                out@.len() == processed.len(),
                forall|j: int|
                    0 <= j < processed.len() ==> process_decl_stripped(
                        #[trigger] out@[j],
                        processed[j],
                    ),
            decreases items@.len(),
        {
            let ghost prev = items@;
            let mut d = items.remove(0);
            proof {
                assert(prev.remove(0) =~= prev.drop_first());
                assert(d == prev[0]);
                assert(orig[processed.len() as int] == d);
            }
            let ghost od = d;
            match process_of_decl(&d) {
                Ok(Some(p)) => {
                    proof {
                        lemma_procs_match_push(procs@, processed, p, od);
                    }
                    crate::decl::remove_attributes("aperiodic", &mut d.attrs);
                    crate::decl::remove_attributes("periodic", &mut d.attrs);
                    procs.push(p);
                    out.push(d);
                },
                Ok(None) => {
                    proof {
                        let ghost nothing: Process = vstd::pervasive::arbitrary();
                        lemma_procs_match_push(procs@, processed, nothing, od);
                    }
                    out.push(d);
                },
                Err(_) => {
                    proof {
                        assert(decl_process_ok(od));
                    }
                    unreached::<()>();
                },
            }
            proof {
                processed = processed.push(od);
                assert(processed + items@ =~= orig);
            }
        }
        proof {
            assert(processed =~= orig);
        }
        *items = out;
        Ok(procs)
    }
}

} // verus!
