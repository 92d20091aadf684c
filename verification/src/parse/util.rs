//! Literal-format validation: human-readable byte sizes and durations,
//! parsed by outside crates behind trusted wrappers, and case-insensitive
//! matching for the closed enumeration sets.

use vstd::prelude::*;
use crate::time::{dur_wf, Duration};

verus! {

use vstd::string::StringSliceAdditionalSpecFns;

/// The byte count that a human-readable size literal denotes, when it
/// parses at all; what bytesize's parser computes.
pub uninterp spec fn byte_size_of(s: Seq<char>) -> Option<u64>;

/// Relies on bytesize's string parser: whether a size literal parses, and
/// to which byte count, depends on the literal alone.
#[verifier::external_body]
fn parse_byte_size(s: &str) -> (r: Option<u64>)
    ensures
        r == byte_size_of(s@),
{
    s.parse::<bytesize::ByteSize>().ok().map(|b| b.as_u64())
}

/// An ASCII digit.
pub open spec fn is_ascii_digit(b: u8) -> bool {
    0x30 <= b <= 0x39
}

/// Whether the literal holds a digit at all.
pub open spec fn has_digit(s: Seq<u8>) -> bool {
    exists|i: int| 0 <= i < s.len() && is_ascii_digit(s[i])
}

/// How many digit characters the literal holds.
pub open spec fn digit_count(s: Seq<u8>) -> int
    decreases s.len(),
{
    if s.len() == 0 {
        0
    } else {
        (if is_ascii_digit(s[0]) {
            1int
        } else {
            0int
        }) + digit_count(s.drop_first())
    }
}

/// A duration literal this library admits: at most eleven digits in all.
/// Eleven digits bound every quantity the outside parser can accumulate
/// from the literal by well under `u64::MAX` seconds, which keeps its one
/// unchecked normalization step from overflowing.
pub open spec fn duration_literal_bounded(s: Seq<u8>) -> bool {
    digit_count(s) <= 11
}

proof fn lemma_digit_count_push(s: Seq<u8>, b: u8)
    ensures
        digit_count(s.push(b)) == digit_count(s) + (if is_ascii_digit(b) {
            1int
        } else {
            0int
        }),
    decreases s.len(),
{
    reveal_with_fuel(digit_count, 3);
    if s.len() == 0 {
        assert(s.push(b)[0] == b);
        assert(s.push(b).drop_first() =~= Seq::<u8>::empty());
    } else {
        assert(s.push(b)[0] == s[0]);
        assert(s.push(b).drop_first() =~= s.drop_first().push(b));
        lemma_digit_count_push(s.drop_first(), b);
    }
}

/// A literal without any digit holds no digit characters at all.
pub proof fn lemma_no_digit_count(s: Seq<u8>)
    requires
        !has_digit(s),
    ensures
        digit_count(s) == 0,
    decreases s.len(),
{
    if s.len() > 0 {
        assert(!is_ascii_digit(s[0]));
        assert(forall|i: int|
            0 <= i < s.drop_first().len() ==> s.drop_first()[i] == s[i + 1]);
        lemma_no_digit_count(s.drop_first());
    }
}

/// Decides [`duration_literal_bounded`] for a literal.
pub fn duration_literal_bounded_check(value: &str) -> (r: bool)
    ensures
        r == duration_literal_bounded(value.spec_bytes()),
{
    let bytes = value.as_bytes();
    let mut count: usize = 0;
    let mut i: usize = 0;
    proof {
        assert(bytes@.take(0) =~= Seq::<u8>::empty());
    }
    while i < bytes.len()
        invariant
            i <= bytes@.len(),
            count <= i,
            bytes@ == value.spec_bytes(),
            count == digit_count(bytes@.take(i as int)),
        decreases bytes@.len() - i,
    {
        proof {
            lemma_digit_count_push(bytes@.take(i as int), bytes@[i as int]);
            assert(bytes@.take(i as int).push(bytes@[i as int]) =~= bytes@.take(i + 1 as int));
        }
        let b = bytes[i];
        if 0x30 <= b && b <= 0x39 {
            count += 1;
        }
        i += 1;
    }
    proof {
        assert(bytes@.take(bytes@.len() as int) =~= bytes@);
    }
    count <= 11
}

/// The seconds and subsecond nanoseconds that a human-readable duration
/// literal denotes, when it parses at all; what humantime's parser
/// computes.
pub uninterp spec fn duration_of(s: Seq<char>) -> Option<(u64, u32)>;

/// Relies on humantime::parse_duration: whether a duration literal parses,
/// and to which span, depends on the literal alone; the subsecond part of
/// a parsed span stays below one second. The parser's arithmetic is
/// checked except the carry in its final normalization, which can only
/// overflow once its seconds counter stands at `u64::MAX`; a literal of at
/// most eleven digits keeps every accumulated quantity far below that, so
/// the call cannot abort. The precondition admits only such literals.
#[verifier::external_body]
fn parse_duration_str(s: &str) -> (r: Option<(u64, u32)>)
    requires
        duration_literal_bounded(s.spec_bytes()),
    ensures
        r == duration_of(s@),
        r matches Some(p) ==> p.1 < 1_000_000_000,
{
    humantime::parse_duration(s).ok().map(|d| (d.as_secs(), d.subsec_nanos()))
}

/// A validated byte-size literal.
#[derive(Copy, Clone, Debug, PartialEq, Eq, Structural)]
pub struct WrappedByteSize(u64);

impl WrappedByteSize {
    pub closed spec fn spec_bytes(&self) -> u64 {
        self.0
    }

    /// Parses a human-readable size literal; rejected exactly when the
    /// outside parser rejects it.
    pub fn from_string(value: &str) -> (r: Result<WrappedByteSize, ()>)
        ensures
            r is Ok <==> byte_size_of(value@) is Some,
            r matches Ok(w) ==> byte_size_of(value@) == Some(w.spec_bytes()),
    {
        match parse_byte_size(value) {
            Some(n) => Ok(WrappedByteSize(n)),
            None => Err(()),
        }
    }

    pub fn bytes(&self) -> (r: u64)
        ensures
            r == self.spec_bytes(),
    {
        self.0
    }
}

/// A validated duration literal.
#[derive(Copy, Clone, Debug, PartialEq, Eq, Structural)]
pub struct WrappedDuration(Duration);

impl WrappedDuration {
    pub closed spec fn spec_duration(&self) -> Duration {
        self.0
    }

    /// Parses a human-readable duration literal; rejected exactly when it
    /// holds more digits than this library admits or the outside parser
    /// rejects it.
    pub fn from_string(value: &str) -> (r: Result<WrappedDuration, ()>)
        ensures
            r is Ok <==> (duration_literal_bounded(value.spec_bytes()) && duration_of(value@)
                is Some),
            r matches Ok(w) ==> duration_of(value@) == Some(
                (w.spec_duration().secs, w.spec_duration().nanos),
            ) && dur_wf(w.spec_duration()),
    {
        if !duration_literal_bounded_check(value) {
            return Err(());
        }
        match parse_duration_str(value) {
            Some(p) => Ok(WrappedDuration(Duration::new(p.0, p.1))),
            None => Err(()),
        }
    }

    pub fn to_duration(&self) -> (r: Duration)
        ensures
            r == self.spec_duration(),
    {
        self.0
    }
}

/// An upper-case ASCII letter folded to lower case; other bytes unchanged.
pub open spec fn lower_byte(b: u8) -> u8 {
    if 0x41 <= b <= 0x5a {
        (b + 0x20) as u8
    } else {
        b
    }
}

/// Byte-wise equality up to ASCII case.
pub open spec fn eq_ignore_case_bytes(a: Seq<u8>, b: Seq<u8>) -> bool {
    a.len() == b.len() && (forall|i: int| 0 <= i < a.len() ==> lower_byte(a[i]) == lower_byte(b[i]))
}

/// Compares two strings byte-wise up to ASCII case.
pub fn eq_ignore_ascii_case(a: &str, b: &str) -> (r: bool)
    ensures
        r == eq_ignore_case_bytes(a.spec_bytes(), b.spec_bytes()),
{
    let ab = a.as_bytes();
    let bb = b.as_bytes();
    if ab.len() != bb.len() {
        return false;
    }
    let mut i: usize = 0;
    while i < ab.len()
        invariant
            i <= ab@.len(),
            ab@ == a.spec_bytes(),
            bb@ == b.spec_bytes(),
            ab@.len() == bb@.len(),
            forall|j: int| 0 <= j < i ==> lower_byte(ab@[j]) == lower_byte(bb@[j]),
        decreases ab@.len() - i,
    {
        let x = ab[i];
        let y = bb[i];
        let xl = if 0x41 <= x && x <= 0x5a {
            x + 0x20
        } else {
            x
        };
        let yl = if 0x41 <= y && y <= 0x5a {
            y + 0x20
        } else {
            y
        };
        if xl != yl {
            proof {
                assert(lower_byte(ab@[i as int]) != lower_byte(bb@[i as int]));
            }
            return false;
        }
        i += 1;
    }
    true
}

/// The byte encoding of a character sequence.
pub open spec fn str_bytes(s: Seq<char>) -> Seq<u8> {
    vstd::utf8::encode_utf8(s)
}

} // verus!
