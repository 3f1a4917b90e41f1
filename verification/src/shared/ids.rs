//! Identifiers and clocks: UUIDs carried as `u128` and timestamps as
//! microseconds (or seconds) since the Unix epoch.

use vstd::prelude::*;
use vstd::string::*;

use super::digits::{hex_char, hex_digit_str};

verus! {

/// Bits that every version-4 (random) UUID has fixed: the version
/// nibble and the two variant bits.
pub const UUID_V4_FIXED_MASK: u128 = 0xf000_c000_0000_0000_0000;

/// Value of the fixed bits of a version-4 UUID: version 4, RFC 4122 variant.
pub const UUID_V4_FIXED_BITS: u128 = 0x4000_8000_0000_0000_0000;

/// Nibble `i` (0 = most significant) of the 128-bit value `v`.
pub open spec fn nibble(v: u128, i: int) -> int {
    ((v >> ((4 * (31 - i)) as u32)) & 0xf) as int
}

/// The hexadecimal digits of nibbles `from..to` of `v`.
pub open spec fn hex_digits(v: u128, from: int, to: int) -> Seq<char> {
    Seq::new((to - from) as nat, |j: int| hex_char(nibble(v, from + j)))
}

/// The hyphenated lowercase text of a UUID, `xxxxxxxx-xxxx-xxxx-xxxx-xxxxxxxxxxxx`.
pub open spec fn uuid_text(v: u128) -> Seq<char> {
    hex_digits(v, 0, 8) + seq!['-'] + hex_digits(v, 8, 12) + seq!['-'] + hex_digits(v, 12, 16)
        + seq!['-'] + hex_digits(v, 16, 20) + seq!['-'] + hex_digits(v, 20, 32)
}

/// What `uuid::Uuid::parse_str` yields for a text: the UUID as a 128-bit
/// value, or nothing when the text is not a UUID.
pub uninterp spec fn spec_uuid_parse(text: Seq<char>) -> Option<u128>;

/// Appends the hexadecimal digits of nibbles `from..to` of `v` to `out`.
fn append_hex_digits(out: &mut String, v: u128, from: u32, to: u32)
    requires
        from <= to <= 32,
    ensures
        final(out)@ == old(out)@ + hex_digits(v, from as int, to as int),
{
    let ghost start = out@;
    let mut i = from;
    while i < to
        invariant
            from <= i <= to <= 32,
            out@ == start + hex_digits(v, from as int, i as int),
        decreases to - i,
    {
        let shift: u32 = 4 * (31 - i);
        let w: u128 = (v >> shift) & 0xf;
        assert(w < 16) by (bit_vector)
            requires w == (v >> shift) & 0xf;
        let d = w as u8;
        let ghost before = out@;
        out.append(hex_digit_str(d));
        proof {
            assert(d as int == nibble(v, i as int));
            assert(hex_digits(v, from as int, i + 1) == hex_digits(v, from as int, i as int)
                + seq![hex_char(nibble(v, i as int))]);
        }
        i = i + 1;
    }
}

/// The hyphenated lowercase text of the UUID `v`, as `Uuid`'s `Display`
/// writes it.
pub fn uuid_to_string(v: u128) -> (r: String)
    ensures
        r@ == uuid_text(v),
{
    let mut out = String::new();
    append_hex_digits(&mut out, v, 0, 8);
    out.append("-");
    append_hex_digits(&mut out, v, 8, 12);
    out.append("-");
    append_hex_digits(&mut out, v, 12, 16);
    out.append("-");
    append_hex_digits(&mut out, v, 16, 20);
    out.append("-");
    append_hex_digits(&mut out, v, 20, 32);
    proof { reveal_strlit("-"); }
    out
}

/// A fresh random identifier from `uuid::Uuid::new_v4`, as a 128-bit
/// value. Only its version and variant bits are known in advance: the
/// rest is random.
#[verifier::external_body]
pub fn new_uuid_v4() -> (r: u128)
    ensures
        r & UUID_V4_FIXED_MASK == UUID_V4_FIXED_BITS,
{
    uuid::Uuid::new_v4().as_u128()
}

/// Parses a UUID with `uuid::Uuid::parse_str`. The result is a function
/// of the text alone; the module documents that every format it writes,
/// the hyphenated lowercase one among them, parses back to the same UUID.
#[verifier::external_body]
pub fn parse_uuid(text: &str) -> (r: Option<u128>)
    ensures
        r == spec_uuid_parse(text@),
        forall|v: u128| text@ == uuid_text(v) ==> r == Some(v),
{
    uuid::Uuid::parse_str(text).ok().map(|u| u.as_u128())
}

/// The current time from `chrono::Utc::now`, in microseconds since the
/// Unix epoch. Nothing is known of it in advance.
#[verifier::external_body]
pub fn now_micros() -> (r: i64) {
    chrono::Utc::now().timestamp_micros()
}

/// Bound on the seconds since the Unix epoch of any time the `time`
/// crate represents: its years lie within `-999_999..=999_999` (within
/// `-9999..=9999` without its `large-dates` feature), less than
/// 10^14 seconds away from 1970.
pub const CLOCK_SECONDS_BOUND: i64 = 100_000_000_000_000;

/// The current time from `time::OffsetDateTime::now_utc`, in whole
/// seconds since the Unix epoch. Which time it is is not known in
/// advance; it lies within the years an `OffsetDateTime` can hold.
#[verifier::external_body]
pub fn now_unix_seconds() -> (r: i64)
    ensures
        -CLOCK_SECONDS_BOUND <= r <= CLOCK_SECONDS_BOUND,
{
    time::OffsetDateTime::now_utc().unix_timestamp()
}

} // verus!
