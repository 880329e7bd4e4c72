//! The 64-bit NTP timestamp: 32 bits of seconds since the 1900 epoch and a
//! 32-bit binary fraction of a second, both big-endian on the wire.
//!
//! A decoded timestamp is held as Unix seconds plus a nanosecond remainder.
//! The fraction is converted by the exact fixed-point scaling
//! `nanoseconds = round(fraction * 10^9 / 2^32)` and its exact inverse, so
//! that a decoded value re-encodes to bytes that decode to the same value.
//! All-zero wire bytes are the "unspecified time" sentinel, reported as
//! `Zero`, distinct from the `Invalid` overflow failure.

use vstd::arithmetic::div_mod::{
    lemma_basic_div, lemma_div_is_ordered, lemma_fundamental_div_mod,
    lemma_fundamental_div_mod_converse,
};
use vstd::prelude::*;

use crate::wire::{be32, be32_seq, lemma_be32_of_bytes, push_be32, read_be32};

verus! {

/// Offset in seconds between the NTP epoch (1900-01-01T00:00:00Z) and the
/// Unix epoch (1970-01-01T00:00:00Z).
pub const NTP_UNIX_OFFSET: i64 = 2208988800;

/// The last Unix second whose 1900-epoch count still fits in the 32-bit
/// wire field.
pub const NTP_ERA_MAX_UNIX_SECS: i64 = 0xFFFF_FFFF - NTP_UNIX_OFFSET;

/// A calendar instant: seconds since the Unix epoch, possibly negative back
/// to the NTP epoch, and a nanosecond remainder below one second.
#[derive(Copy, Clone, Debug, PartialEq, Eq, Structural)]
pub struct NtpTimestamp {
    pub secs: i64,
    pub nanos: u32,
}

#[derive(Copy, Clone, Debug, PartialEq, Eq, Structural)]
pub enum NtpTimestampError {
    /// The 8 wire bytes denote the "unspecified time" sentinel.
    Zero,
    /// The instant cannot be represented with a nanosecond remainder below
    /// one second.
    Invalid,
}

/// The nanosecond remainder that a 32-bit binary fraction denotes, rounded
/// to the nearest nanosecond: `round(frac * 10^9 / 2^32)`.
pub open spec fn nanos_of_frac(frac: int) -> int
    recommends
        0 <= frac < 0x1_0000_0000,
{
    (frac * 1000000000 + 0x8000_0000) / 0x1_0000_0000
}

/// The 32-bit binary fraction nearest to a nanosecond remainder:
/// `round(nanos * 2^32 / 10^9)`.
pub open spec fn frac_of_nanos(nanos: int) -> int
    recommends
        0 <= nanos < 1000000000,
{
    (nanos * 0x1_0000_0000 + 500000000) / 1000000000
}

/// The rounded nanosecond remainder of any 32-bit fraction lies between 0
/// and a full second inclusive; only the two largest fractions round up to
/// the full second.
pub proof fn lemma_nanos_of_frac_bound(frac: int)
    requires
        0 <= frac < 0x1_0000_0000,
    ensures
        0 <= nanos_of_frac(frac) <= 1000000000,
        frac < 0xFFFF_FFFE ==> nanos_of_frac(frac) < 1000000000,
{
    let x = frac * 1000000000 + 0x8000_0000;
    lemma_div_is_ordered(0, x, 0x1_0000_0000);
    lemma_div_is_ordered(x, 0xFFFF_FFFFint * 1000000000 + 0x8000_0000, 0x1_0000_0000);
    lemma_fundamental_div_mod_converse(
        0xFFFF_FFFFint * 1000000000 + 0x8000_0000,
        0x1_0000_0000,
        1000000000,
        1147483648,
    );
    if frac < 0xFFFF_FFFE {
        lemma_div_is_ordered(x, 0xFFFF_FFFDint * 1000000000 + 0x8000_0000, 0x1_0000_0000);
        lemma_fundamental_div_mod_converse(
            0xFFFF_FFFDint * 1000000000 + 0x8000_0000,
            0x1_0000_0000,
            999999999,
            3442450944,
        );
    }
}

/// The fraction nearest to a nanosecond remainder below one second fits in
/// 32 bits.
pub proof fn lemma_frac_of_nanos_bound(nanos: int)
    requires
        0 <= nanos < 1000000000,
    ensures
        0 <= frac_of_nanos(nanos) < 0x1_0000_0000,
{
    let x = nanos * 0x1_0000_0000 + 500000000;
    lemma_div_is_ordered(0, x, 1000000000);
    lemma_div_is_ordered(x, 999999999int * 0x1_0000_0000 + 500000000, 1000000000);
    lemma_fundamental_div_mod_converse(
        999999999int * 0x1_0000_0000 + 500000000,
        1000000000,
        4294967292,
        205032704,
    );
}

/// Exact fixed-point round trip: scaling a nanosecond remainder up to a
/// 32-bit fraction and back down again returns the same remainder. This is
/// what makes encode the right inverse of decode for the fraction field.
pub proof fn lemma_frac_nanos_round_trip(nanos: int)
    requires
        0 <= nanos < 1000000000,
    ensures
        nanos_of_frac(frac_of_nanos(nanos)) == nanos,
{
    let x = nanos * 0x1_0000_0000 + 500000000;
    let f = frac_of_nanos(nanos);
    lemma_fundamental_div_mod(x, 1000000000);
    let r = x % 1000000000;
    // x == 1000000000 * f + r, so f * 1000000000 == x - r.
    assert(f * 1000000000 == nanos * 0x1_0000_0000 + 500000000 - r);
    // Therefore f * 10^9 + 2^31 == nanos * 2^32 + (2^31 + 5*10^8 - r),
    // and the parenthesised remainder lies in [0, 2^32).
    lemma_fundamental_div_mod_converse(
        f * 1000000000 + 0x8000_0000,
        0x1_0000_0000,
        nanos,
        0x8000_0000 + 500000000 - r,
    );
}

/// Converts a 32-bit wire fraction to its rounded nanosecond remainder.
pub fn frac_to_nanos(frac: u32) -> (r: u32)
    ensures
        r == nanos_of_frac(frac as int),
        r <= 1000000000,
{
    proof {
        lemma_nanos_of_frac_bound(frac as int);
    }
    let wide: u64 = (frac as u64) * 1000000000u64 + 0x8000_0000u64;
    (wide / 0x1_0000_0000u64) as u32
}

/// Converts a nanosecond remainder to the nearest 32-bit wire fraction.
pub fn nanos_to_frac(nanos: u32) -> (r: u32)
    requires
        nanos < 1000000000,
    ensures
        r == frac_of_nanos(nanos as int),
{
    proof {
        lemma_frac_of_nanos_bound(nanos as int);
    }
    let wide: u64 = (nanos as u64) * 0x1_0000_0000u64 + 500000000u64;
    (wide / 1000000000u64) as u32
}

/// How many decimal digits a nonnegative integer has; zero has one.
pub open spec fn spec_digit_count(n: nat) -> nat
    decreases n,
{
    if n < 10 {
        1
    } else {
        1 + spec_digit_count(n / 10)
    }
}

/// Ten to the power `k`.
pub open spec fn spec_pow10(k: nat) -> nat
    decreases k,
{
    if k == 0 {
        1
    } else {
        10 * spec_pow10((k - 1) as nat)
    }
}

/// Powers of ten are positive.
pub proof fn lemma_pow10_pos(k: nat)
    ensures
        spec_pow10(k) >= 1,
    decreases k,
{
    if k > 0 {
        lemma_pow10_pos((k - 1) as nat);
    }
}

/// Powers of ten increase with the exponent.
pub proof fn lemma_pow10_mono(j: nat, k: nat)
    requires
        j <= k,
    ensures
        1 <= spec_pow10(j) <= spec_pow10(k),
    decreases k,
{
    lemma_pow10_pos(j);
    if j < k {
        lemma_pow10_mono(j, (k - 1) as nat);
    }
}

/// An integer below the `k`-th power of ten has at most `k` digits.
pub proof fn lemma_digit_count_below_pow10(n: nat, k: nat)
    requires
        k >= 1,
        n < spec_pow10(k),
    ensures
        spec_digit_count(n) <= k,
    decreases k,
{
    if n >= 10 {
        let p = spec_pow10((k - 1) as nat);
        assert(spec_pow10(k) == 10 * p);
        assert(10 * p - 1 == (p - 1) * 10 + 9) by (nonlinear_arith);
        lemma_fundamental_div_mod_converse(10 * p - 1, 10, p - 1, 9);
        lemma_div_is_ordered(n as int, 10 * p - 1, 10);
        lemma_digit_count_below_pow10(n / 10, (k - 1) as nat);
    }
}

/// Every 64-bit integer has at most 20 decimal digits.
pub proof fn lemma_digit_count_bound(n: nat)
    requires
        n <= u64::MAX,
    ensures
        1 <= spec_digit_count(n) <= 20,
{
    assert(spec_pow10(20) == 100000000000000000000) by {
        reveal_with_fuel(spec_pow10, 21);
    }
    lemma_digit_count_below_pow10(n, 20);
}

/// The number of decimal digits of `n`.
pub fn digit_count(n: u64) -> (r: u32)
    ensures
        r == spec_digit_count(n as nat),
        1 <= r <= 20,
{
    proof {
        lemma_digit_count_bound(n as nat);
    }
    let mut d: u32 = 1;
    let mut m: u64 = n;
    while m >= 10
        invariant
            1 <= d <= 20,
            spec_digit_count(n as nat) == d - 1 + spec_digit_count(m as nat),
            spec_digit_count(n as nat) <= 20,
        decreases m,
    {
        proof {
            lemma_digit_count_bound((m / 10) as nat);
        }
        m = m / 10;
        d = d + 1;
    }
    d
}

/// Ten to the power `k`, for exponents whose power fits in 64 bits.
pub fn pow10(k: u32) -> (r: u64)
    requires
        k <= 19,
    ensures
        r == spec_pow10(k as nat),
{
    let mut r: u64 = 1;
    let mut i: u32 = 0;
    while i < k
        invariant
            i <= k <= 19,
            r == spec_pow10(i as nat),
        decreases k - i,
    {
        proof {
            lemma_pow10_mono(i as nat, 18);
            assert(spec_pow10(18) == 1000000000000000000) by {
                reveal_with_fuel(spec_pow10, 19);
            }
        }
        r = r * 10;
        i = i + 1;
    }
    r
}

/// Scales an integer by a power of ten so that its decimal representation
/// has `expected_digits` digits: a shorter number is multiplied up, a
/// longer one is truncated from the right. This is the approximate decimal
/// reading of a fraction field; the codec itself uses the exact binary
/// scaling of `nanos_of_frac` and `frac_of_nanos` instead.
pub fn pad_int(integer: u64, expected_digits: u32) -> (r: u64)
    requires
        expected_digits <= 19,
        spec_digit_count(integer as nat) <= expected_digits ==> (integer as nat) * spec_pow10(
            (expected_digits - spec_digit_count(integer as nat)) as nat,
        ) <= u64::MAX,
    ensures
        ({
            let d = spec_digit_count(integer as nat);
            if d <= expected_digits {
                r == (integer as nat) * spec_pow10((expected_digits - d) as nat)
            } else {
                r == (integer as nat) / spec_pow10((d - expected_digits) as nat)
            }
        }),
{
    let d = digit_count(integer);
    if d <= expected_digits {
        let p = pow10(expected_digits - d);
        integer * p
    } else {
        let k = d - expected_digits;
        if k >= 20 {
            proof {
                assert(spec_pow10(20) == 100000000000000000000) by {
                    reveal_with_fuel(spec_pow10, 21);
                }
                lemma_basic_div(integer as int, spec_pow10(20) as int);
            }
            0
        } else {
            let p = pow10(k);
            proof {
                lemma_pow10_pos(k as nat);
            }
            integer / p
        }
    }
}

/// What the 8 wire bytes of one timestamp field denote: the sentinel, an
/// unrepresentable instant, or a calendar instant.
pub open spec fn spec_decode_timestamp(b: Seq<u8>) -> Result<NtpTimestamp, NtpTimestampError>
    recommends
        b.len() == 8,
{
    let secs_wire = be32(b[0], b[1], b[2], b[3]);
    let frac = be32(b[4], b[5], b[6], b[7]);
    let nanos = nanos_of_frac(frac as int);
    if secs_wire == 0 && nanos == 0 {
        Err(NtpTimestampError::Zero)
    } else if nanos >= 1000000000 {
        Err(NtpTimestampError::Invalid)
    } else {
        Ok(
            NtpTimestamp {
                secs: (secs_wire - NTP_UNIX_OFFSET) as i64,
                nanos: nanos as u32,
            },
        )
    }
}

/// The optional reading of one timestamp field: any failure, sentinel or
/// overflow, degrades to "absent".
pub open spec fn spec_opt_timestamp(b: Seq<u8>) -> Option<NtpTimestamp>
    recommends
        b.len() == 8,
{
    match spec_decode_timestamp(b) {
        Ok(t) => Some(t),
        Err(_) => None,
    }
}

impl NtpTimestamp {
    /// The instant lies within the 32-bit NTP era that begins at the NTP
    /// epoch, and the nanosecond remainder is below one second.
    pub open spec fn wf(self) -> bool {
        &&& -NTP_UNIX_OFFSET <= self.secs
        &&& self.secs + NTP_UNIX_OFFSET < 0x1_0000_0000
        &&& self.nanos < 1000000000
    }

    /// Whether this instant lies in the representable era with a sub-second
    /// remainder.
    pub fn is_wf(&self) -> (r: bool)
        ensures
            r == self.wf(),
    {
        -NTP_UNIX_OFFSET <= self.secs && self.secs <= NTP_ERA_MAX_UNIX_SECS && self.nanos
            < 1000000000
    }

    /// The instant of the NTP epoch itself, whose wire seconds are zero.
    /// Together with a zero remainder it is the "unspecified" sentinel.
    pub open spec fn is_epoch_zero(self) -> bool {
        self.secs == -NTP_UNIX_OFFSET && self.nanos == 0
    }

    /// The 8 wire bytes of this instant: big-endian 1900-epoch seconds,
    /// then the big-endian fraction nearest to the nanosecond remainder.
    pub open spec fn spec_to_bytes(self) -> Seq<u8>
        recommends
            self.wf(),
    {
        be32_seq((self.secs + NTP_UNIX_OFFSET) as u32) + be32_seq(
            frac_of_nanos(self.nanos as int) as u32,
        )
    }

    /// Reads the 8-byte timestamp field at `off`.
    pub fn decode_at(b: &[u8], off: usize) -> (r: Result<NtpTimestamp, NtpTimestampError>)
        requires
            off + 8 <= b@.len(),
        ensures
            r == spec_decode_timestamp(b@.subrange(off as int, off + 8)),
            r matches Ok(t) ==> t.wf() && !t.is_epoch_zero(),
    {
        let ghost s = b@.subrange(off as int, off + 8);
        // binds the slice length so the offset arithmetic below stays in
        // bounds
        let _n: usize = b.len();
        let secs_wire = read_be32(b, off);
        let frac = read_be32(b, off + 4);
        proof {
            assert(s[0] == b@[off as int] && s[1] == b@[off + 1] && s[2] == b@[off + 2] && s[3]
                == b@[off + 3] && s[4] == b@[off + 4] && s[5] == b@[off + 5] && s[6] == b@[off + 6]
                && s[7] == b@[off + 7]);
        }
        let nanos = frac_to_nanos(frac);
        if secs_wire == 0 && nanos == 0 {
            Err(NtpTimestampError::Zero)
        } else if nanos >= 1000000000 {
            Err(NtpTimestampError::Invalid)
        } else {
            Ok(NtpTimestamp { secs: (secs_wire as i64) - NTP_UNIX_OFFSET, nanos })
        }
    }

    /// Appends the 8 wire bytes of this instant to `v`.
    pub fn write_to(&self, v: &mut Vec<u8>)
        requires
            self.wf(),
        ensures
            final(v)@ == old(v)@ + self.spec_to_bytes(),
    {
        push_be32(v, ((self.secs + NTP_UNIX_OFFSET) as u64) as u32);
        proof {
            lemma_frac_of_nanos_bound(self.nanos as int);
        }
        push_be32(v, nanos_to_frac(self.nanos));
        assert(v@ =~= old(v)@ + self.spec_to_bytes());
    }

    /// The 8 wire bytes of this instant.
    pub fn to_bytes(&self) -> (r: Vec<u8>)
        requires
            self.wf(),
        ensures
            r@ == self.spec_to_bytes(),
            r@.len() == 8,
    {
        let mut v: Vec<u8> = Vec::new();
        self.write_to(&mut v);
        assert(v@ =~= self.spec_to_bytes());
        v
    }
}

/// The 8 zero bytes written for an absent timestamp: the "unspecified
/// time" sentinel.
pub open spec fn spec_zero_ts_bytes() -> Seq<u8> {
    seq![0u8, 0u8, 0u8, 0u8, 0u8, 0u8, 0u8, 0u8]
}

/// The 8 wire bytes of an optional timestamp field; an absent value is
/// written as the sentinel.
pub open spec fn spec_opt_ts_bytes(o: Option<NtpTimestamp>) -> Seq<u8> {
    match o {
        Some(t) => t.spec_to_bytes(),
        None => spec_zero_ts_bytes(),
    }
}

/// A timestamp field is always written as exactly eight bytes.
pub proof fn lemma_opt_ts_bytes_len(o: Option<NtpTimestamp>)
    ensures
        spec_opt_ts_bytes(o).len() == 8,
        o matches Some(t) ==> t.spec_to_bytes().len() == 8,
{
}

/// Every instant that one timestamp field decodes to is well formed and is
/// not the epoch sentinel.
pub proof fn lemma_decode_timestamp_ok(b: Seq<u8>)
    requires
        b.len() == 8,
    ensures
        spec_decode_timestamp(b) matches Ok(t) ==> t.wf() && !t.is_epoch_zero(),
        spec_opt_timestamp(b) matches Some(t) ==> t.wf() && !t.is_epoch_zero(),
{
    lemma_nanos_of_frac_bound(be32(b[4], b[5], b[6], b[7]) as int);
}

/// Appends the 8 wire bytes of an optional timestamp field to `v`.
pub fn write_opt_to(o: &Option<NtpTimestamp>, v: &mut Vec<u8>)
    requires
        o matches Some(t) ==> t.wf(),
    ensures
        final(v)@ == old(v)@ + spec_opt_ts_bytes(*o),
{
    match o {
        Some(t) => {
            t.write_to(v);
        },
        None => {
            let mut i: usize = 0;
            while i < 8
                invariant
                    i <= 8,
                    v@ == old(v)@ + spec_zero_ts_bytes().take(i as int),
                decreases 8 - i,
            {
                v.push(0u8);
                i = i + 1;
                assert(v@ =~= old(v)@ + spec_zero_ts_bytes().take(i as int));
            }
            assert(v@ =~= old(v)@ + spec_zero_ts_bytes());
        },
    }
}

/// Round trip of one timestamp field: the bytes written for a well-formed
/// instant decode to that same instant, except that the epoch instant with
/// a zero remainder writes the sentinel and therefore reads back as `Zero`.
pub proof fn lemma_timestamp_round_trip(ts: NtpTimestamp)
    requires
        ts.wf(),
    ensures
        spec_decode_timestamp(ts.spec_to_bytes()) == if ts.is_epoch_zero() {
            Err::<NtpTimestamp, NtpTimestampError>(NtpTimestampError::Zero)
        } else {
            Ok::<NtpTimestamp, NtpTimestampError>(ts)
        },
{
    let sw = (ts.secs + NTP_UNIX_OFFSET) as u32;
    lemma_frac_of_nanos_bound(ts.nanos as int);
    let f = frac_of_nanos(ts.nanos as int) as u32;
    let b = ts.spec_to_bytes();
    assert(b[0] == crate::wire::be32_byte0(sw) && b[1] == crate::wire::be32_byte1(sw) && b[2]
        == crate::wire::be32_byte2(sw) && b[3] == crate::wire::be32_byte3(sw));
    assert(b[4] == crate::wire::be32_byte0(f) && b[5] == crate::wire::be32_byte1(f) && b[6]
        == crate::wire::be32_byte2(f) && b[7] == crate::wire::be32_byte3(f));
    lemma_be32_of_bytes(sw);
    lemma_be32_of_bytes(f);
    lemma_frac_nanos_round_trip(ts.nanos as int);
}

/// The all-zero 8-byte field is the "unspecified time" sentinel.
pub proof fn lemma_zero_bytes_decode(b: Seq<u8>)
    requires
        b.len() == 8,
        forall|i: int| 0 <= i < 8 ==> b[i] == 0,
    ensures
        spec_decode_timestamp(b) == Err::<NtpTimestamp, NtpTimestampError>(NtpTimestampError::Zero),
        spec_opt_timestamp(b) is None,
{
    assert(be32(0, 0, 0, 0) == 0) by (bit_vector);
}

} // verus!
