//! A single reply of an SNTPv4 server, as plain values, and the conversions
//! of its fields to microseconds.

use vstd::prelude::*;
use vstd::arithmetic::power2::pow2;
use vstd::arithmetic::power2::lemma2_to64;
use vstd::arithmetic::power2::lemma_pow2_unfold;

verus! {

/// Microseconds in one second.
pub const MICROS_PER_SECOND: u64 = 1_000_000;

/// One NTP measurement: the server's time and how far the local clock is off.
#[derive(Clone, Copy, Debug, PartialEq, Eq)]
pub struct NtpSample {
    /// Stratum of the server.
    pub stratum: u8,
    /// Estimated offset of the local clock against the server, in microseconds.
    pub offset_micros: i64,
    /// Round trip of the exchange, in microseconds.
    pub roundtrip_micros: u64,
    /// Precision of the server's clock as a power-of-two exponent of seconds.
    pub precision: i8,
    /// Server time, whole seconds since the Unix epoch.
    pub seconds: u32,
    /// Server time, fraction of a second in units of 2^-32 s.
    pub seconds_fraction: u32,
}

/// `round(2^p * 1_000_000)`, saturated to the range of `u64`.
pub open spec fn precision_micros_of(p: i8) -> nat {
    if p >= 0 {
        let v = 1_000_000 * pow2(p as nat);
        if v > u64::MAX { u64::MAX as nat } else { v }
    } else {
        // rounding half up of 1_000_000 / 2^k is floor((2_000_000 + 2^k) / 2^(k+1))
        let k = (-p) as nat;
        (2_000_000 + pow2(k)) / pow2(k + 1)
    }
}

/// What `sntpc::fraction_to_microseconds` returns for a second fraction.
pub open spec fn fraction_micros_of(fraction: u32) -> nat {
    (fraction as nat * 1_000_000) / (u32::MAX as nat)
}

/// Server time of a sample in microseconds since the Unix epoch.
pub open spec fn epoch_micros_of(s: NtpSample) -> nat {
    s.seconds as nat * 1_000_000 + fraction_micros_of(s.seconds_fraction)
}

/// Accuracy of a sample: precision plus round trip, saturated to `u64`.
pub open spec fn sample_accuracy_of(s: NtpSample) -> nat {
    let a = precision_micros_of(s.precision) + s.roundtrip_micros;
    if a > u64::MAX { u64::MAX as nat } else { a as nat }
}

/// Relies on sntpc::fraction_to_microseconds: `fraction * 1_000_000 / u32::MAX`.
#[verifier::external_body]
fn fraction_to_micros(fraction: u32) -> (r: u32)
    ensures
        r as nat == fraction_micros_of(fraction),
{
    sntpc::fraction_to_microseconds(fraction)
}

/// Converts an NTP precision exponent to microseconds, rounding to nearest.
pub fn precision_micros(p: i8) -> (r: u64)
    ensures
        r as nat == precision_micros_of(p),
{
    if p >= 0 {
        let mut v: u64 = MICROS_PER_SECOND;
        let mut i: i8 = 0;
        proof {
            lemma2_to64();
        }
        while i < p
            invariant
                0 <= i <= p,
                v as nat == (if 1_000_000 * pow2(i as nat) > u64::MAX { u64::MAX as nat } else {
                    1_000_000 * pow2(i as nat)
                }),
            decreases p - i,
        {
            proof {
                lemma_pow2_unfold((i + 1) as nat);
            }
            if v > u64::MAX / 2 {
                v = u64::MAX;
            } else {
                v = v * 2;
            }
            i = i + 1;
        }
        proof {
            lemma2_to64();
        }
        v
    } else {
        let k: u32 = (-(p as i32)) as u32;
        if k > 20 {
            proof {
                lemma2_to64();
                lemma_pow2_grows(21, k as nat);
                lemma_pow2_unfold((k + 1) as nat);
                let num: nat = 2_000_000 + pow2(k as nat);
                assert(num < pow2((k + 1) as nat));
                assert(num / pow2((k + 1) as nat) == 0) by (nonlinear_arith)
                    requires
                        num < pow2((k + 1) as nat),
                ;
            }
            0
        } else {
            let mut pk: u64 = 1;
            let mut i: u32 = 0;
            proof {
                lemma2_to64();
            }
            while i < k
                invariant
                    0 <= i <= k <= 20,
                    pk as nat == pow2(i as nat),
                    1 <= pk <= 1_048_576,
                decreases k - i,
            {
                proof {
                    lemma_pow2_unfold((i + 1) as nat);
                    lemma_pow2_grows((i + 1) as nat, 20);
                    lemma2_to64();
                }
                pk = pk * 2;
                i = i + 1;
            }
            proof {
                lemma_pow2_unfold((k + 1) as nat);
                assert(k as nat == (-p) as nat);
            }
            (2 * MICROS_PER_SECOND + pk) / (2 * pk)
        }
    }
}

proof fn lemma_pow2_grows(a: nat, b: nat)
    requires
        a <= b,
    ensures
        pow2(a) <= pow2(b),
    decreases b - a,
{
    if a < b {
        lemma_pow2_grows(a, (b - 1) as nat);
        lemma_pow2_unfold(b);
    }
}

impl NtpSample {
    /// The server time of this sample in microseconds since the Unix epoch.
    pub fn epoch_micros(&self) -> (r: u64)
        ensures
            r as nat == epoch_micros_of(*self),
    {
        let f = fraction_to_micros(self.seconds_fraction);
        assert(fraction_micros_of(self.seconds_fraction) <= 1_000_000) by (nonlinear_arith);
        assert(self.seconds as nat * 1_000_000 <= 4_294_967_295 * 1_000_000) by (nonlinear_arith);
        self.seconds as u64 * MICROS_PER_SECOND + f as u64
    }

    /// The accuracy of this sample: the server's precision plus the round
    /// trip, in microseconds (saturating).
    pub fn accuracy_micros(&self) -> (r: u64)
        ensures
            r as nat == sample_accuracy_of(*self),
    {
        precision_micros(self.precision).saturating_add(self.roundtrip_micros)
    }
}

} // verus!
