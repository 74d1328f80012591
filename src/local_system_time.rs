//! Local system time and offset with accuracy measurements.
//!
//! By measuring how the local system clock drifts compared to NTP samples, a
//! rough upper bound of the local clock's error can be kept.

use vstd::prelude::*;
use crate::ntp_sample::NtpSample;
use crate::ntp_sample::precision_micros_of;

verus! {

/// The state of a [`LocalSystemTime`] as mathematical integers.
pub struct LocalClockView {
    /// Accuracy assumed of the local clock when nothing was measured.
    pub declared_accuracy_micros: nat,
    /// Largest error of the local clock estimated since the last reset.
    pub worst_measured_accuracy_micros: nat,
    /// Largest change of offset seen between two NTP samples.
    pub max_drift_between_checks_micros: nat,
    /// Offset of the local clock at the last NTP sample, widened by its
    /// accuracy.
    pub last_offset: int,
}

pub open spec fn abs(x: int) -> nat {
    if x < 0 { (-x) as nat } else { x as nat }
}

pub open spec fn max_nat(a: nat, b: nat) -> nat {
    if a >= b { a } else { b }
}

pub open spec fn clamp_i64(x: int) -> int {
    if x < i64::MIN { i64::MIN as int } else if x > i64::MAX { i64::MAX as int } else { x }
}

/// The sample's offset widened away from zero by its precision and round
/// trip, clamped to the range of `i64`.
pub open spec fn widened_offset_of(s: NtpSample) -> int {
    let acc = precision_micros_of(s.precision) + s.roundtrip_micros;
    if s.offset_micros < 0 {
        clamp_i64(s.offset_micros - acc)
    } else {
        clamp_i64(s.offset_micros + acc)
    }
}

/// The tracker after an NTP sample has been taken into account.
pub open spec fn after_ntp_sample(c: LocalClockView, s: NtpSample) -> LocalClockView {
    let off = widened_offset_of(s);
    let last = c.last_offset;
    if last != 0 {
        let diff = abs(last - off);
        LocalClockView {
            declared_accuracy_micros: c.declared_accuracy_micros,
            worst_measured_accuracy_micros: if c.worst_measured_accuracy_micros == 0 {
                max_nat(abs(last), abs(off))
            } else if abs(last) < abs(off) && c.worst_measured_accuracy_micros < abs(off) {
                abs(off)
            } else {
                c.worst_measured_accuracy_micros
            },
            max_drift_between_checks_micros: max_nat(c.max_drift_between_checks_micros, diff),
            last_offset: off,
        }
    } else {
        LocalClockView { last_offset: off, ..c }
    }
}

/// The tracker after a missed NTP sample: the worst measured accuracy grows by
/// the largest drift seen, and everything is forgotten once that reaches the
/// declared accuracy.
pub open spec fn after_missed_sample(c: LocalClockView) -> LocalClockView {
    let drift = c.max_drift_between_checks_micros;
    if drift == 0 {
        c
    } else if c.worst_measured_accuracy_micros + drift >= c.declared_accuracy_micros {
        reset_of(c)
    } else {
        LocalClockView { worst_measured_accuracy_micros: c.worst_measured_accuracy_micros + drift, ..c }
    }
}

/// The tracker with all measurements forgotten.
pub open spec fn reset_of(c: LocalClockView) -> LocalClockView {
    LocalClockView {
        declared_accuracy_micros: c.declared_accuracy_micros,
        worst_measured_accuracy_micros: 0,
        max_drift_between_checks_micros: 0,
        last_offset: 0,
    }
}

/// The accuracy that the tracker reports: the worst measured accuracy capped
/// by the declared one, or the declared one when nothing was measured.
pub open spec fn reported_accuracy_of(c: LocalClockView) -> nat {
    if c.worst_measured_accuracy_micros == 0 {
        c.declared_accuracy_micros
    } else if c.worst_measured_accuracy_micros < c.declared_accuracy_micros {
        c.worst_measured_accuracy_micros
    } else {
        c.declared_accuracy_micros
    }
}

/// The reading of the tracker at a given system time: the system time
/// corrected by the last offset, with the reported accuracy, when the
/// corrected time fits in a `u64`.
pub open spec fn reading_of(c: LocalClockView, system_epoch_micros: u64) -> Option<(u64, u64)> {
    let t = system_epoch_micros + c.last_offset;
    if 0 <= t <= u64::MAX {
        Some((t as u64, reported_accuracy_of(c) as u64))
    } else {
        None
    }
}

/// Local system time and offset with accuracy measurements.
pub struct LocalSystemTime {
    declared_accuracy_micros: u64,
    worst_measured_accuracy_micros: u64,
    max_drift_between_checks_micros: u64,
    last_offset: i64,
}

impl View for LocalSystemTime {
    type V = LocalClockView;

    closed spec fn view(&self) -> LocalClockView {
        LocalClockView {
            declared_accuracy_micros: self.declared_accuracy_micros as nat,
            worst_measured_accuracy_micros: self.worst_measured_accuracy_micros as nat,
            max_drift_between_checks_micros: self.max_drift_between_checks_micros as nat,
            last_offset: self.last_offset as int,
        }
    }
}

impl LocalSystemTime {
    /// A tracker with a declared worst case accuracy of the local system time
    /// for when no reliable NTP measurement is at hand.
    pub fn new(declared_accuracy_micros: u64) -> (r: Self)
        ensures
            r@ == (LocalClockView {
                declared_accuracy_micros: declared_accuracy_micros as nat,
                worst_measured_accuracy_micros: 0,
                max_drift_between_checks_micros: 0,
                last_offset: 0,
            }),
    {
        LocalSystemTime {
            declared_accuracy_micros,
            worst_measured_accuracy_micros: 0,
            max_drift_between_checks_micros: 0,
            last_offset: 0,
        }
    }

    /// When an NTP update is missing, the local clock is assumed to have
    /// drifted by the worst drift measured between updates.
    ///
    /// Once the measured accuracy reaches the declared accuracy, the
    /// measurements are reset and the declared accuracy is reported until
    /// the next NTP update.
    pub fn update_delta_without_ntp_time(&mut self)
        ensures
            final(self)@ == after_missed_sample(old(self)@),
    {
        let max_drift = self.max_drift_between_checks_micros;
        if max_drift != 0 {
            let previous = self.worst_measured_accuracy_micros;
            if previous as u128 + max_drift as u128 >= self.declared_accuracy_micros as u128 {
                self.worst_measured_accuracy_micros = 0;
                self.max_drift_between_checks_micros = 0;
                self.last_offset = 0;
            } else {
                self.worst_measured_accuracy_micros = previous + max_drift;
            }
        }
    }

    /// Measures the drift of the local clock against an NTP sample and keeps
    /// the worst accuracy estimate.
    pub fn update_delta_from_ntp_time(&mut self, ntp_time: &NtpSample)
        ensures
            final(self)@ == after_ntp_sample(old(self)@, *ntp_time),
    {
        let last_offset = self.last_offset;
        let offset = widened_offset(ntp_time);
        if last_offset != 0 {
            let diff = abs_diff(last_offset, offset);
            if self.max_drift_between_checks_micros < diff {
                self.max_drift_between_checks_micros = diff;
            }
            let worst = self.worst_measured_accuracy_micros;
            let last_abs = abs_diff(last_offset, 0);
            let off_abs = abs_diff(offset, 0);
            if worst == 0 {
                self.worst_measured_accuracy_micros = if last_abs >= off_abs {
                    last_abs
                } else {
                    off_abs
                };
            } else if last_abs < off_abs && worst < off_abs {
                self.worst_measured_accuracy_micros = off_abs;
            }
        }
        self.last_offset = offset;
    }

    /// The system time corrected by the last known NTP offset, with the
    /// estimated accuracy capped by the declared accuracy; `None` when the
    /// corrected time does not fit in a `u64`.
    pub fn get_epoch_time_with_accuracy_micros(&self, system_epoch_micros: u64) -> (r: Option<
        (u64, u64),
    >)
        ensures
            r == reading_of(self@, system_epoch_micros),
            r matches Some((t, a)) ==> a <= self@.declared_accuracy_micros && (
            self@.declared_accuracy_micros > 0 ==> a > 0),
    {
        let t: i128 = system_epoch_micros as i128 + self.last_offset as i128;
        if t < 0 || t > u64::MAX as i128 {
            return None;
        }
        let accuracy_micros = if self.worst_measured_accuracy_micros == 0 {
            self.declared_accuracy_micros
        } else if self.worst_measured_accuracy_micros < self.declared_accuracy_micros {
            self.worst_measured_accuracy_micros
        } else {
            self.declared_accuracy_micros
        };
        Some((t as u64, accuracy_micros))
    }
}

/// `|a - b|` of two signed integers.
fn abs_diff(a: i64, b: i64) -> (r: u64)
    ensures
        r as nat == abs(a - b),
{
    let d: i128 = a as i128 - b as i128;
    if d < 0 {
        (-d) as u64
    } else {
        d as u64
    }
}

/// The sample's offset widened away from zero by precision and round trip.
fn widened_offset(s: &NtpSample) -> (r: i64)
    ensures
        r as int == widened_offset_of(*s),
{
    let acc: i128 = crate::ntp_sample::precision_micros(s.precision) as i128
        + s.roundtrip_micros as i128;
    let w: i128 = if s.offset_micros < 0 {
        s.offset_micros as i128 - acc
    } else {
        s.offset_micros as i128 + acc
    };
    if w < i64::MIN as i128 {
        i64::MIN
    } else if w > i64::MAX as i128 {
        i64::MAX
    } else {
        w as i64
    }
}

/// Between resets, the worst measured accuracy never decreases: an NTP
/// sample never lowers it, and a missed sample either raises it by the
/// largest drift seen or, once the sum reaches the declared accuracy, resets
/// all measurements to zero.
pub proof fn lemma_worst_measured_monotone(c: LocalClockView, s: NtpSample)
    ensures
        after_ntp_sample(c, s).worst_measured_accuracy_micros >= c.worst_measured_accuracy_micros,
        after_missed_sample(c).worst_measured_accuracy_micros >= c.worst_measured_accuracy_micros
            || (c.worst_measured_accuracy_micros + c.max_drift_between_checks_micros
            >= c.declared_accuracy_micros && after_missed_sample(c) == reset_of(c)),
{
}

} // verus!
