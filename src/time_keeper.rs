//! Keeper of the current time with accuracy measurements.
//!
//! The keeper blends the local system clock with NTP samples and refuses to
//! hand out a time whose accuracy is worse than the tolerable accuracy. The
//! NTP exchanges and the reading of the system clock are done by the caller,
//! who hands their results in.

use vstd::prelude::*;
use crate::local_system_time::LocalClockView;
use crate::local_system_time::LocalSystemTime;
use crate::local_system_time::after_missed_sample;
use crate::local_system_time::after_ntp_sample;
use crate::local_system_time::reading_of;
use crate::ntp_sample::NtpSample;
use crate::ntp_sample::epoch_micros_of;
use crate::ntp_sample::sample_accuracy_of;

verus! {

/// The reading that a fresh NTP sample gives: its server time and accuracy.
pub open spec fn ntp_reading_of(s: NtpSample) -> (u64, u64) {
    (epoch_micros_of(s) as u64, sample_accuracy_of(s) as u64)
}

/// The time that the keeper hands out: a fresh NTP reading when the keeper
/// asks NTP for every request and a sample came, else the local clock's
/// reading; in both cases only when its accuracy is within tolerance.
pub open spec fn keeper_time_of(
    per_request: bool,
    tolerable_accuracy_micros: u64,
    clock: LocalClockView,
    ntp_sample: Option<NtpSample>,
    system_epoch_micros: u64,
) -> Option<(u64, u64)> {
    let candidate = if per_request && ntp_sample is Some {
        Some(ntp_reading_of(ntp_sample->0))
    } else {
        reading_of(clock, system_epoch_micros)
    };
    match candidate {
        Some((t, a)) => if a <= tolerable_accuracy_micros { Some((t, a)) } else { None },
        None => None,
    }
}

/// Guardian of the time.
pub struct TimeKeeper {
    ntp_host: Option<String>,
    tolerable_accuracy_micros: u64,
    ntp_query_for_every_request: bool,
    local_system_time: LocalSystemTime,
    within_tolerance: bool,
}

impl TimeKeeper {
    pub closed spec fn spec_ntp_host(&self) -> Option<String> {
        self.ntp_host
    }

    pub closed spec fn spec_tolerable_accuracy_micros(&self) -> u64 {
        self.tolerable_accuracy_micros
    }

    pub closed spec fn spec_per_request(&self) -> bool {
        self.ntp_query_for_every_request
    }

    pub closed spec fn spec_clock(&self) -> LocalClockView {
        self.local_system_time@
    }

    pub closed spec fn spec_within_tolerance(&self) -> bool {
        self.within_tolerance
    }

    /// A keeper that uses NTP when a host is given, asks NTP for every
    /// request only when both a host is given and `ntp_query_for_every_request`
    /// is set, and is not yet within tolerance.
    pub fn new(
        ntp_host: Option<String>,
        system_time_accuracy_micros: u64,
        tolerable_accuracy_micros: u64,
        ntp_query_for_every_request: bool,
    ) -> (r: Self)
        ensures
            r.spec_ntp_host() == ntp_host,
            r.spec_tolerable_accuracy_micros() == tolerable_accuracy_micros,
            r.spec_per_request() == (ntp_host is Some && ntp_query_for_every_request),
            r.spec_clock().max_drift_between_checks_micros == 0,
            r.spec_clock().declared_accuracy_micros == system_time_accuracy_micros,
            r.spec_clock().worst_measured_accuracy_micros == 0,
            r.spec_clock().last_offset == 0,
            !r.spec_within_tolerance(),
    {
        let per_request = ntp_host.is_some() && ntp_query_for_every_request;
        TimeKeeper {
            ntp_host,
            tolerable_accuracy_micros,
            ntp_query_for_every_request: per_request,
            local_system_time: LocalSystemTime::new(system_time_accuracy_micros),
            within_tolerance: false,
        }
    }

    /// The NTP host this keeper synchronizes with, if any.
    pub fn ntp_host(&self) -> (r: &Option<String>)
        ensures
            *r == self.spec_ntp_host(),
    {
        &self.ntp_host
    }

    /// Whether a fresh NTP sample is wanted for every request.
    pub fn queries_ntp_for_every_request(&self) -> (r: bool)
        ensures
            r == self.spec_per_request(),
    {
        self.ntp_query_for_every_request
    }

    /// Whether the last time handed out was within the tolerable accuracy.
    pub fn is_within_tolerance(&self) -> (r: bool)
        ensures
            r == self.spec_within_tolerance(),
    {
        self.within_tolerance
    }

    /// Updates the tracking of the local system time with the outcome of a
    /// periodic NTP exchange (a sample, or `None` when none came in time),
    /// then records for the readiness probe whether a time within tolerance
    /// is at hand at `system_epoch_micros`; the sample just taken serves as
    /// the fresh one when the keeper asks NTP for every request.
    pub fn update_local_time_diff_from_ntp(
        &mut self,
        ntp_time: Option<NtpSample>,
        system_epoch_micros: u64,
    )
        ensures
            final(self).spec_clock() == (match ntp_time {
                Some(s) => after_ntp_sample(old(self).spec_clock(), s),
                None => after_missed_sample(old(self).spec_clock()),
            }),
            final(self).spec_within_tolerance() == keeper_time_of(
                old(self).spec_per_request(),
                old(self).spec_tolerable_accuracy_micros(),
                final(self).spec_clock(),
                ntp_time,
                system_epoch_micros,
            ) is Some,
            final(self).spec_ntp_host() == old(self).spec_ntp_host(),
            final(self).spec_tolerable_accuracy_micros() == old(self).spec_tolerable_accuracy_micros(),
            final(self).spec_per_request() == old(self).spec_per_request(),
    {
        match ntp_time {
            Some(s) => self.local_system_time.update_delta_from_ntp_time(&s),
            None => self.local_system_time.update_delta_without_ntp_time(),
        }
        let _ = self.get_epoch_time_with_accuracy_micros(ntp_time, system_epoch_micros);
    }

    /// The current time in microseconds since the Unix epoch, with its
    /// accuracy, or `None` when no time within the tolerable accuracy is at
    /// hand. `ntp_time` is the outcome of a fresh NTP exchange made for this
    /// call (only used when the keeper asks NTP for every request), and
    /// `system_epoch_micros` the local system time. Records for the readiness
    /// probe whether a time was handed out.
    pub fn get_epoch_time_with_accuracy_micros(
        &mut self,
        ntp_time: Option<NtpSample>,
        system_epoch_micros: u64,
    ) -> (r: Option<(u64, u64)>)
        ensures
            r == keeper_time_of(
                old(self).spec_per_request(),
                old(self).spec_tolerable_accuracy_micros(),
                old(self).spec_clock(),
                ntp_time,
                system_epoch_micros,
            ),
            r matches Some((t, a)) ==> a <= old(self).spec_tolerable_accuracy_micros(),
            final(self).spec_within_tolerance() == r is Some,
            final(self).spec_clock() == old(self).spec_clock(),
            final(self).spec_ntp_host() == old(self).spec_ntp_host(),
            final(self).spec_tolerable_accuracy_micros() == old(self).spec_tolerable_accuracy_micros(),
            final(self).spec_per_request() == old(self).spec_per_request(),
    {
        let mut res: Option<(u64, u64)> = None;
        if self.ntp_query_for_every_request {
            if let Some(s) = ntp_time {
                res = Some((s.epoch_micros(), s.accuracy_micros()));
            }
        }
        if res.is_none() {
            res = self.local_system_time.get_epoch_time_with_accuracy_micros(system_epoch_micros);
        }
        let res = match res {
            Some((t, a)) => if a <= self.tolerable_accuracy_micros {
                Some((t, a))
            } else {
                None
            },
            None => None,
        };
        self.within_tolerance = res.is_some();
        res
    }
}

} // verus!
