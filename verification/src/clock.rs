//! The synchronized clock: an anchor in calendar time tied to a monotonic
//! instant, corrected by time samples and read by extrapolation.

use vstd::prelude::*;
use std::time::Instant;
use crate::stats::SyncStats;
use crate::time::{default_instant, default_time, Monotonic, Span, Timestamp};

verus! {

/// `std::time::Instant`, carried through as an opaque value.
#[verifier::external_type_specification]
#[verifier::external_body]
pub struct ExInstant(std::time::Instant);

/// The drift, in nanoseconds, beyond which a sample replaces the anchor.
pub const TOLERANCE_NANOS: i128 = 100_000_000;

/// A clock that keeps the time of its last trusted sample and advances it
/// along the local monotonic clock.
pub struct Clock {
    latest_time_ntp: Option<Timestamp>,
    latest_time: Timestamp,
    pub latest_instant: Instant,
    pub ntp_servers: Vec<String>,
    stats: SyncStats,
}

/// Whether `servers` is the list of the three well-known public servers.
pub open spec fn is_default_servers(servers: Seq<String>) -> bool {
    &&& servers.len() == 3
    &&& servers[0]@ == "time.google.com:123"@
    &&& servers[1]@ == "time.cloudflare.com:123"@
    &&& servers[2]@ == "pool.ntp.org:123"@
}

/// Whether a sample lies more than the tolerance away from the time that the
/// clock expected.
pub open spec fn spec_drifted(sample: Timestamp, expected: Timestamp) -> bool {
    sample.as_nanos() - expected.as_nanos() > TOLERANCE_NANOS || sample.as_nanos()
        - expected.as_nanos() < -TOLERANCE_NANOS
}

/// Whether a sample moves the anchor: always while the clock stands on the
/// fallback anchor, and otherwise where the sample has drifted from the
/// clock's own reading.
pub open spec fn spec_reanchors(anchor: Timestamp, sample: Timestamp, elapsed: Span) -> bool {
    anchor == default_instant() || spec_drifted(sample, anchor.spec_plus(elapsed))
}

/// The anchor after a sample. From the fallback anchor the clock adopts the
/// sample less the time elapsed since the anchor was set. Otherwise a drifted
/// sample replaces the anchor as it is, and any other leaves the anchor alone.
pub open spec fn spec_anchor_after(anchor: Timestamp, sample: Timestamp, elapsed: Span) -> Timestamp {
    if anchor == default_instant() {
        sample.spec_minus(elapsed)
    } else if spec_drifted(sample, anchor.spec_plus(elapsed)) {
        sample
    } else {
        anchor
    }
}

/// The list of the three well-known public servers, in the order of trial.
pub fn default_servers() -> (r: Vec<String>)
    ensures
        is_default_servers(r@),
{
    let mut servers: Vec<String> = Vec::new();
    servers.push("time.google.com:123".to_string());
    servers.push("time.cloudflare.com:123".to_string());
    servers.push("pool.ntp.org:123".to_string());
    servers
}

impl Clock {
    /// The calendar time of the anchor.
    pub closed spec fn spec_anchor(self) -> Timestamp {
        self.latest_time
    }

    /// The latest sample, if any attempt ever succeeded.
    pub closed spec fn spec_last_sample(self) -> Option<Timestamp> {
        self.latest_time_ntp
    }

    /// The counters of synchronization attempts.
    pub closed spec fn spec_stats(self) -> SyncStats {
        self.stats
    }

    /// The monotonic instant at which the anchor was set.
    pub closed spec fn spec_instant(self) -> Instant {
        self.latest_instant
    }

    /// The candidate servers, in the order of trial.
    pub closed spec fn spec_servers(self) -> Vec<String> {
        self.ntp_servers
    }

    /// A well-formed clock holds instants of the calendar range, and each of
    /// its attempts either succeeded or failed.
    pub open spec fn wf(self) -> bool {
        &&& self.spec_anchor().wf()
        &&& self.spec_last_sample() is Some ==> self.spec_last_sample().unwrap().wf()
        &&& self.spec_stats().wf()
    }

    /// The time that the clock shows once `elapsed` has passed on the monotonic
    /// clock since the anchor was set.
    pub open spec fn spec_time_after(self, elapsed: Monotonic) -> Timestamp {
        self.spec_anchor().spec_plus(elapsed.spec_span())
    }

    /// Whether `post` is `pre` after one synchronization attempt that gave
    /// `sample`, made when `elapsed` had passed since the anchor of `pre` was
    /// set and committed at the instant `now`.
    pub open spec fn spec_applied(
        pre: Clock,
        post: Clock,
        sample: Option<Timestamp>,
        elapsed: Monotonic,
        now: Instant,
    ) -> bool {
        &&& post.spec_stats() == pre.spec_stats().spec_record(sample is Some)
        &&& post.spec_servers() == pre.spec_servers()
        &&& match sample {
            None => {
                &&& post.spec_anchor() == pre.spec_anchor()
                &&& post.spec_last_sample() == pre.spec_last_sample()
                &&& post.spec_instant() == pre.spec_instant()
            },
            Some(s) => {
                &&& post.spec_last_sample() == Some(s)
                &&& post.spec_anchor() == spec_anchor_after(
                    pre.spec_anchor(),
                    s,
                    elapsed.spec_span(),
                )
                &&& post.spec_instant() == if spec_reanchors(
                    pre.spec_anchor(),
                    s,
                    elapsed.spec_span(),
                ) {
                    now
                } else {
                    pre.spec_instant()
                }
            },
        }
    }

    /// Builds a clock from the outcome of the first synchronization attempt.
    /// With a sample the clock is anchored to it; without one it stands on the
    /// fallback anchor. Either way the attempt is counted. `ntp_servers` is the
    /// list of candidates, or `None` for the well-known public servers.
    pub fn new(ntp_servers: Option<Vec<String>>, first: Option<Timestamp>) -> (r: Clock)
        requires
            first is Some ==> first.unwrap().wf(),
        ensures
            r.wf(),
            r.spec_last_sample() == first,
            r.spec_anchor() == (match first {
                Some(t) => t,
                None => default_instant(),
            }),
            r.spec_stats() == (SyncStats {
                total_attempts: 1,
                successful_syncs: if first is Some { 1u64 } else { 0u64 },
                failed_syncs: if first is Some { 0u64 } else { 1u64 },
            }),
            ntp_servers is Some ==> r.spec_servers() == ntp_servers.unwrap(),
            ntp_servers is None ==> is_default_servers(r.spec_servers()@),
    {
        let servers: Vec<String> = match ntp_servers {
            Some(list) => list,
            None => default_servers(),
        };
        let mut stats: SyncStats = SyncStats::default();
        stats.record(first.is_some());
        let anchor: Timestamp = match first {
            Some(t) => t,
            None => default_time(),
        };
        Clock {
            latest_time_ntp: first,
            latest_time: anchor,
            latest_instant: instant_now(),
            ntp_servers: servers,
            stats,
        }
    }

    /// The calendar time of the anchor.
    pub fn anchor_time(&self) -> (r: Timestamp)
        ensures
            r == self.spec_anchor(),
    {
        self.latest_time
    }

    /// The latest sample, if any attempt ever succeeded.
    pub fn last_sample(&self) -> (r: Option<Timestamp>)
        ensures
            r == self.spec_last_sample(),
    {
        self.latest_time_ntp
    }

    /// The candidate servers, in the order of trial.
    pub fn servers(&self) -> (r: &Vec<String>)
        ensures
            *r == self.spec_servers(),
    {
        &self.ntp_servers
    }

    /// The monotonic instant at which the anchor was set.
    pub fn anchor_instant(&self) -> (r: Instant)
        ensures
            r == self.spec_instant(),
    {
        self.latest_instant
    }

    /// The counters of synchronization attempts. On a well-formed clock the
    /// successes and the failures add up to the attempts.
    pub fn get_stats(&self) -> (r: &SyncStats)
        ensures
            *r == self.spec_stats(),
            self.wf() ==> r.successful_syncs + r.failed_syncs == r.total_attempts,
    {
        &self.stats
    }

    /// The monotonic time that has passed since the anchor was set.
    pub fn monotonic_elapsed(&self) -> (r: Monotonic)
        ensures
            r.wf(),
    {
        instant_elapsed(&self.latest_instant)
    }

    /// The monotonic time that has passed since the anchor was set, as a
    /// calendar duration; empty where that duration cannot hold it.
    pub fn elapsed(&self) -> (r: Span)
        ensures
            r.wf(),
            exists|m: Monotonic| m.wf() && r == m.spec_span(),
    {
        let m: Monotonic = self.monotonic_elapsed();
        m.span()
    }

    /// The time that the clock shows once `elapsed` has passed on the monotonic
    /// clock since the anchor was set: the anchor moved forward by `elapsed`.
    /// An `elapsed` that the calendar cannot hold, or cannot add to the anchor,
    /// counts as no time at all.
    pub fn time_after(&self, elapsed: Monotonic) -> (r: Timestamp)
        requires
            self.wf(),
            elapsed.wf(),
        ensures
            r == self.spec_time_after(elapsed),
            r.wf(),
            r.as_nanos() >= self.spec_anchor().as_nanos(),
    {
        self.latest_time.plus(elapsed.span())
    }

    /// The time now: the anchor moved forward by the monotonic time that has
    /// passed since it was set. Never earlier than the anchor.
    pub fn get_current_time(&self) -> (r: Timestamp)
        requires
            self.wf(),
        ensures
            exists|m: Monotonic| m.wf() && r == self.spec_time_after(m),
            r.wf(),
            r.as_nanos() >= self.spec_anchor().as_nanos(),
    {
        let m: Monotonic = self.monotonic_elapsed();
        self.time_after(m)
    }

    /// Folds the outcome of one synchronization attempt into the clock.
    /// `elapsed` is the monotonic time since the anchor was set and `now` the
    /// instant of the commit. The attempt is counted. Without a sample the
    /// anchor stays. With one, the sample is kept as the latest; from the
    /// fallback anchor the clock adopts the sample less `elapsed`; otherwise
    /// the sample replaces the anchor only where it lies more than 100
    /// milliseconds from the time the clock shows. A moved anchor is tied to
    /// `now`.
    pub fn apply_sample(&mut self, sample: Option<Timestamp>, elapsed: Monotonic, now: Instant)
        requires
            old(self).wf(),
            old(self).spec_stats().total_attempts < u64::MAX,
            elapsed.wf(),
            sample is Some ==> sample.unwrap().wf(),
        ensures
            final(self).wf(),
            Clock::spec_applied(*old(self), *final(self), sample, elapsed, now),
    {
        self.stats.record(sample.is_some());
        match sample {
            None => {},
            Some(s) => {
                self.latest_time_ntp = Some(s);
                let span: Span = elapsed.span();
                if self.latest_time == default_time() {
                    self.latest_time = s.minus(span);
                    self.latest_instant = now;
                } else {
                    let expected: Timestamp = self.latest_time.plus(span);
                    let drift: i128 = s.nanos_since(expected);
                    if drift > TOLERANCE_NANOS || drift < -TOLERANCE_NANOS {
                        self.latest_time = s;
                        self.latest_instant = now;
                    }
                }
            },
        }
    }

    /// Folds the outcome of one synchronization attempt into the clock, at
    /// the present reading of the monotonic clock. The attempt is counted;
    /// without a sample nothing else changes.
    pub fn update_latest_time(&mut self, sample: Option<Timestamp>)
        requires
            old(self).wf(),
            old(self).spec_stats().total_attempts < u64::MAX,
            sample is Some ==> sample.unwrap().wf(),
        ensures
            final(self).wf(),
            exists|m: Monotonic, now: Instant|
                m.wf() && Clock::spec_applied(*old(self), *final(self), sample, m, now),
            final(self).spec_stats() == old(self).spec_stats().spec_record(sample is Some),
            final(self).spec_last_sample() == (if sample is Some {
                sample
            } else {
                old(self).spec_last_sample()
            }),
            sample is None ==> final(self).spec_anchor() == old(self).spec_anchor()
                && final(self).spec_instant() == old(self).spec_instant(),
    {
        let m: Monotonic = self.monotonic_elapsed();
        let now: Instant = instant_now();
        self.apply_sample(sample, m, now);
    }
}

/// With no refresh in between, the clock never runs backwards: a later reading
/// of the monotonic clock shows a time later by exactly the monotonic time
/// between the two readings. This holds while the calendar can hold the later
/// reading and the time it leads to.
pub proof fn lemma_time_monotonic(clock: Clock, earlier: Monotonic, later: Monotonic)
    requires
        clock.wf(),
        earlier.wf(),
        later.wf(),
        earlier.as_nanos() <= later.as_nanos(),
        later.fits_span(),
        crate::time::representable(clock.spec_anchor().as_nanos() + later.as_nanos()),
    ensures
        clock.spec_time_after(later).as_nanos() - clock.spec_time_after(earlier).as_nanos()
            == later.as_nanos() - earlier.as_nanos(),
        clock.spec_time_after(earlier).as_nanos() <= clock.spec_time_after(later).as_nanos(),
{
    crate::time::lemma_instant_at(clock.spec_anchor().as_nanos() + later.as_nanos());
    crate::time::lemma_instant_at(clock.spec_anchor().as_nanos() + earlier.as_nanos());
}

/// The clock never shows a time before its anchor, whatever the monotonic
/// clock reads; on the fallback anchor, never a time before 2000-01-01.
pub proof fn lemma_never_before_anchor(clock: Clock, elapsed: Monotonic)
    requires
        clock.wf(),
        elapsed.wf(),
    ensures
        clock.spec_time_after(elapsed).as_nanos() >= clock.spec_anchor().as_nanos(),
        clock.spec_time_after(elapsed).wf(),
{
    crate::time::lemma_instant_at(
        clock.spec_anchor().as_nanos() + elapsed.spec_span().as_nanos(),
    );
}

/// A sample adopted from the fallback anchor, `elapsed` after that anchor was
/// set, makes the clock show the sample less `elapsed` plus the monotonic time
/// `after` since the adoption: the next reading differs from the sample by
/// exactly `after - elapsed`. This holds while the calendar can hold both
/// durations and the times they lead to.
pub proof fn lemma_adoption_offset(sample: Timestamp, elapsed: Monotonic, after: Monotonic)
    requires
        sample.wf(),
        elapsed.wf(),
        after.wf(),
        elapsed.fits_span(),
        after.fits_span(),
        crate::time::representable(sample.as_nanos() - elapsed.as_nanos()),
        crate::time::representable(sample.as_nanos() - elapsed.as_nanos() + after.as_nanos()),
    ensures
        spec_reanchors(default_instant(), sample, elapsed.spec_span()),
        spec_anchor_after(default_instant(), sample, elapsed.spec_span()).spec_plus(
            after.spec_span(),
        ).as_nanos() - sample.as_nanos() == after.as_nanos() - elapsed.as_nanos(),
{
    crate::time::lemma_instant_at(sample.as_nanos() - elapsed.as_nanos());
    crate::time::lemma_instant_at(sample.as_nanos() - elapsed.as_nanos() + after.as_nanos());
}

/// Away from the fallback anchor, a sample within 100 milliseconds of the
/// time that the clock shows leaves the anchor as it is, and a sample further
/// off becomes the anchor exactly.
pub proof fn lemma_drift_policy(anchor: Timestamp, sample: Timestamp, elapsed: Span)
    requires
        anchor != default_instant(),
    ensures
        -TOLERANCE_NANOS <= sample.as_nanos() - anchor.spec_plus(elapsed).as_nanos()
            <= TOLERANCE_NANOS ==> spec_anchor_after(anchor, sample, elapsed) == anchor
            && !spec_reanchors(anchor, sample, elapsed),
        !(-TOLERANCE_NANOS <= sample.as_nanos() - anchor.spec_plus(elapsed).as_nanos()
            <= TOLERANCE_NANOS) ==> spec_anchor_after(anchor, sample, elapsed) == sample
            && spec_reanchors(anchor, sample, elapsed),
{
}

/// `std::time::Instant::now`. Nothing is claimed of the instant.
#[verifier::external_body]
fn instant_now() -> (r: Instant) {
    Instant::now()
}

/// `std::time::Instant::elapsed`, read through `as_secs` and `subsec_nanos`.
/// The contract claims only that the sub-second part is less than a second.
#[verifier::external_body]
fn instant_elapsed(since: &Instant) -> (r: Monotonic)
    ensures
        r.wf(),
{
    let passed = since.elapsed();
    Monotonic { secs: passed.as_secs(), nanos: passed.subsec_nanos() }
}

} // verus!
