//! Plain-value models of calendar instants and durations, and the calendar
//! arithmetic that the clock borrows from `chrono`.

use vstd::prelude::*;

verus! {

/// Nanoseconds in one second.
pub const NANOS_PER_SEC: u32 = 1_000_000_000;

/// Seconds since 1970-01-01T00:00:00Z of the earliest instant that `chrono`
/// represents (the first second of the year -262143).
pub const MIN_SECS: i64 = -8_334_601_228_800;

/// Seconds since 1970-01-01T00:00:00Z of the last second that `chrono`
/// represents (the last second of the year 262142).
pub const MAX_SECS: i64 = 8_210_266_876_799;

/// Seconds since 1970-01-01T00:00:00Z of the fallback anchor, 2000-01-01T00:00:00Z.
pub const DEFAULT_SECS: i64 = 946_684_800;

/// Whole seconds of the longest calendar duration (`i64::MAX` milliseconds).
pub const MAX_SPAN_SECS: i64 = 9_223_372_036_854_775;

/// Nanoseconds beyond `MAX_SPAN_SECS` of the longest calendar duration.
pub const MAX_SPAN_TOP_NANOS: u32 = 807_000_000;

/// An instant in UTC: whole seconds since 1970-01-01T00:00:00Z and the
/// nanoseconds into that second.
#[derive(Clone, Copy, Debug, PartialEq, Eq, PartialOrd, Ord, Hash, Structural)]
pub struct Timestamp {
    pub secs: i64,
    pub nanos: u32,
}

/// The fallback anchor of a clock that has no sample: 2000-01-01T00:00:00Z.
pub open spec fn default_instant() -> Timestamp {
    Timestamp { secs: DEFAULT_SECS, nanos: 0 }
}

/// The fallback anchor of a clock that has no sample: 2000-01-01T00:00:00Z.
pub fn default_time() -> (r: Timestamp)
    ensures
        r == default_instant(),
        r.wf(),
{
    Timestamp { secs: DEFAULT_SECS, nanos: 0 }
}

/// A non-negative calendar duration: whole seconds and nanoseconds.
#[derive(Clone, Copy, Debug, PartialEq, Eq, Structural)]
pub struct Span {
    pub secs: i64,
    pub nanos: u32,
}

/// A reading of elapsed monotonic time: whole seconds and nanoseconds.
#[derive(Clone, Copy, Debug, PartialEq, Eq, Structural)]
pub struct Monotonic {
    pub secs: u64,
    pub nanos: u32,
}

/// Whether `n` nanoseconds since 1970 fall inside the representable calendar range.
pub open spec fn representable(n: int) -> bool {
    MIN_SECS * 1_000_000_000 <= n < (MAX_SECS + 1) * 1_000_000_000
}

/// The instant `n` nanoseconds after 1970-01-01T00:00:00Z.
pub open spec fn instant_at(n: int) -> Timestamp {
    Timestamp { secs: (n / 1_000_000_000) as i64, nanos: (n % 1_000_000_000) as u32 }
}

/// The instant `n` nanoseconds after 1970, where the calendar can represent it.
pub open spec fn checked_instant_at(n: int) -> Option<Timestamp> {
    if representable(n) {
        Some(instant_at(n))
    } else {
        None
    }
}

/// The instant `secs` whole seconds after 1970, where the calendar can represent it.
pub open spec fn spec_sample_at(secs: int) -> Option<Timestamp> {
    if MIN_SECS <= secs <= MAX_SECS {
        Some(Timestamp { secs: secs as i64, nanos: 0 })
    } else {
        None
    }
}

impl Timestamp {
    /// A well-formed instant lies in the calendar range and has a proper sub-second part.
    pub open spec fn wf(self) -> bool {
        MIN_SECS <= self.secs <= MAX_SECS && self.nanos < NANOS_PER_SEC
    }

    /// Nanoseconds since 1970-01-01T00:00:00Z.
    pub open spec fn as_nanos(self) -> int {
        self.secs * 1_000_000_000 + self.nanos
    }

    /// This instant moved forward by `d`; unmoved where the result would leave
    /// the calendar range.
    pub open spec fn spec_plus(self, d: Span) -> Timestamp {
        match checked_instant_at(self.as_nanos() + d.as_nanos()) {
            Some(t) => t,
            None => self,
        }
    }

    /// This instant moved back by `d`; unmoved where the result would leave
    /// the calendar range.
    pub open spec fn spec_minus(self, d: Span) -> Timestamp {
        match checked_instant_at(self.as_nanos() - d.as_nanos()) {
            Some(t) => t,
            None => self,
        }
    }

    /// Moves the instant forward by `d`. A sum outside the calendar range
    /// counts as no movement at all.
    pub fn plus(self, d: Span) -> (r: Timestamp)
        requires
            self.wf(),
            d.wf(),
        ensures
            r == self.spec_plus(d),
            r.wf(),
            r.as_nanos() >= self.as_nanos(),
    {
        proof {
            lemma_instant_at(self.as_nanos() + d.as_nanos());
        }
        match utc_checked_add(self, d) {
            Some(t) => t,
            None => self,
        }
    }

    /// Moves the instant back by `d`. A difference outside the calendar range
    /// counts as no movement at all.
    pub fn minus(self, d: Span) -> (r: Timestamp)
        requires
            self.wf(),
            d.wf(),
        ensures
            r == self.spec_minus(d),
            r.wf(),
            r.as_nanos() <= self.as_nanos(),
    {
        proof {
            lemma_instant_at(self.as_nanos() - d.as_nanos());
        }
        match utc_checked_sub(self, d) {
            Some(t) => t,
            None => self,
        }
    }

    /// Signed nanoseconds from `earlier` to this instant.
    pub fn nanos_since(self, earlier: Timestamp) -> (r: i128)
        requires
            self.wf(),
            earlier.wf(),
        ensures
            r == self.as_nanos() - earlier.as_nanos(),
    {
        let (secs, subsec) = utc_signed_between(self, earlier);
        assert(-20_000_000_000_001 <= secs <= 20_000_000_000_001) by (nonlinear_arith)
            requires
                secs * 1_000_000_000 + subsec == self.as_nanos() - earlier.as_nanos(),
                -1_000_000_000 < subsec < 1_000_000_000,
                -20_000_000_000_000_000_000_000 <= self.as_nanos() - earlier.as_nanos()
                    <= 20_000_000_000_000_000_000_000,
        ;
        (secs as i128) * 1_000_000_000 + (subsec as i128)
    }
}

impl Span {
    /// A well-formed span is non-negative and no longer than `i64::MAX` milliseconds.
    pub open spec fn wf(self) -> bool {
        &&& 0 <= self.secs <= MAX_SPAN_SECS
        &&& self.nanos < NANOS_PER_SEC
        &&& self.secs == MAX_SPAN_SECS ==> self.nanos <= MAX_SPAN_TOP_NANOS
    }

    /// Length in nanoseconds.
    pub open spec fn as_nanos(self) -> int {
        self.secs * 1_000_000_000 + self.nanos
    }

    /// The empty span.
    pub fn zero() -> (r: Span)
        ensures
            r == (Span { secs: 0, nanos: 0 }),
            r.wf(),
    {
        Span { secs: 0, nanos: 0 }
    }
}

impl Monotonic {
    /// A well-formed reading has a proper sub-second part.
    pub open spec fn wf(self) -> bool {
        self.nanos < NANOS_PER_SEC
    }

    /// Length in nanoseconds.
    pub open spec fn as_nanos(self) -> int {
        self.secs * 1_000_000_000 + self.nanos
    }

    /// Whether the calendar's duration type can hold this reading.
    pub open spec fn fits_span(self) -> bool {
        &&& self.secs <= MAX_SPAN_SECS
        &&& self.secs == MAX_SPAN_SECS ==> self.nanos <= MAX_SPAN_TOP_NANOS
    }

    /// The reading as a calendar duration; the empty span where the calendar's
    /// duration type cannot hold it.
    pub open spec fn spec_span(self) -> Span {
        if self.fits_span() {
            Span { secs: self.secs as i64, nanos: self.nanos }
        } else {
            Span { secs: 0, nanos: 0 }
        }
    }

    /// Converts the reading to a calendar duration. A reading too long for the
    /// calendar's duration type counts as no time at all.
    pub fn span(self) -> (r: Span)
        requires
            self.wf(),
        ensures
            r == self.spec_span(),
            r.wf(),
    {
        match span_from_std(self) {
            Some(d) => d,
            None => Span::zero(),
        }
    }
}

/// Validates a count of whole seconds since 1970 as a calendar instant.
pub fn sample_at(secs: i64) -> (r: Option<Timestamp>)
    ensures
        r == spec_sample_at(secs as int),
        r is Some ==> r.unwrap().wf(),
{
    utc_from_secs(secs)
}

/// Splitting a representable count of nanoseconds into seconds and nanoseconds
/// gives a well-formed instant that stands for the same count.
pub proof fn lemma_instant_at(n: int)
    ensures
        representable(n) ==> instant_at(n).wf() && instant_at(n).as_nanos() == n,
{
    if representable(n) {
        let q = n / 1_000_000_000;
        let m = n % 1_000_000_000;
        assert(n == q * 1_000_000_000 + m && 0 <= m < 1_000_000_000) by (nonlinear_arith)
            requires
                q == n / 1_000_000_000,
                m == n % 1_000_000_000,
        ;
        assert(MIN_SECS <= q <= MAX_SECS) by (nonlinear_arith)
            requires
                n == q * 1_000_000_000 + m,
                0 <= m < 1_000_000_000,
                MIN_SECS * 1_000_000_000 <= n < (MAX_SECS + 1) * 1_000_000_000,
        ;
    }
}

/// `chrono::TimeZone::timestamp_opt` on `chrono::Utc` with zero nanoseconds,
/// followed by `single`. The contract claims that the call yields an instant
/// exactly when `secs` lies between the first and the last second of the
/// calendar range, and that the instant then reports `secs` and no
/// nanoseconds.
#[verifier::external_body]
fn utc_from_secs(secs: i64) -> (r: Option<Timestamp>)
    ensures
        r == spec_sample_at(secs as int),
{
    let at = chrono::TimeZone::timestamp_opt(&chrono::Utc, secs, 0).single()?;
    Some(Timestamp { secs: at.timestamp(), nanos: at.timestamp_subsec_nanos() })
}

/// `chrono::Duration::from_std`. The contract claims that the conversion
/// succeeds exactly when the reading is at most `i64::MAX` milliseconds long,
/// and that it keeps seconds and nanoseconds as they are.
#[verifier::external_body]
fn span_from_std(m: Monotonic) -> (r: Option<Span>)
    requires
        m.wf(),
    ensures
        r == if m.fits_span() {
            Some(Span { secs: m.secs as i64, nanos: m.nanos })
        } else {
            None
        },
{
    let span = chrono::Duration::from_std(std::time::Duration::new(m.secs, m.nanos)).ok()?;
    Some(Span { secs: span.num_seconds(), nanos: span.subsec_nanos() as u32 })
}

/// `chrono::DateTime::checked_add_signed`. The contract claims that the sum is
/// exact, and that it is refused exactly when it leaves the calendar range.
#[verifier::external_body]
fn utc_checked_add(t: Timestamp, d: Span) -> (r: Option<Timestamp>)
    requires
        t.wf(),
        d.wf(),
    ensures
        r == checked_instant_at(t.as_nanos() + d.as_nanos()),
{
    let at = chrono::DateTime::from_timestamp(t.secs, t.nanos)?;
    let by = chrono::Duration::new(d.secs, d.nanos)?;
    let sum = at.checked_add_signed(by)?;
    Some(Timestamp { secs: sum.timestamp(), nanos: sum.timestamp_subsec_nanos() })
}

/// `chrono::DateTime::checked_sub_signed`. The contract claims that the
/// difference is exact, and that it is refused exactly when it leaves the
/// calendar range.
#[verifier::external_body]
fn utc_checked_sub(t: Timestamp, d: Span) -> (r: Option<Timestamp>)
    requires
        t.wf(),
        d.wf(),
    ensures
        r == checked_instant_at(t.as_nanos() - d.as_nanos()),
{
    let at = chrono::DateTime::from_timestamp(t.secs, t.nanos)?;
    let by = chrono::Duration::new(d.secs, d.nanos)?;
    let diff = at.checked_sub_signed(by)?;
    Some(Timestamp { secs: diff.timestamp(), nanos: diff.timestamp_subsec_nanos() })
}

/// `chrono::DateTime::signed_duration_since`, read through `num_seconds` and
/// `subsec_nanos`. The contract claims that the two parts add up to the exact
/// distance between the instants, and that the sub-second part is shorter
/// than a second.
#[verifier::external_body]
fn utc_signed_between(later: Timestamp, earlier: Timestamp) -> (r: (i64, i32))
    requires
        later.wf(),
        earlier.wf(),
    ensures
        r.0 * 1_000_000_000 + r.1 == later.as_nanos() - earlier.as_nanos(),
        -1_000_000_000 < r.1 < 1_000_000_000,
{
    let to = chrono::DateTime::from_timestamp(later.secs, later.nanos).unwrap_or_default();
    let from = chrono::DateTime::from_timestamp(earlier.secs, earlier.nanos).unwrap_or_default();
    let between = to.signed_duration_since(from);
    (between.num_seconds(), between.subsec_nanos())
}

} // verus!
