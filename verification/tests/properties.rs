use chrono::{DateTime, NaiveDate, Utc};
use clock::clock::{default_servers, TOLERANCE_NANOS};
use clock::refresh::{LoopAction, LoopState, RefreshLoop};
use clock::time::{sample_at, DEFAULT_SECS, MAX_SECS, MAX_SPAN_SECS, MIN_SECS};
use clock::wire::{
    decode_reply, fetch_advance, fetch_begin, request_frame, transmit_seconds, FetchStep,
    EPOCH_OFFSET,
};
use clock::{default_time, Clock, Monotonic, Percent, Span, SyncStats, Timestamp};
use std::time::Instant;

fn at(secs: i64, nanos: u32) -> Timestamp {
    Timestamp { secs, nanos }
}

fn reading(secs: u64, nanos: u32) -> Monotonic {
    Monotonic { secs, nanos }
}

fn reply_with_field(field: u32) -> [u8; 48] {
    let mut frame = [0u8; 48];
    frame[0] = 0x1c;
    let bytes = field.to_be_bytes();
    frame[40] = bytes[0];
    frame[41] = bytes[1];
    frame[42] = bytes[2];
    frame[43] = bytes[3];
    frame[44] = 0xff;
    frame[39] = 0xff;
    frame
}

#[test]
fn calendar_range_matches_chrono() {
    assert_eq!(DateTime::<Utc>::MIN_UTC.timestamp(), MIN_SECS);
    assert_eq!(DateTime::<Utc>::MAX_UTC.timestamp(), MAX_SECS);
    assert_eq!(chrono::Duration::MAX.num_seconds(), MAX_SPAN_SECS);
    assert_eq!(chrono::Duration::MAX.subsec_nanos(), 807_000_000);
}

#[test]
fn default_time_is_start_of_2000() {
    let start = NaiveDate::from_ymd_opt(2000, 1, 1).unwrap().and_hms_opt(0, 0, 0).unwrap().and_utc();
    assert_eq!(default_time(), at(start.timestamp(), 0));
    assert_eq!(DEFAULT_SECS, 946_684_800);
}

#[test]
fn sample_at_accepts_exactly_the_calendar_range() {
    assert_eq!(sample_at(0), Some(at(0, 0)));
    assert_eq!(sample_at(1_431_648_000), Some(at(1_431_648_000, 0)));
    assert_eq!(sample_at(MIN_SECS), Some(at(MIN_SECS, 0)));
    assert_eq!(sample_at(MAX_SECS), Some(at(MAX_SECS, 0)));
    assert_eq!(sample_at(MIN_SECS - 1), None);
    assert_eq!(sample_at(MAX_SECS + 1), None);
    assert_eq!(sample_at(i64::MIN), None);
    assert_eq!(sample_at(i64::MAX), None);
}

#[test]
fn plus_adds_seconds_and_nanoseconds() {
    let t = at(1_000, 900_000_000);
    assert_eq!(t.plus(Span { secs: 5, nanos: 200_000_000 }), at(1_006, 100_000_000));
    assert_eq!(t.plus(Span { secs: 0, nanos: 0 }), t);
    assert_eq!(at(-1, 0).plus(Span { secs: 0, nanos: 1 }), at(-1, 1));
    assert_eq!(at(MAX_SECS, 999_999_998).plus(Span { secs: 0, nanos: 1 }), at(MAX_SECS, 999_999_999));
}

#[test]
fn plus_beyond_the_calendar_leaves_the_instant() {
    let t = at(MAX_SECS, 999_999_999);
    assert_eq!(t.plus(Span { secs: 0, nanos: 1 }), t);
    let u = at(0, 0);
    assert_eq!(u.plus(Span { secs: MAX_SPAN_SECS, nanos: 807_000_000 }), u);
    assert_eq!(u.plus(Span { secs: MAX_SECS, nanos: 999_999_999 }), at(MAX_SECS, 999_999_999));
    assert_eq!(u.plus(Span { secs: MAX_SECS + 1, nanos: 0 }), u);
}

#[test]
fn minus_subtracts_seconds_and_nanoseconds() {
    let t = at(1_000, 100_000_000);
    assert_eq!(t.minus(Span { secs: 5, nanos: 200_000_000 }), at(994, 900_000_000));
    assert_eq!(at(0, 0).minus(Span { secs: 0, nanos: 1 }), at(-1, 999_999_999));
    assert_eq!(at(MIN_SECS, 0).minus(Span { secs: 0, nanos: 1 }), at(MIN_SECS, 0));
    assert_eq!(at(MIN_SECS, 1).minus(Span { secs: 0, nanos: 1 }), at(MIN_SECS, 0));
}

#[test]
fn nanos_since_is_the_signed_distance() {
    assert_eq!(at(10, 5).nanos_since(at(7, 9)), 2_999_999_996);
    assert_eq!(at(7, 9).nanos_since(at(10, 5)), -2_999_999_996);
    assert_eq!(at(0, 0).nanos_since(at(0, 1)), -1);
    assert_eq!(at(-1, 999_999_999).nanos_since(at(0, 0)), -1);
    assert_eq!(at(5, 0).nanos_since(at(5, 0)), 0);
    let whole = (MAX_SECS as i128 - MIN_SECS as i128) * 1_000_000_000 + 999_999_999;
    assert_eq!(at(MAX_SECS, 999_999_999).nanos_since(at(MIN_SECS, 0)), whole);
    assert_eq!(at(MIN_SECS, 0).nanos_since(at(MAX_SECS, 999_999_999)), -whole);
}

#[test]
fn span_keeps_what_the_calendar_can_hold() {
    assert_eq!(reading(3, 250).span(), Span { secs: 3, nanos: 250 });
    assert_eq!(
        reading(MAX_SPAN_SECS as u64, 807_000_000).span(),
        Span { secs: MAX_SPAN_SECS, nanos: 807_000_000 }
    );
    assert_eq!(reading(0, 0).span(), Span::zero());
}

#[test]
fn span_too_long_counts_as_zero() {
    assert_eq!(reading(MAX_SPAN_SECS as u64, 807_000_001).span(), Span::zero());
    assert_eq!(reading(MAX_SPAN_SECS as u64 + 1, 0).span(), Span::zero());
    assert_eq!(reading(u64::MAX, 999_999_999).span(), Span::zero());
}

#[test]
fn success_rate_is_exact() {
    let third = SyncStats { total_attempts: 3, successful_syncs: 1, failed_syncs: 2 };
    assert_eq!(third.success_rate(), Percent { whole: 33, remainder: 1, divisor: 3 });
    let most = SyncStats { total_attempts: 100, successful_syncs: 95, failed_syncs: 5 };
    assert_eq!(most.success_rate(), Percent { whole: 95, remainder: 0, divisor: 100 });
    let none = SyncStats { total_attempts: 0, successful_syncs: 0, failed_syncs: 0 };
    assert_eq!(none.success_rate(), Percent { whole: 0, remainder: 0, divisor: 1 });
    let all = SyncStats { total_attempts: u64::MAX, successful_syncs: u64::MAX, failed_syncs: 0 };
    assert_eq!(all.success_rate(), Percent { whole: 100, remainder: 0, divisor: u64::MAX });
}

#[test]
fn record_keeps_the_counters_balanced() {
    let mut stats = SyncStats::default();
    stats.record(true);
    stats.record(false);
    stats.record(true);
    assert_eq!(stats.total_attempts, 3);
    assert_eq!(stats.successful_syncs, 2);
    assert_eq!(stats.failed_syncs, 1);
    assert_eq!(stats.successful_syncs + stats.failed_syncs, stats.total_attempts);
}

#[test]
fn request_frame_is_header_then_zeros() {
    let frame = request_frame();
    assert_eq!(frame.len(), 48);
    assert_eq!(frame[0], 0x1b);
    assert!(frame[1..].iter().all(|b| *b == 0));
}

#[test]
fn reply_field_round_trips_through_the_epoch_offset() {
    for n in [0i64, 1, 946_684_800, 1_431_648_000, 2_085_978_495] {
        let frame = reply_with_field((EPOCH_OFFSET + n) as u32);
        assert_eq!(transmit_seconds(&frame), n);
        assert_eq!(decode_reply(&frame), Some(at(n, 0)));
    }
    let date = DateTime::from_timestamp(decode_reply(&reply_with_field(3_640_636_800)).unwrap().secs, 0);
    assert_eq!(date.unwrap().to_rfc3339(), "2015-05-15T00:00:00+00:00");
}

#[test]
fn reply_field_before_1970_decodes_to_negative_seconds() {
    assert_eq!(decode_reply(&reply_with_field(0)), Some(at(-2_208_988_800, 0)));
    assert_eq!(decode_reply(&reply_with_field(0x0102_0304)), Some(at(16_909_060 - 2_208_988_800, 0)));
    assert_eq!(decode_reply(&reply_with_field(u32::MAX)), Some(at(2_085_978_495, 0)));
}

#[test]
fn fetch_takes_the_first_reply() {
    let reply = reply_with_field(3_640_636_800);
    assert_eq!(fetch_begin(3), FetchStep::Query(0));
    assert_eq!(fetch_advance(3, 0, None), FetchStep::Query(1));
    assert_eq!(fetch_advance(3, 1, Some(reply)), FetchStep::Done(Some(at(1_431_648_000, 0))));
    assert_eq!(fetch_advance(3, 0, Some(reply)), FetchStep::Done(Some(at(1_431_648_000, 0))));
}

#[test]
fn fetch_without_replies_gives_no_sample() {
    assert_eq!(fetch_begin(0), FetchStep::Done(None));
    assert_eq!(fetch_advance(3, 1, None), FetchStep::Query(2));
    assert_eq!(fetch_advance(3, 2, None), FetchStep::Done(None));
    assert_eq!(fetch_advance(1, 0, None), FetchStep::Done(None));
}

#[test]
fn default_servers_are_the_three_public_ones() {
    assert_eq!(
        default_servers(),
        vec![
            "time.google.com:123".to_string(),
            "time.cloudflare.com:123".to_string(),
            "pool.ntp.org:123".to_string(),
        ]
    );
    assert_eq!(Clock::new(None, None).ntp_servers, default_servers());
}

#[test]
fn construction_without_sample_is_degraded_but_counted() {
    let clock = Clock::new(Some(vec!["nowhere.invalid:123".to_string()]), None);
    assert_eq!(clock.anchor_time(), default_time());
    assert_eq!(clock.last_sample(), None);
    assert!(clock.get_current_time() >= default_time());
    let stats = clock.get_stats();
    assert_eq!((stats.total_attempts, stats.successful_syncs, stats.failed_syncs), (1, 0, 1));
}

#[test]
fn construction_with_sample_is_anchored_to_it() {
    let sample = at(1_700_000_000, 0);
    let clock = Clock::new(None, Some(sample));
    assert_eq!(clock.anchor_time(), sample);
    assert_eq!(clock.last_sample(), Some(sample));
    let stats = clock.get_stats();
    assert_eq!((stats.total_attempts, stats.successful_syncs, stats.failed_syncs), (1, 1, 0));
    assert!(clock.get_current_time() >= sample);
}

#[test]
fn time_after_extrapolates_from_the_anchor() {
    let clock = Clock::new(None, Some(at(1_700_000_000, 0)));
    assert_eq!(clock.time_after(reading(0, 0)), at(1_700_000_000, 0));
    assert_eq!(clock.time_after(reading(2, 500_000_000)), at(1_700_000_002, 500_000_000));
    let first = clock.time_after(reading(10, 0));
    let second = clock.time_after(reading(10, 100_000_000));
    assert!(second >= first);
    assert_eq!(second.nanos_since(first), 100_000_000);
}

#[test]
fn time_after_treats_unusable_elapsed_as_zero() {
    let clock = Clock::new(None, Some(at(1_700_000_000, 0)));
    assert_eq!(clock.time_after(reading(u64::MAX, 0)), at(1_700_000_000, 0));
    assert_eq!(clock.time_after(reading(MAX_SPAN_SECS as u64, 0)), at(1_700_000_000, 0));
}

#[test]
fn failed_refresh_leaves_the_anchor() {
    let mut clock = Clock::new(None, Some(at(1_700_000_000, 0)));
    let tied = clock.latest_instant;
    clock.apply_sample(None, reading(10, 0), Instant::now());
    assert_eq!(clock.anchor_time(), at(1_700_000_000, 0));
    assert_eq!(clock.last_sample(), Some(at(1_700_000_000, 0)));
    assert_eq!(clock.latest_instant, tied);
    let stats = clock.get_stats();
    assert_eq!((stats.total_attempts, stats.successful_syncs, stats.failed_syncs), (2, 1, 1));
}

#[test]
fn refresh_from_default_adopts_sample_less_elapsed() {
    let mut clock = Clock::new(None, None);
    let now = Instant::now();
    clock.apply_sample(Some(at(1_700_000_000, 0)), reading(10, 250_000_000), now);
    assert_eq!(clock.anchor_time(), at(1_699_999_989, 750_000_000));
    assert_eq!(clock.last_sample(), Some(at(1_700_000_000, 0)));
    assert_eq!(clock.latest_instant, now);
    assert_eq!(clock.time_after(reading(10, 250_000_000)), at(1_700_000_000, 0));
    let stats = clock.get_stats();
    assert_eq!((stats.total_attempts, stats.successful_syncs, stats.failed_syncs), (2, 1, 1));
}

#[test]
fn refresh_within_tolerance_keeps_the_anchor() {
    assert_eq!(TOLERANCE_NANOS, 100_000_000);
    for (secs, nanos) in [(10u64, 0u32), (9, 900_000_000), (10, 100_000_000), (9, 950_000_000)] {
        let mut clock = Clock::new(None, Some(at(1_700_000_000, 0)));
        let tied = clock.latest_instant;
        clock.apply_sample(Some(at(1_700_000_010, 0)), reading(secs, nanos), Instant::now());
        assert_eq!(clock.anchor_time(), at(1_700_000_000, 0));
        assert_eq!(clock.latest_instant, tied);
        assert_eq!(clock.last_sample(), Some(at(1_700_000_010, 0)));
        assert_eq!(clock.get_stats().successful_syncs, 2);
    }
}

#[test]
fn refresh_beyond_tolerance_snaps_to_the_sample() {
    for (secs, nanos) in [(10u64, 100_000_001u32), (9, 899_999_999), (0, 0), (10, 100_500_000), (500, 0)] {
        let mut clock = Clock::new(None, Some(at(1_700_000_000, 0)));
        let now = Instant::now();
        clock.apply_sample(Some(at(1_700_000_010, 0)), reading(secs, nanos), now);
        assert_eq!(clock.anchor_time(), at(1_700_000_010, 0));
        assert_eq!(clock.latest_instant, now);
        assert_eq!(clock.last_sample(), Some(at(1_700_000_010, 0)));
    }
}

#[test]
fn update_latest_time_counts_and_adopts() {
    let mut clock = Clock::new(None, None);
    clock.update_latest_time(None);
    assert_eq!(clock.anchor_time(), default_time());
    clock.update_latest_time(Some(at(1_700_000_000, 0)));
    assert_eq!(clock.last_sample(), Some(at(1_700_000_000, 0)));
    let gap = at(1_700_000_000, 0).nanos_since(clock.anchor_time());
    assert!(gap >= 0 && gap < 5_000_000_000);
    let stats = clock.get_stats();
    assert_eq!((stats.total_attempts, stats.successful_syncs, stats.failed_syncs), (3, 1, 2));
    assert_eq!(stats.successful_syncs + stats.failed_syncs, stats.total_attempts);
}

#[test]
fn current_time_does_not_run_backwards() {
    let clock = Clock::new(None, None);
    let mut last = clock.get_current_time();
    for _ in 0..1000 {
        let next = clock.get_current_time();
        assert!(next >= last);
        last = next;
    }
}

#[test]
fn refresh_loop_ticks_until_shutdown() {
    let mut worker = RefreshLoop::new(10);
    assert_eq!(worker.state, LoopState::Running);
    assert_eq!(worker.step(false), LoopAction::Tick { sleep_secs: 10 });
    assert_eq!(worker.step(false), LoopAction::Tick { sleep_secs: 10 });
    assert_eq!(worker.state, LoopState::Running);
    assert_eq!(worker.step(true), LoopAction::Exit);
    assert_eq!(worker.state, LoopState::ShuttingDown);
}

#[test]
fn refresh_loop_never_leaves_shutdown() {
    let mut worker = RefreshLoop::new(3);
    assert_eq!(worker.step(true), LoopAction::Exit);
    assert_eq!(worker.step(false), LoopAction::Exit);
    assert_eq!(worker.step(true), LoopAction::Exit);
    assert_eq!(worker.state, LoopState::ShuttingDown);
    assert_eq!(worker.interval_secs, 3);
}

#[test]
fn accessors_show_the_fields() {
    let servers = vec!["a.example:123".to_string(), "b.example:123".to_string()];
    let clock = Clock::new(Some(servers.clone()), None);
    assert_eq!(clock.servers(), &servers);
    assert_eq!(clock.anchor_instant(), clock.latest_instant);
}

#[test]
fn elapsed_grows_with_the_monotonic_clock() {
    let clock = Clock::new(None, None);
    let first = clock.monotonic_elapsed();
    assert!(first.nanos < 1_000_000_000);
    let start = Instant::now();
    while start.elapsed() < std::time::Duration::from_millis(20) {
        std::hint::spin_loop();
    }
    let second = clock.elapsed();
    assert!(second.nanos < 1_000_000_000);
    assert!((second.secs as u64, second.nanos) > (first.secs, first.nanos));
    assert!(second.secs < 5);
}

#[test]
fn success_rate_of_unbalanced_counters_is_still_exact() {
    let odd = SyncStats { total_attempts: 1, successful_syncs: u64::MAX, failed_syncs: 0 };
    assert_eq!(
        odd.success_rate(),
        Percent { whole: 100 * (u64::MAX as u128), remainder: 0, divisor: 1 }
    );
    let sevenths = SyncStats { total_attempts: 7, successful_syncs: 2, failed_syncs: 5 };
    assert_eq!(sevenths.success_rate(), Percent { whole: 28, remainder: 4, divisor: 7 });
}
