use social_timer::breakdown::ElapsedTime;
use social_timer::format::{push_decimal, TimeUnit};
use social_timer::store::{finish_write, get_count_step, ReadOutcome, StoreError, StoreStep, COUNTER_KEY};
use social_timer::ticker::IntervalSlot;
use social_timer::view::TimerView;

fn total(e: &ElapsedTime) -> u64 {
    e.years * 31536000 + e.months * 2592000 + e.days * 86400 + e.hours * 3600 + e.minutes * 60 + e.seconds
}

/// A key-value store that always works, holding the one epoch key.
fn serve_get(stored: &mut Option<u64>, fallback: u64) -> Result<u64, StoreError> {
    let read = match *stored {
        Some(c) => ReadOutcome::Found(c),
        None => ReadOutcome::Missing,
    };
    match get_count_step(read, fallback) {
        StoreStep::Done(c) => Ok(c),
        StoreStep::Write(v) => {
            *stored = Some(v);
            finish_write(v, Ok(()))
        }
    }
}

fn serve_reset(stored: &mut Option<u64>, epoch: u64) -> Result<u64, StoreError> {
    *stored = Some(epoch);
    finish_write(epoch, Ok(()))
}

#[test]
fn breakdown_reconstructs_duration() {
    for d in [0u64, 1, 59, 60, 3599, 86399, 2591999, 31535999, 31536000, 100000000, 987654321, u64::MAX] {
        let e = ElapsedTime::get_elapsed_time(d);
        assert_eq!(total(&e) as u128, d as u128);
    }
}

#[test]
fn breakdown_of_one_of_each_unit() {
    let e = ElapsedTime::get_elapsed_time(31536000 + 2592000 + 86400 + 3600 + 60 + 1);
    assert_eq!(e, ElapsedTime { years: 1, months: 1, days: 1, hours: 1, minutes: 1, seconds: 1 });
    assert_eq!(
        e.fmt_output(),
        "1&nbsp;Jahr, 1&nbsp;Monat, 1&nbsp;Tag, 1&nbsp;Stunde, 1&nbsp;Minute und 1&nbsp;Sekunde."
    );
}

#[test]
fn breakdown_uses_fixed_unit_lengths() {
    // 364 days are twelve 30-day months and four days
    let e = ElapsedTime::get_elapsed_time(364 * 86400);
    assert_eq!(e, ElapsedTime { years: 0, months: 12, days: 4, hours: 0, minutes: 0, seconds: 0 });
    let e = ElapsedTime::get_elapsed_time(2 * 31536000 + 3 * 3600 + 7);
    assert_eq!(e, ElapsedTime { years: 2, months: 0, days: 0, hours: 3, minutes: 0, seconds: 7 });
}

#[test]
fn zero_breakdown_renders_all_units() {
    let e = ElapsedTime::get_elapsed_time(0);
    assert_eq!(e, ElapsedTime { years: 0, months: 0, days: 0, hours: 0, minutes: 0, seconds: 0 });
    assert_eq!(
        e.fmt_output(),
        "0&nbsp;Jahre, 0&nbsp;Monate, 0&nbsp;Tage, 0&nbsp;Stunden, 0&nbsp;Minuten und 0&nbsp;Sekunden."
    );
}

#[test]
fn singular_only_for_one() {
    assert_eq!(TimeUnit::Years.format_timeunit(1), "1&nbsp;Jahr");
    assert_eq!(TimeUnit::Years.format_timeunit(2), "2&nbsp;Jahre");
    assert_eq!(TimeUnit::Months.format_timeunit(1), "1&nbsp;Monat");
    assert_eq!(TimeUnit::Months.format_timeunit(11), "11&nbsp;Monate");
    assert_eq!(TimeUnit::Days.format_timeunit(1), "1&nbsp;Tag");
    assert_eq!(TimeUnit::Days.format_timeunit(0), "0&nbsp;Tage");
    assert_eq!(TimeUnit::Hours.format_timeunit(1), "1&nbsp;Stunde");
    assert_eq!(TimeUnit::Hours.format_timeunit(23), "23&nbsp;Stunden");
    assert_eq!(TimeUnit::Minutes.format_timeunit(1), "1&nbsp;Minute");
    assert_eq!(TimeUnit::Minutes.format_timeunit(10), "10&nbsp;Minuten");
    assert_eq!(TimeUnit::Seconds.format_timeunit(1), "1&nbsp;Sekunde");
    assert_eq!(TimeUnit::Seconds.format_timeunit(101), "101&nbsp;Sekunden");
}

#[test]
fn decimal_digits() {
    let mut s = String::from("n=");
    push_decimal(&mut s, 0);
    assert_eq!(s, "n=0");
    let mut s = String::new();
    push_decimal(&mut s, 1000);
    assert_eq!(s, "1000");
    let mut s = String::new();
    push_decimal(&mut s, u64::MAX);
    assert_eq!(s, u64::MAX.to_string());
}

#[test]
fn initialization_is_idempotent() {
    let mut stored: Option<u64> = None;
    assert_eq!(serve_get(&mut stored, 1000), Ok(1000));
    assert_eq!(stored, Some(1000));
    assert_eq!(serve_get(&mut stored, 2000), Ok(1000));
    assert_eq!(stored, Some(1000));
}

#[test]
fn failed_read_writes_fallback() {
    assert_eq!(get_count_step(ReadOutcome::Failed, 42), StoreStep::Write(42));
    assert_eq!(get_count_step(ReadOutcome::Missing, 42), StoreStep::Write(42));
    assert_eq!(get_count_step(ReadOutcome::Found(7), 42), StoreStep::Done(7));
}

#[test]
fn failed_write_is_surfaced() {
    assert_eq!(finish_write(5, Err(StoreError::Write)), Err(StoreError::Write));
    assert_eq!(finish_write(5, Err(StoreError::Open)), Err(StoreError::Open));
    assert_eq!(finish_write(5, Ok(())), Ok(5));
    assert_eq!(COUNTER_KEY, "social_timer_count");
}

#[test]
fn reset_holds_epoch_and_zeroes_elapsed() {
    let mut stored: Option<u64> = Some(100);
    let mut v = TimerView::new(500);
    assert!(v.reconcile(500, 100));
    assert_eq!(v.elapsed(), 400);
    let written = serve_reset(&mut stored, 700).map(|_| ());
    assert_eq!(v.complete_reset(700, written), Ok(700));
    assert_eq!(stored, Some(700));
    assert_eq!(v.elapsed(), 0);
    assert!(v.is_loading());
    assert_eq!(v.marker, 700);
}

#[test]
fn failed_reset_changes_nothing() {
    let mut v = TimerView::new(500);
    assert!(v.reconcile(500, 100));
    assert_eq!(v.complete_reset(700, Err(StoreError::Write)), Err(StoreError::Write));
    assert_eq!((v.now, v.marker, v.reference, v.ready), (500, 500, 100, true));
    assert_eq!(v.elapsed(), 400);
}

#[test]
fn loading_until_epoch_arrives() {
    let mut v = TimerView::new(10);
    assert!(v.is_loading());
    assert_eq!(v.display(), None);
    v.tick(11);
    assert_eq!(v.display(), None);
    assert!(v.reconcile(10, 10));
    assert_eq!(v.display(), Some(ElapsedTime::get_elapsed_time(1)));
}

#[test]
fn stale_fetch_is_dropped() {
    let mut v = TimerView::new(10);
    assert!(v.reconcile(10, 3));
    assert_eq!(v.complete_reset(20, Ok(())), Ok(20));
    assert!(!v.reconcile(10, 3));
    assert!(v.is_loading());
    assert_eq!(v.reference, 20);
    assert!(v.reconcile(20, 20));
    assert!(!v.is_loading());
}

#[test]
fn reference_ahead_of_clock_shows_zero() {
    let mut v = TimerView::new(100);
    assert!(v.reconcile(100, 150));
    assert_eq!(v.elapsed(), 0);
}

#[test]
fn clock_tick_reads_system_time() {
    let mut v = TimerView::new(0);
    assert!(v.tick_from_clock());
    assert!(v.now > 1_600_000_000);
    assert_eq!((v.marker, v.reference, v.ready), (0, 0, false));
}

#[test]
fn end_to_end_reset_flow() {
    let mut stored: Option<u64> = None;
    let mut v = TimerView::new(1000);
    let fetched = serve_get(&mut stored, v.marker).unwrap();
    assert_eq!(fetched, 1000);
    assert_eq!(stored, Some(1000));
    assert!(v.reconcile(1000, fetched));
    v.tick(1090);
    assert_eq!(
        v.display(),
        Some(ElapsedTime { years: 0, months: 0, days: 0, hours: 0, minutes: 1, seconds: 30 })
    );
    let written = serve_reset(&mut stored, 1090).map(|_| ());
    assert_eq!(v.complete_reset(1090, written), Ok(1090));
    assert_eq!(v.elapsed(), 0);
    let fetched = serve_get(&mut stored, v.marker).unwrap();
    assert_eq!(fetched, 1090);
    assert!(v.reconcile(1090, fetched));
    assert_eq!(v.display(), Some(ElapsedTime::get_elapsed_time(0)));
    assert_eq!(serve_get(&mut stored, 5000), Ok(1090));
}

#[test]
fn interval_slot_keeps_one_schedule() {
    let mut slot: IntervalSlot<u32> = IntervalSlot::new();
    assert!(!slot.is_active());
    assert_eq!(slot.replace(1), None);
    assert_eq!(slot.replace(2), Some(1));
    assert!(slot.is_active());
    assert_eq!(slot.clear(), Some(2));
    assert_eq!(slot.clear(), None);
    assert!(!slot.is_active());
}

#[test]
fn second_reset_in_same_second_stays_ready() {
    let mut stored: Option<u64> = None;
    let mut v = TimerView::new(1000);
    let fetched = serve_get(&mut stored, v.marker).unwrap();
    assert!(v.reconcile(1000, fetched));
    v.tick(1200);
    let written = serve_reset(&mut stored, 1200).map(|_| ());
    assert_eq!(v.complete_reset(1200, written), Ok(1200));
    assert!(v.is_loading());
    let fetched = serve_get(&mut stored, v.marker).unwrap();
    assert!(v.reconcile(1200, fetched));
    assert!(!v.is_loading());
    // a second reset within the same second leaves the marker where it was
    let written = serve_reset(&mut stored, 1200).map(|_| ());
    assert_eq!(v.complete_reset(1200, written), Ok(1200));
    assert!(!v.is_loading());
    assert_eq!(v.marker, 1200);
    assert_eq!(v.display(), Some(ElapsedTime::get_elapsed_time(0)));
}

#[test]
fn reset_in_load_second_stays_ready() {
    let mut v = TimerView::new(50);
    assert!(v.reconcile(50, 50));
    assert_eq!(v.complete_reset(50, Ok(())), Ok(50));
    assert!(!v.is_loading());
    assert_eq!(v.elapsed(), 0);
}
