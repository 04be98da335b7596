use nixie_clock::channels::{BoundedChannel, CHANNEL_CAPACITY};
use nixie_clock::ntp::{micros_of_fraction, ClockState, TickPeriod, Timestamp};

#[test]
fn advance_carries_overflowing_micros() {
    let mut clock = ClockState::new();
    clock.seconds = 10;
    clock.micros = 900_000;
    clock.advance(TickPeriod { secs: 0, micros: 200_000 });
    assert_eq!(clock.seconds, 11);
    assert_eq!(clock.micros, 100_000);
}

#[test]
fn advance_keeps_micros_below_one_second() {
    let mut clock = ClockState::new();
    clock.seconds = 5;
    clock.micros = 999_999;
    clock.advance(TickPeriod { secs: 2, micros: 999_999 });
    assert_eq!(clock.seconds, 8);
    assert_eq!(clock.micros, 999_998);
    assert!(clock.micros < 1_000_000);
}

#[test]
fn advance_without_carry() {
    let mut clock = ClockState::new();
    clock.advance(TickPeriod { secs: 1, micros: 83_334 });
    assert_eq!(clock.seconds, 1);
    assert_eq!(clock.micros, 83_334);
}

#[test]
fn resync_on_first_tick_then_only_when_stale() {
    let mut clock = ClockState::new();
    assert!(clock.needs_resync());
    clock.apply_sync(1000, 0);
    assert!(!clock.needs_resync());
    clock.advance(TickPeriod { secs: 1024, micros: 0 });
    assert_eq!(clock.seconds, 2024);
    assert!(!clock.needs_resync());
    clock.advance(TickPeriod { secs: 1, micros: 0 });
    assert!(clock.needs_resync());
}

#[test]
fn apply_sync_overwrites_clock_and_watermark() {
    let mut clock = ClockState::new();
    clock.advance(TickPeriod { secs: 7, micros: 1 });
    clock.apply_sync(3_000_000, 0x8000_0000);
    assert_eq!(clock.seconds, 3_000_000);
    assert_eq!(clock.micros, 500_000);
    assert_eq!(clock.last_sync_seconds, 3_000_000);
    assert!(!clock.first_sync);
}

#[test]
fn fraction_to_micros_boundaries() {
    assert_eq!(micros_of_fraction(0), 0);
    assert_eq!(micros_of_fraction(0x8000_0000), 500_000);
    assert_eq!(micros_of_fraction(u32::MAX), 999_999);
}

#[test]
fn period_from_hz_rounds_up() {
    let p = TickPeriod::from_hz(12);
    assert_eq!(p.secs, 0);
    assert_eq!(p.micros, 83_334);
}

#[test]
fn period_from_micros_splits() {
    let p = TickPeriod::from_micros(2_500_000);
    assert_eq!(p.secs, 2);
    assert_eq!(p.micros, 500_000);
}

#[test]
fn timestamp_reports_its_parts() {
    let t = Timestamp::new(42, 7);
    assert_eq!(t.timestamp_sec(), 42);
    assert_eq!(t.timestamp_subsec_micros(), 7);
    let d = Timestamp::default();
    assert_eq!(d.timestamp_sec(), 0);
    assert_eq!(d.timestamp_subsec_micros(), 0);
}

#[test]
fn channel_delivers_in_send_order() {
    let mut ch: BoundedChannel<u32> = BoundedChannel::new();
    assert!(ch.try_send(1).is_ok());
    assert!(ch.try_send(2).is_ok());
    assert!(ch.try_send(3).is_ok());
    assert_eq!(ch.try_receive(), Some(1));
    assert_eq!(ch.try_receive(), Some(2));
    assert_eq!(ch.try_receive(), Some(3));
    assert_eq!(ch.try_receive(), None);
}

#[test]
fn channel_rejects_sixth_message() {
    let mut ch: BoundedChannel<u32> = BoundedChannel::new();
    for i in 0..CHANNEL_CAPACITY as u32 {
        assert!(ch.try_send(i).is_ok());
    }
    assert!(ch.is_full());
    assert_eq!(ch.try_send(99), Err(99));
    assert_eq!(ch.len(), CHANNEL_CAPACITY);
    assert_eq!(ch.try_receive(), Some(0));
    assert!(ch.try_send(99).is_ok());
}
