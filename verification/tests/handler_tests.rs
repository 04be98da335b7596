use nixie_clock::handler::{
    handle_command, twelfth_of_millis, HandlerTime, NixieHandlerCommand, MAX_EPOCH_SECONDS,
};

fn format(seconds: u64, micros: u32) -> Option<[u8; 6]> {
    let cmd = NixieHandlerCommand::DispTime(HandlerTime { seconds, micros });
    handle_command(&cmd).map(|dc| {
        let s = dc.nixie_state;
        [s.digit(0), s.digit(1), s.digit(2), s.digit(3), s.digit(4), s.digit(5)]
    })
}

#[test]
fn twelfth_boundaries() {
    assert_eq!(twelfth_of_millis(0), 0);
    assert_eq!(twelfth_of_millis(999), 11);
    assert_eq!(twelfth_of_millis(500), 6);
    assert_eq!(twelfth_of_millis(83), 0);
}

#[test]
fn epoch_3661_renders_01_01_01_with_comma_zero() {
    let cmd = NixieHandlerCommand::DispTime(HandlerTime { seconds: 3661, micros: 0 });
    let dc = handle_command(&cmd).unwrap();
    assert_eq!(dc.brightness, 4095);
    let s = dc.nixie_state;
    assert_eq!(
        [s.digit(0), s.digit(1), s.digit(2), s.digit(3), s.digit(4), s.digit(5)],
        [0, 1, 0, 1, 0, 1]
    );
    for i in 0..12 {
        assert_eq!(s.comma(i), i == 0);
    }
}

#[test]
fn last_second_of_a_day_renders_23_59_59() {
    assert_eq!(format(86_399, 0), Some([2, 3, 5, 9, 5, 9]));
}

#[test]
fn sub_second_micros_pick_the_comma() {
    let cmd = NixieHandlerCommand::DispTime(HandlerTime { seconds: 0, micros: 500_000 });
    let dc = handle_command(&cmd).unwrap();
    for i in 0..12 {
        assert_eq!(dc.nixie_state.comma(i), i == 6);
    }
}

#[test]
fn largest_decodable_timestamp_still_formats() {
    // the last second chrono can place in a date: 23:59:59 of its maximum day
    assert_eq!(format(MAX_EPOCH_SECONDS, 0), Some([2, 3, 5, 9, 5, 9]));
}

#[test]
fn out_of_range_seconds_is_a_decode_failure() {
    assert_eq!(format(MAX_EPOCH_SECONDS + 1, 0), None);
    assert_eq!(format(u64::MAX, 0), None);
}

#[test]
fn out_of_range_micros_is_a_decode_failure() {
    assert_eq!(format(0, 1_000_000), None);
    assert_eq!(format(0, u32::MAX), None);
}
