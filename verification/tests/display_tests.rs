use nixie_clock::display::{BusOp, Display, NixieState, BLANK_DIGIT};

fn test_digit_map() -> [[(u8, u8); 10]; 6] {
    let mut map = [[(0u8, 0u8); 10]; 6];
    for (pos, row) in map.iter_mut().enumerate() {
        for (val, cell) in row.iter_mut().enumerate() {
            *cell = (65 + pos as u8, val as u8);
        }
    }
    map
}

fn test_comma_map() -> [(u8, u8); 12] {
    let mut map = [(0u8, 0u8); 12];
    for (pos, cell) in map.iter_mut().enumerate() {
        *cell = (80, pos as u8);
    }
    map
}

fn shown(digits: [u8; 6]) -> NixieState {
    NixieState::new(digits, [false; 12])
}

#[test]
fn rendering_same_state_twice_issues_nothing() {
    let mut disp = Display::new(test_digit_map(), test_comma_map());
    let mut commas = [false; 12];
    commas[3] = true;
    let state = NixieState::new([1, 2, 3, 4, 5, 6], commas);
    let first = disp.show(state, true, 4095);
    assert!(!first.is_empty());
    let second = disp.show(state, false, 4095);
    assert!(second.is_empty());
}

#[test]
fn blank_sentinel_never_writes_its_position() {
    let mut disp = Display::new(test_digit_map(), test_comma_map());
    disp.show(shown([1, 2, 3, 4, 5, 6]), true, 4095);
    // new value blank: position skipped
    let ops = disp.show(shown([BLANK_DIGIT, 2, 3, 4, 5, 6]), false, 4095);
    assert!(ops.is_empty());
    // old value blank: position skipped again, whatever the new value
    let ops = disp.show(shown([7, 2, 3, 4, 5, 6]), false, 4095);
    assert!(ops.is_empty());
}

#[test]
fn visible_transition_writes_off_then_on() {
    let mut disp = Display::new(test_digit_map(), test_comma_map());
    disp.show(shown([1, 2, 3, 4, 5, 6]), true, 4095);
    let ops = disp.show(shown([9, 2, 3, 4, 5, 6]), false, 2000);
    assert_eq!(
        ops,
        vec![
            BusOp::Enable { addr: 65 },
            BusOp::SetChannel { addr: 65, channel: 1, on_counts: 0, off_counts: 0 },
            BusOp::Enable { addr: 65 },
            BusOp::SetChannel { addr: 65, channel: 9, on_counts: 0, off_counts: 2000 },
        ]
    );
}

#[test]
fn comma_writes_only_on_toggle() {
    let mut disp = Display::new(test_digit_map(), test_comma_map());
    let mut commas = [false; 12];
    commas[5] = true;
    let digits = [0, 0, 0, 0, 0, 0];
    disp.show(NixieState::new(digits, commas), true, 4095);
    // same comma again: [true, true] history, no further write
    let ops = disp.show(NixieState::new(digits, commas), false, 4095);
    assert!(ops.is_empty());
    // toggled off: exactly one enable and one write driving the channel to 0
    let ops = disp.show(NixieState::new(digits, [false; 12]), false, 4095);
    assert_eq!(
        ops,
        vec![
            BusOp::Enable { addr: 80 },
            BusOp::SetChannel { addr: 80, channel: 5, on_counts: 0, off_counts: 0 },
        ]
    );
}

#[test]
fn comma_marker_advance_writes_both_positions() {
    let mut disp = Display::new(test_digit_map(), test_comma_map());
    let digits = [0, 0, 0, 0, 0, 0];
    let mut commas = [false; 12];
    commas[0] = true;
    disp.show(NixieState::new(digits, commas), true, 4095);
    let mut commas = [false; 12];
    commas[1] = true;
    let ops = disp.show(NixieState::new(digits, commas), false, 1000);
    assert_eq!(
        ops,
        vec![
            BusOp::Enable { addr: 80 },
            BusOp::SetChannel { addr: 80, channel: 0, on_counts: 0, off_counts: 0 },
            BusOp::Enable { addr: 80 },
            BusOp::SetChannel { addr: 80, channel: 1, on_counts: 0, off_counts: 1000 },
        ]
    );
}

#[test]
fn init_renders_every_position() {
    let mut disp = Display::new(test_digit_map(), test_comma_map());
    let ops = disp.show(shown([0, 0, 0, 0, 0, 0]), true, 4095);
    // all six positions redrawn: four operations each, no comma changed
    assert_eq!(ops.len(), 24);
}

#[test]
fn setup_enables_and_prescales_each_chip() {
    let disp = Display::new(test_digit_map(), test_comma_map());
    let ops = disp.setup();
    let mut expected = Vec::new();
    for chip in 65u8..=69 {
        expected.push(BusOp::Enable { addr: chip });
        expected.push(BusOp::SetPrescale { addr: chip, value: 100 });
    }
    assert_eq!(ops, expected);
}

#[test]
fn wipe_darkens_every_chip() {
    let disp = Display::new(test_digit_map(), test_comma_map());
    let ops = disp.wipe();
    let mut expected = Vec::new();
    for chip in 65u8..=69 {
        expected.push(BusOp::SetAllChannels { addr: chip, on_counts: 0, off_counts: 0 });
        expected.push(BusOp::Enable { addr: chip });
    }
    assert_eq!(ops, expected);
}

#[test]
fn state_accessors_and_constructors() {
    let s = NixieState::new([1, 0, 10, 9, 5, 5], [true; 12]);
    assert_eq!(s.digit(0), 1);
    assert_eq!(s.digit(2), 10);
    assert!(s.comma(11));
    let b = NixieState::blank();
    for i in 0..6 {
        assert_eq!(b.digit(i), BLANK_DIGIT);
    }
    for i in 0..12 {
        assert!(!b.comma(i));
    }
    let d = NixieState::default();
    for i in 0..6 {
        assert_eq!(d.digit(i), 0);
    }
}

#[test]
fn from_hmsc_lays_out_two_digit_fields() {
    let s = NixieState::from_hmsc(23, 59, 7, [false; 12]);
    assert_eq!(
        [s.digit(0), s.digit(1), s.digit(2), s.digit(3), s.digit(4), s.digit(5)],
        [2, 3, 5, 9, 0, 7]
    );
}
