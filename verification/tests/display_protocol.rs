use day_counter::display::{render, shift_out, Action, Line, CLOCK_PULSE_US};
use day_counter::segments::{segment_pattern, DIGITS, SEGMENT_PATTERNS};

fn data(high: bool) -> Action {
    if high {
        Action::SetHigh(Line::Data)
    } else {
        Action::SetLow(Line::Data)
    }
}

/// Plays a list of operations on a shift register with an output latch and
/// returns the byte on its outputs.
fn shown_after(actions: &[Action], start_shift: u8, start_shown: u8) -> u8 {
    let (mut d, mut c, mut l) = (true, true, true);
    let mut shift: u8 = start_shift;
    let mut shown: u8 = start_shown;
    for action in actions {
        match *action {
            Action::SetHigh(Line::Data) => d = true,
            Action::SetLow(Line::Data) => d = false,
            Action::SetHigh(Line::Clock) => {
                if !c {
                    shift = (shift << 1) | (d as u8);
                }
                c = true;
            }
            Action::SetLow(Line::Clock) => c = false,
            Action::SetHigh(Line::Latch) => {
                if !l {
                    shown = shift;
                }
                l = true;
            }
            Action::SetLow(Line::Latch) => l = false,
            Action::DelayUs(_) | Action::DelayMs(_) => {}
        }
    }
    shown
}

#[test]
fn pattern_table_values() {
    assert_eq!(DIGITS, 10);
    assert_eq!(
        SEGMENT_PATTERNS,
        [0x00, 0x06, 0x5b, 0x4f, 0x66, 0x6d, 0x7d, 0x07, 0x7f, 0x6f]
    );
    assert_eq!(segment_pattern(0), 0b0000_0000);
    assert_eq!(segment_pattern(1), 0b0000_0110);
    assert_eq!(segment_pattern(2), 0b0101_1011);
    assert_eq!(segment_pattern(3), 0b0100_1111);
    assert_eq!(segment_pattern(4), 0b0110_0110);
    assert_eq!(segment_pattern(5), 0b0110_1101);
    assert_eq!(segment_pattern(6), 0b0111_1101);
    assert_eq!(segment_pattern(7), 0b0000_0111);
    assert_eq!(segment_pattern(8), 0b0111_1111);
    assert_eq!(segment_pattern(9), 0b0110_1111);
}

#[test]
fn patterns_are_distinct_and_leave_the_point_dark() {
    for a in 0..10u8 {
        assert_eq!(segment_pattern(a) & 0x80, 0);
        assert_eq!(segment_pattern(a), segment_pattern(a));
        for b in 0..10u8 {
            if a != b {
                assert_ne!(segment_pattern(a), segment_pattern(b));
            }
        }
    }
}

#[test]
fn shift_out_of_one_byte() {
    let ops = shift_out(0b1010_0001);
    let mut expected = vec![Action::SetLow(Line::Clock)];
    for high in [true, false, true, false, false, false, false, true] {
        expected.push(data(high));
        expected.push(Action::SetHigh(Line::Clock));
        expected.push(Action::DelayUs(10));
        expected.push(Action::SetLow(Line::Clock));
    }
    assert_eq!(ops, expected);
    assert_eq!(CLOCK_PULSE_US, 10);
}

#[test]
fn render_brackets_the_shift_with_the_latch() {
    let ops = render(0b0101_1011);
    assert_eq!(ops.len(), 35);
    assert_eq!(ops[0], Action::SetLow(Line::Latch));
    assert_eq!(ops[34], Action::SetHigh(Line::Latch));
    assert_eq!(ops[1..34].to_vec(), shift_out(0b0101_1011));
    let latch_ops = ops
        .iter()
        .filter(|a| matches!(a, Action::SetHigh(Line::Latch) | Action::SetLow(Line::Latch)))
        .count();
    assert_eq!(latch_ops, 2);
}

#[test]
fn render_sends_msb_first_with_one_pulse_per_bit() {
    for pattern in 0..=255u8 {
        let ops = render(pattern);
        assert_eq!(ops.len(), 35);
        for i in 0..8usize {
            let bit = (pattern >> (7 - i)) & 1 == 1;
            assert_eq!(ops[4 * i + 2], data(bit));
            assert_eq!(ops[4 * i + 3], Action::SetHigh(Line::Clock));
            assert_eq!(ops[4 * i + 4], Action::DelayUs(10));
            assert_eq!(ops[4 * i + 5], Action::SetLow(Line::Clock));
        }
        let pulses = ops.iter().filter(|a| **a == Action::SetHigh(Line::Clock)).count();
        assert_eq!(pulses, 8);
    }
}

#[test]
fn render_puts_the_pattern_on_the_outputs() {
    for pattern in 0..=255u8 {
        let ops = render(pattern);
        assert_eq!(shown_after(&ops, 0x00, 0x00), pattern);
        assert_eq!(shown_after(&ops, 0xff, 0xa5), pattern);
    }
}

#[test]
fn render_of_all_zero_and_all_one() {
    let zero = render(0x00);
    let ones = render(0xff);
    for i in 0..8usize {
        assert_eq!(zero[4 * i + 2], Action::SetLow(Line::Data));
        assert_eq!(ones[4 * i + 2], Action::SetHigh(Line::Data));
    }
}
