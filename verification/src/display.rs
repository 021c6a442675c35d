//! The three-wire protocol that shifts one segment mask into the display's
//! shift register, as a list of line operations for the board to carry out.

use vstd::prelude::*;

verus! {

/// An output line of the board that the display hangs on.
#[derive(Clone, Copy, Debug, PartialEq, Eq, Structural)]
pub enum Line {
    /// Serial data into the shift register.
    Data,
    /// Shift clock: a rising edge takes the data line's level as the next bit.
    Clock,
    /// Output latch: a rising edge shows the shifted byte on the segments.
    Latch,
}

/// One thing the board does: drive a line, or wait.
#[derive(Clone, Copy, Debug, PartialEq, Eq, Structural)]
pub enum Action {
    /// Drive the line high.
    SetHigh(Line),
    /// Drive the line low.
    SetLow(Line),
    /// Block for this many microseconds.
    DelayUs(u32),
    /// Block for this many milliseconds.
    DelayMs(u16),
}

/// How long the clock line is held high for each bit, in microseconds.
pub const CLOCK_PULSE_US: u32 = 10;

/// The `i`-th bit of `pattern` in transmission order: bit 7 goes out first,
/// bit 0 last.
pub open spec fn bit_at(pattern: u8, i: int) -> bool {
    (pattern >> ((7 - i) as u8)) & 1 == 1
}

/// The operation that puts one bit on the data line.
pub open spec fn data_action(high: bool) -> Action {
    if high {
        Action::SetHigh(Line::Data)
    } else {
        Action::SetLow(Line::Data)
    }
}

/// Sending bit `i`: the data line takes the bit's level, then the clock line
/// is pulsed once.
pub open spec fn bit_trace(pattern: u8, i: int) -> Seq<Action> {
    seq![
        data_action(bit_at(pattern, i)),
        Action::SetHigh(Line::Clock),
        Action::DelayUs(CLOCK_PULSE_US),
        Action::SetLow(Line::Clock),
    ]
}

/// Sending the first `n` bits, one after the other.
pub open spec fn bits_trace(pattern: u8, n: nat) -> Seq<Action>
    decreases n,
{
    if n == 0 {
        Seq::empty()
    } else {
        bits_trace(pattern, (n - 1) as nat) + bit_trace(pattern, n - 1)
    }
}

/// Shifting a whole byte: the clock line is brought low, then the eight bits
/// follow.
pub open spec fn shift_trace(pattern: u8) -> Seq<Action> {
    seq![Action::SetLow(Line::Clock)] + bits_trace(pattern, 8)
}

/// Rendering a pattern: the latch line is low while the byte is shifted and
/// goes high once it is in.
pub open spec fn render_trace(pattern: u8) -> Seq<Action> {
    seq![Action::SetLow(Line::Latch)] + shift_trace(pattern) + seq![Action::SetHigh(Line::Latch)]
}

/// Lists the operations that shift `data` into the register, most significant
/// bit first.
pub fn shift_out(data: u8) -> (ops: Vec<Action>)
    ensures
        ops@ == shift_trace(data),
{
    let mut ops: Vec<Action> = Vec::new();
    ops.push(Action::SetLow(Line::Clock));
    let mut left: u8 = 8;
    while left > 0
        invariant
            left <= 8,
            ops@ == seq![Action::SetLow(Line::Clock)] + bits_trace(data, (8 - left) as nat),
        decreases left,
    {
        left -= 1;
        let high = data & (1u8 << left) != 0;
        assert(high == bit_at(data, 7 - left)) by (bit_vector)
            requires
                left < 8,
                high == (data & (1u8 << left) != 0),
        ;
        if high {
            ops.push(Action::SetHigh(Line::Data));
        } else {
            ops.push(Action::SetLow(Line::Data));
        }
        ops.push(Action::SetHigh(Line::Clock));
        ops.push(Action::DelayUs(CLOCK_PULSE_US));
        ops.push(Action::SetLow(Line::Clock));
        assert(ops@ == seq![Action::SetLow(Line::Clock)] + bits_trace(data, (7 - left) as nat)
            + bit_trace(data, 7 - left));
    }
    ops
}

/// Lists the operations that make `pattern` visible on the display.
pub fn render(pattern: u8) -> (ops: Vec<Action>)
    ensures
        ops@ == render_trace(pattern),
{
    let mut ops: Vec<Action> = Vec::new();
    ops.push(Action::SetLow(Line::Latch));
    let mut shift = shift_out(pattern);
    ops.append(&mut shift);
    ops.push(Action::SetHigh(Line::Latch));
    ops
}

} // verus!
