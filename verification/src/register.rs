//! What the rendering protocol does to the shift register: the layout of the
//! operation list, and a model of the register that shows the pattern arrive.

use vstd::prelude::*;
use crate::counter::{counter_after, schedule_of, step_outcome, Config, Inputs, Outcome, State};
use crate::display::{
    bit_at, bit_trace, bits_trace, data_action, render_trace, shift_trace, Action, Line,
    CLOCK_PULSE_US,
};
use crate::segments::pattern_of;

verus! {

/// The first `n` bits take four operations each, and bit `i` among them
/// stands at offset `4 * i`.
pub proof fn lemma_bits_layout(pattern: u8, n: nat, i: int)
    requires
        0 <= i < n,
    ensures
        bits_trace(pattern, n).len() == 4 * n,
        bits_trace(pattern, n)[4 * i] == data_action(bit_at(pattern, i)),
        bits_trace(pattern, n)[4 * i + 1] == Action::SetHigh(Line::Clock),
        bits_trace(pattern, n)[4 * i + 2] == Action::DelayUs(CLOCK_PULSE_US),
        bits_trace(pattern, n)[4 * i + 3] == Action::SetLow(Line::Clock),
    decreases n,
{
    lemma_bits_len(pattern, (n - 1) as nat);
    if i < n - 1 {
        lemma_bits_layout(pattern, (n - 1) as nat, i);
    }
}

/// The first `n` bits take four operations each.
pub proof fn lemma_bits_len(pattern: u8, n: nat)
    ensures
        bits_trace(pattern, n).len() == 4 * n,
    decreases n,
{
    if n > 0 {
        lemma_bits_len(pattern, (n - 1) as nat);
    }
}

/// The frame of a rendering: thirty-five operations, of which the first
/// brings the latch line low, the second brings the clock line low, and the
/// last brings the latch line high.
pub proof fn lemma_render_frame(pattern: u8)
    ensures
        render_trace(pattern).len() == 35,
        render_trace(pattern)[0] == Action::SetLow(Line::Latch),
        render_trace(pattern)[1] == Action::SetLow(Line::Clock),
        render_trace(pattern)[34] == Action::SetHigh(Line::Latch),
{
    lemma_bits_len(pattern, 8);
}

/// Bit `i` within a rendering, for each of the eight bits from bit 7 down to
/// bit 0: the data line takes the bit's level, then the clock line is pulsed
/// exactly once. Together with the frame this accounts for every operation,
/// so the latch line is touched only first and last.
pub proof fn lemma_render_bit(pattern: u8, i: int)
    requires
        0 <= i < 8,
    ensures
        render_trace(pattern)[4 * i + 2] == data_action(bit_at(pattern, i)),
        render_trace(pattern)[4 * i + 3] == Action::SetHigh(Line::Clock),
        render_trace(pattern)[4 * i + 4] == Action::DelayUs(CLOCK_PULSE_US),
        render_trace(pattern)[4 * i + 5] == Action::SetLow(Line::Clock),
{
    lemma_bits_layout(pattern, 8, i);
}

/// A serial-in, parallel-out shift register with an output latch, and the
/// levels of the three lines that drive it.
pub struct Register {
    /// Level of the data line.
    pub data: bool,
    /// Level of the clock line.
    pub clock: bool,
    /// Level of the latch line.
    pub latch: bool,
    /// The byte in the shift stage.
    pub shifted: u8,
    /// The byte on the outputs, which the segments show.
    pub shown: u8,
}

/// The shift stage after one more bit came in at the low end.
pub open spec fn shift_in(shifted: u8, bit: bool) -> u8 {
    (shifted << 1) | (if bit {
        1u8
    } else {
        0u8
    })
}

/// The register after one operation. A rising edge of the clock line shifts
/// the data line's level in; a rising edge of the latch line copies the shift
/// stage to the outputs; nothing else changes the register's contents.
pub open spec fn drive(r: Register, action: Action) -> Register {
    match action {
        Action::SetHigh(Line::Data) => Register { data: true, ..r },
        Action::SetLow(Line::Data) => Register { data: false, ..r },
        Action::SetHigh(Line::Clock) => Register {
            clock: true,
            shifted: if r.clock {
                r.shifted
            } else {
                shift_in(r.shifted, r.data)
            },
            ..r
        },
        Action::SetLow(Line::Clock) => Register { clock: false, ..r },
        Action::SetHigh(Line::Latch) => Register {
            latch: true,
            shown: if r.latch {
                r.shown
            } else {
                r.shifted
            },
            ..r
        },
        Action::SetLow(Line::Latch) => Register { latch: false, ..r },
        Action::DelayUs(_) => r,
        Action::DelayMs(_) => r,
    }
}

/// The register after a list of operations, carried out in order.
pub open spec fn drive_all(r: Register, actions: Seq<Action>) -> Register
    decreases actions.len(),
{
    if actions.len() == 0 {
        r
    } else {
        drive(drive_all(r, actions.drop_last()), actions.last())
    }
}

/// Carrying out two lists one after the other is carrying out their
/// concatenation.
pub proof fn lemma_drive_all_concat(r: Register, first: Seq<Action>, second: Seq<Action>)
    ensures
        drive_all(r, first + second) == drive_all(drive_all(r, first), second),
    decreases second.len(),
{
    if second.len() == 0 {
        assert(first + second =~= first);
    } else {
        lemma_drive_all_concat(r, first, second.drop_last());
        assert((first + second).drop_last() =~= first + second.drop_last());
    }
}

/// Sending one bit with the clock line low shifts that bit in, leaves the
/// clock line low, and touches neither the latch line nor the outputs.
pub proof fn lemma_drive_bit(r: Register, pattern: u8, i: int)
    requires
        !r.clock,
    ensures
        drive_all(r, bit_trace(pattern, i)) == (Register {
            data: bit_at(pattern, i),
            shifted: shift_in(r.shifted, bit_at(pattern, i)),
            ..r
        }),
{
    let t = bit_trace(pattern, i);
    let t3 = t.drop_last();
    let t2 = t3.drop_last();
    let t1 = t2.drop_last();
    assert(t1.drop_last().len() == 0);
    assert(drive_all(r, t1) == drive(r, t[0])) by {
        assert(drive_all(r, t1.drop_last()) == r);
    }
    assert(drive_all(r, t2) == drive(drive_all(r, t1), t[1]));
    assert(drive_all(r, t3) == drive(drive_all(r, t2), t[2]));
    assert(drive_all(r, t) == drive(drive_all(r, t3), t[3]));
}

/// The shift stage `shifted` has taken in the first `n` bits of `pattern`:
/// its `n` low bits are the top `n` bits of `pattern`.
pub open spec fn holds_top_bits(shifted: u8, pattern: u8, n: u8) -> bool {
    if n == 0 {
        true
    } else if n >= 8 {
        shifted == pattern
    } else {
        shifted & !(0xffu8 << n) == pattern >> ((8 - n) as u8)
    }
}

/// One more bit: shifting bit `k` of the transmission into a stage that holds
/// the first `k` bits gives a stage that holds the first `k + 1`.
proof fn lemma_shift_step(shifted: u8, pattern: u8, k: u8)
    by (bit_vector)
    requires
        k < 8,
        holds_top_bits(shifted, pattern, k),
    ensures
        holds_top_bits(
            (shifted << 1) | ((pattern >> ((7 - k) as u8)) & 1),
            pattern,
            (k + 1) as u8,
        ),
{
}

/// After the first `n` bits went out with the clock line low at the start,
/// the shift stage holds them; the clock line is low again, and neither the
/// latch line nor the outputs have changed.
pub proof fn lemma_drive_bits(r: Register, pattern: u8, n: nat)
    requires
        !r.clock,
        n <= 8,
    ensures
        !drive_all(r, bits_trace(pattern, n)).clock,
        drive_all(r, bits_trace(pattern, n)).latch == r.latch,
        drive_all(r, bits_trace(pattern, n)).shown == r.shown,
        holds_top_bits(drive_all(r, bits_trace(pattern, n)).shifted, pattern, n as u8),
    decreases n,
{
    if n > 0 {
        let m = (n - 1) as nat;
        lemma_drive_bits(r, pattern, m);
        let before = drive_all(r, bits_trace(pattern, m));
        lemma_drive_all_concat(r, bits_trace(pattern, m), bit_trace(pattern, m as int));
        lemma_drive_bit(before, pattern, m as int);
        let k = m as u8;
        let bit: u8 = (pattern >> ((7 - k) as u8)) & 1;
        assert(bit == 0 || bit == 1) by (bit_vector)
            requires
                bit == (pattern >> ((7 - k) as u8)) & 1,
        ;
        assert(shift_in(before.shifted, bit_at(pattern, m as int)) == (before.shifted << 1) | bit);
        lemma_shift_step(before.shifted, pattern, k);
    }
}

/// Rendering a pattern puts exactly that pattern on the register's outputs,
/// whatever the register held and whatever the lines' levels were before.
pub proof fn lemma_render_shows_pattern(r: Register, pattern: u8)
    ensures
        drive_all(r, render_trace(pattern)).shown == pattern,
        drive_all(r, render_trace(pattern)).shifted == pattern,
        drive_all(r, render_trace(pattern)).latch,
        !drive_all(r, render_trace(pattern)).clock,
{
    let latch_low = seq![Action::SetLow(Line::Latch)];
    let clock_low = seq![Action::SetLow(Line::Clock)];
    let latch_high = seq![Action::SetHigh(Line::Latch)];
    let r1 = drive_all(r, latch_low);
    assert(r1 == drive(r, Action::SetLow(Line::Latch))) by {
        assert(latch_low.drop_last().len() == 0);
        assert(drive_all(r, latch_low.drop_last()) == r);
    }
    let r2 = drive_all(r1, clock_low);
    assert(r2 == drive(r1, Action::SetLow(Line::Clock))) by {
        assert(clock_low.drop_last().len() == 0);
        assert(drive_all(r1, clock_low.drop_last()) == r1);
    }
    let r3 = drive_all(r2, bits_trace(pattern, 8));
    lemma_drive_bits(r2, pattern, 8);
    assert(r3.shifted == pattern);
    let r4 = drive_all(r3, latch_high);
    assert(r4 == drive(r3, Action::SetHigh(Line::Latch))) by {
        assert(latch_high.drop_last().len() == 0);
        assert(drive_all(r3, latch_high.drop_last()) == r3);
    }
    lemma_drive_all_concat(r2, clock_low, bits_trace(pattern, 8));
    lemma_drive_all_concat(r1, clock_low, bits_trace(pattern, 8));
    lemma_drive_all_concat(r, latch_low, shift_trace(pattern));
    lemma_drive_all_concat(r, latch_low + shift_trace(pattern), latch_high);
}

/// A list of one operation does what that operation does.
pub proof fn lemma_drive_one(r: Register, action: Action)
    ensures
        drive_all(r, seq![action]) == drive(r, action),
{
    let one = seq![action];
    assert(one.drop_last().len() == 0);
    assert(drive_all(r, one.drop_last()) == r);
}

/// What the board does after a pass leaves the pattern to redraw on the
/// register's outputs, and leaves the outputs alone if there is none.
pub proof fn lemma_schedule_shows(r: Register, outcome: Outcome, config: Config)
    ensures
        drive_all(r, schedule_of(outcome, config)).shown == (match outcome.redraw {
            Some(pattern) => pattern,
            None => r.shown,
        }),
{
    let reset_pause: Seq<Action> = if outcome.reset_fired {
        seq![Action::DelayMs(config.debounce_ms)]
    } else {
        Seq::empty()
    };
    let increment_pause: Seq<Action> = if outcome.increment_fired {
        seq![Action::DelayMs(config.debounce_ms)]
    } else {
        Seq::empty()
    };
    let rendering: Seq<Action> = match outcome.redraw {
        Some(pattern) => render_trace(pattern),
        None => Seq::empty(),
    };
    let loop_pause = seq![Action::DelayMs(config.loop_period_ms)];
    lemma_drive_one(r, Action::DelayMs(config.debounce_ms));
    lemma_drive_all_concat(r, reset_pause, increment_pause);
    assert(drive_all(r, reset_pause + increment_pause) == r);
    lemma_drive_all_concat(r, reset_pause + increment_pause, rendering);
    if let Some(pattern) = outcome.redraw {
        lemma_render_shows_pattern(r, pattern);
    }
    let rendered = drive_all(r, rendering);
    lemma_drive_one(rendered, Action::DelayMs(config.loop_period_ms));
    lemma_drive_all_concat(r, reset_pause + increment_pause + rendering, loop_pause);
}

/// If the register shows the digit that the state takes to be displayed, or
/// nothing was rendered yet, then after a pass and what the board does for it
/// the register shows the pattern of the counter.
pub proof fn lemma_pass_shows_counter(r: Register, state: State, config: Config, inputs: Inputs)
    requires
        state.wf(),
        state.last_displayed matches Some(d) ==> r.shown == pattern_of(d as int),
    ensures
        drive_all(r, schedule_of(step_outcome(state, config, inputs), config)).shown
            == pattern_of(counter_after(state, config, inputs)),
{
    lemma_schedule_shows(r, step_outcome(state, config, inputs), config);
}

} // verus!
