//! The day counter: what one pass of the polling loop does to it, given the
//! clock reading and the two button levels.

use vstd::prelude::*;
use crate::display::{render, render_trace, Action};
use crate::segments::{pattern_of, segment_pattern, DIGITS};

verus! {

/// The value the counter has at power-up.
pub const INITIAL_COUNT: u8 = 1;

/// A calendar date as the clock reports it. Two dates are the same day exactly
/// when their three fields agree.
#[derive(Clone, Copy, Debug, PartialEq, Eq, Structural)]
pub struct CalendarDate {
    pub year: i32,
    pub month: u8,
    pub day: u8,
}

/// The fixed settings of the board.
#[derive(Clone, Copy, Debug, PartialEq, Eq, Structural)]
pub struct Config {
    /// Hour of the day (0 to 23) in which the counter advances by itself.
    pub reset_hour: u8,
    /// Hold-off after a button press was acted on, in milliseconds.
    pub debounce_ms: u16,
    /// Pause at the end of every pass, in milliseconds.
    pub loop_period_ms: u16,
}

impl Default for Config {
    fn default() -> (config: Config)
        ensures
            config == (Config { reset_hour: 5, debounce_ms: 100, loop_period_ms: 150 }),
    {
        Config { reset_hour: 5, debounce_ms: 100, loop_period_ms: 150 }
    }
}

/// What one pass reads from the outside world.
#[derive(Clone, Copy, Debug, PartialEq, Eq, Structural)]
pub struct Inputs {
    /// Current hour of the day, 0 to 23.
    pub hour: u8,
    /// Current date.
    pub date: CalendarDate,
    /// Level of the reset button's line; low means pressed.
    pub reset_low: bool,
    /// Level of the increment button's line; low means pressed.
    pub increment_low: bool,
}

/// Everything the loop remembers from one pass to the next.
#[derive(Clone, Copy, Debug, PartialEq, Eq)]
pub struct State {
    /// Days counted so far, always below ten.
    pub counter: u8,
    /// The date on which the counter last advanced by itself, if it ever did.
    pub last_rollover: Option<CalendarDate>,
    /// Whether the reset button was pressed in the previous pass.
    pub reset_was_pressed: bool,
    /// Whether the increment button was pressed in the previous pass.
    pub increment_was_pressed: bool,
    /// The digit on the display, or `None` while nothing has been rendered.
    pub last_displayed: Option<u8>,
}

/// What one pass decided.
#[derive(Clone, Copy, Debug, PartialEq, Eq)]
pub struct Outcome {
    /// The counter advanced because the reset hour was seen on a new date.
    pub rolled_over: bool,
    /// The reset button went from released to pressed.
    pub reset_fired: bool,
    /// The increment button went from released to pressed.
    pub increment_fired: bool,
    /// The segment mask to render, if the display has to change.
    pub redraw: Option<u8>,
}

/// The counter's successor: it wraps from nine to zero.
pub open spec fn next_count(c: int) -> int {
    (c + 1) % 10
}

/// `next_count` applied `n` times.
pub open spec fn next_count_n(c: int, n: nat) -> int
    decreases n,
{
    if n == 0 {
        c
    } else {
        next_count(next_count_n(c, (n - 1) as nat))
    }
}

/// Advances a counter value by one day.
pub fn increment(c: u8) -> (next: u8)
    requires
        c < DIGITS,
    ensures
        next == next_count(c as int),
        next < DIGITS,
{
    (c + 1) % 10
}

/// `n` increments move a counter value `n` places round the ring of ten.
pub proof fn lemma_increment_n(c: int, n: nat)
    requires
        0 <= c < 10,
    ensures
        next_count_n(c, n) == (c + n) % 10,
    decreases n,
{
    if n > 0 {
        lemma_increment_n(c, (n - 1) as nat);
    }
}

/// Ten increments bring every counter value back to itself.
pub proof fn lemma_increment_cycle(c: int)
    requires
        0 <= c < 10,
    ensures
        next_count_n(c, 10) == c,
{
    lemma_increment_n(c, 10);
}

/// The daily advance is due: the clock shows the reset hour, and the date is
/// not the one on which the counter last advanced by itself.
pub open spec fn rollover_due(state: State, config: Config, inputs: Inputs) -> bool {
    inputs.hour == config.reset_hour && state.last_rollover != Some(inputs.date)
}

/// The reset button is pressed now and was not in the pass before.
pub open spec fn reset_edge(state: State, inputs: Inputs) -> bool {
    inputs.reset_low && !state.reset_was_pressed
}

/// The increment button is pressed now and was not in the pass before.
pub open spec fn increment_edge(state: State, inputs: Inputs) -> bool {
    inputs.increment_low && !state.increment_was_pressed
}

/// The counter after one pass. The three rules apply in this order, each to
/// what the one before left: the daily advance, the reset button, the
/// increment button.
pub open spec fn counter_after(state: State, config: Config, inputs: Inputs) -> int {
    let rolled = if rollover_due(state, config, inputs) {
        next_count(state.counter as int)
    } else {
        state.counter as int
    };
    let cleared = if reset_edge(state, inputs) {
        0
    } else {
        rolled
    };
    if increment_edge(state, inputs) {
        next_count(cleared)
    } else {
        cleared
    }
}

/// The state that one pass leaves behind.
pub open spec fn step_state(state: State, config: Config, inputs: Inputs) -> State {
    State {
        counter: counter_after(state, config, inputs) as u8,
        last_rollover: if rollover_due(state, config, inputs) {
            Some(inputs.date)
        } else {
            state.last_rollover
        },
        reset_was_pressed: inputs.reset_low,
        increment_was_pressed: inputs.increment_low,
        last_displayed: Some(counter_after(state, config, inputs) as u8),
    }
}

/// The decisions of one pass. The display is redrawn exactly when the new
/// counter value is not the digit it shows.
pub open spec fn step_outcome(state: State, config: Config, inputs: Inputs) -> Outcome {
    Outcome {
        rolled_over: rollover_due(state, config, inputs),
        reset_fired: reset_edge(state, inputs),
        increment_fired: increment_edge(state, inputs),
        redraw: if state.last_displayed == Some(counter_after(state, config, inputs) as u8) {
            None
        } else {
            Some(pattern_of(counter_after(state, config, inputs)))
        },
    }
}

/// What the board does after a pass, in order: one hold-off for each button
/// that fired, the rendering if the display changes, and the pause that ends
/// the pass.
pub open spec fn schedule_of(outcome: Outcome, config: Config) -> Seq<Action> {
    (if outcome.reset_fired {
        seq![Action::DelayMs(config.debounce_ms)]
    } else {
        Seq::empty()
    }) + (if outcome.increment_fired {
        seq![Action::DelayMs(config.debounce_ms)]
    } else {
        Seq::empty()
    }) + (match outcome.redraw {
        Some(pattern) => render_trace(pattern),
        None => Seq::empty(),
    }) + seq![Action::DelayMs(config.loop_period_ms)]
}

impl State {
    /// The counter is a digit, and so is what the display shows.
    pub open spec fn wf(&self) -> bool {
        &&& self.counter < 10
        &&& self.last_displayed matches Some(d) ==> d < 10
    }

    /// The state at power-up: the counter at its initial value, no daily
    /// advance recorded, both buttons taken as released, nothing rendered.
    pub fn new() -> (state: State)
        ensures
            state == (State {
                counter: INITIAL_COUNT,
                last_rollover: None,
                reset_was_pressed: false,
                increment_was_pressed: false,
                last_displayed: None,
            }),
            state.wf(),
    {
        State {
            counter: INITIAL_COUNT,
            last_rollover: None,
            reset_was_pressed: false,
            increment_was_pressed: false,
            last_displayed: None,
        }
    }

    /// Tells whether the state is well formed.
    pub fn is_valid(&self) -> (valid: bool)
        ensures
            valid == self.wf(),
    {
        self.counter < DIGITS && match self.last_displayed {
            Some(d) => d < DIGITS,
            None => true,
        }
    }
}

/// Runs one pass of the loop on `state`: the daily advance, then the reset
/// button, then the increment button; the button levels are recorded, and the
/// display is marked for redrawing if the counter no longer matches it.
pub fn step(state: &mut State, config: &Config, inputs: &Inputs) -> (outcome: Outcome)
    requires
        old(state).wf(),
    ensures
        *final(state) == step_state(*old(state), *config, *inputs),
        outcome == step_outcome(*old(state), *config, *inputs),
        final(state).wf(),
{
    let rolled_over = inputs.hour == config.reset_hour && match state.last_rollover {
        Some(date) => date != inputs.date,
        None => true,
    };
    if rolled_over {
        state.counter = increment(state.counter);
        state.last_rollover = Some(inputs.date);
    }
    let reset_fired = inputs.reset_low && !state.reset_was_pressed;
    if reset_fired {
        state.counter = 0;
    }
    let increment_fired = inputs.increment_low && !state.increment_was_pressed;
    if increment_fired {
        state.counter = increment(state.counter);
    }
    state.reset_was_pressed = inputs.reset_low;
    state.increment_was_pressed = inputs.increment_low;
    let shown = match state.last_displayed {
        Some(d) => d == state.counter,
        None => false,
    };
    let redraw = if shown {
        None
    } else {
        state.last_displayed = Some(state.counter);
        Some(segment_pattern(state.counter))
    };
    Outcome { rolled_over, reset_fired, increment_fired, redraw }
}

/// Lists what the board has to do after a pass that ended in `outcome`.
pub fn schedule(outcome: &Outcome, config: &Config) -> (actions: Vec<Action>)
    ensures
        actions@ == schedule_of(*outcome, *config),
{
    let mut actions: Vec<Action> = Vec::new();
    if outcome.reset_fired {
        actions.push(Action::DelayMs(config.debounce_ms));
    }
    if outcome.increment_fired {
        actions.push(Action::DelayMs(config.debounce_ms));
    }
    match outcome.redraw {
        Some(pattern) => {
            let mut ops = render(pattern);
            actions.append(&mut ops);
        },
        None => {},
    }
    actions.push(Action::DelayMs(config.loop_period_ms));
    actions
}

} // verus!
