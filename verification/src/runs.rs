//! Runs of consecutive passes: what holds of the counter over time.

use vstd::prelude::*;
use crate::counter::{
    counter_after, next_count, step_outcome, step_state, CalendarDate, Config, Inputs, Outcome,
    State,
};
use crate::segments::pattern_of;

verus! {

/// The three rules that change the counter.
pub enum Rule {
    /// The daily advance at the reset hour.
    Rollover,
    /// The reset button.
    Reset,
    /// The increment button.
    Increment,
}

/// Whether `rule` fired in the pass that ended in `outcome`.
pub open spec fn fired(outcome: Outcome, rule: Rule) -> bool {
    match rule {
        Rule::Rollover => outcome.rolled_over,
        Rule::Reset => outcome.reset_fired,
        Rule::Increment => outcome.increment_fired,
    }
}

/// The state after the first `n` passes of a run that starts in `start` and
/// reads `inputs[0]`, `inputs[1]`, and so on.
pub open spec fn state_after(start: State, config: Config, inputs: Seq<Inputs>, n: nat) -> State
    decreases n,
{
    if n == 0 {
        start
    } else {
        step_state(state_after(start, config, inputs, (n - 1) as nat), config, inputs[n - 1])
    }
}

/// What pass `i` of the run decided.
pub open spec fn outcome_at(start: State, config: Config, inputs: Seq<Inputs>, i: nat) -> Outcome {
    step_outcome(state_after(start, config, inputs, i), config, inputs[i as int])
}

/// In how many of the first `n` passes `rule` fired.
pub open spec fn firings(
    start: State,
    config: Config,
    inputs: Seq<Inputs>,
    rule: Rule,
    n: nat,
) -> nat
    decreases n,
{
    if n == 0 {
        0
    } else {
        let before = firings(start, config, inputs, rule, (n - 1) as nat);
        if fired(outcome_at(start, config, inputs, (n - 1) as nat), rule) {
            before + 1
        } else {
            before
        }
    }
}

/// A pass keeps the state well formed and leaves the display showing the
/// counter: no change of the counter outlives the pass it happened in.
pub proof fn lemma_step_shows_counter(state: State, config: Config, inputs: Inputs)
    requires
        state.wf(),
    ensures
        step_state(state, config, inputs).wf(),
        step_state(state, config, inputs).last_displayed == Some(
            step_state(state, config, inputs).counter,
        ),
{
}

/// Once the display shows the counter, a pass redraws exactly when it changes
/// the counter, and then with the pattern of the new value.
pub proof fn lemma_redraw_iff_changed(state: State, config: Config, inputs: Inputs)
    requires
        state.wf(),
        state.last_displayed == Some(state.counter),
    ensures
        counter_after(state, config, inputs) == state.counter ==> step_outcome(
            state,
            config,
            inputs,
        ).redraw.is_none(),
        counter_after(state, config, inputs) != state.counter ==> step_outcome(
            state,
            config,
            inputs,
        ).redraw == Some(pattern_of(counter_after(state, config, inputs))),
{
}

/// Every state of a run is well formed, and from the first pass on the
/// display shows the counter.
pub proof fn lemma_run_wf(start: State, config: Config, inputs: Seq<Inputs>, n: nat)
    requires
        start.wf(),
    ensures
        state_after(start, config, inputs, n).wf(),
        n > 0 ==> state_after(start, config, inputs, n).last_displayed == Some(
            state_after(start, config, inputs, n).counter,
        ),
    decreases n,
{
    if n > 0 {
        lemma_run_wf(start, config, inputs, (n - 1) as nat);
    }
}

/// From the second pass on, a button counts as pressed before exactly when
/// its line was low in the pass before.
pub proof fn lemma_button_memory(start: State, config: Config, inputs: Seq<Inputs>, n: nat)
    requires
        n > 0,
    ensures
        state_after(start, config, inputs, n).reset_was_pressed == inputs[n - 1].reset_low,
        state_after(start, config, inputs, n).increment_was_pressed == inputs[n
            - 1].increment_low,
{
}

/// While the clock reports one date, the daily advance fires at most once,
/// and not at all if it had already fired on that date.
pub proof fn lemma_rollover_once_per_date(
    start: State,
    config: Config,
    inputs: Seq<Inputs>,
    date: CalendarDate,
    n: nat,
)
    requires
        n <= inputs.len(),
        forall|i: int| 0 <= i < n ==> (#[trigger] inputs[i]).date == date,
    ensures
        firings(start, config, inputs, Rule::Rollover, n) <= 1,
        start.last_rollover == Some(date) ==> firings(start, config, inputs, Rule::Rollover, n)
            == 0,
        firings(start, config, inputs, Rule::Rollover, n) == 1 ==> state_after(
            start,
            config,
            inputs,
            n,
        ).last_rollover == Some(date),
        firings(start, config, inputs, Rule::Rollover, n) == 0 ==> state_after(
            start,
            config,
            inputs,
            n,
        ).last_rollover == start.last_rollover,
    decreases n,
{
    if n > 0 {
        lemma_rollover_once_per_date(start, config, inputs, date, (n - 1) as nat);
        assert(inputs[n - 1].date == date);
    }
}

/// While the clock reports one date and the reset hour, and the counter has
/// not yet advanced on that date, the daily advance fires in the first pass
/// and in no later one.
pub proof fn lemma_rollover_exactly_once(
    start: State,
    config: Config,
    inputs: Seq<Inputs>,
    date: CalendarDate,
    n: nat,
)
    requires
        1 <= n <= inputs.len(),
        forall|i: int|
            0 <= i < n ==> (#[trigger] inputs[i]).date == date && inputs[i].hour
                == config.reset_hour,
        start.last_rollover != Some(date),
    ensures
        outcome_at(start, config, inputs, 0).rolled_over,
        forall|i: nat| 1 <= i < n ==> !(#[trigger] outcome_at(start, config, inputs, i)).rolled_over,
        firings(start, config, inputs, Rule::Rollover, n) == 1,
        state_after(start, config, inputs, n).last_rollover == Some(date),
    decreases n,
{
    assert(inputs[0].date == date);
    if n == 1 {
        reveal_with_fuel(firings, 2);
        reveal_with_fuel(state_after, 2);
    } else {
        lemma_rollover_exactly_once(start, config, inputs, date, (n - 1) as nat);
        assert(inputs[n - 1].date == date);
        assert forall|i: nat| 1 <= i < n implies !(#[trigger] outcome_at(
            start,
            config,
            inputs,
            i,
        )).rolled_over by {
            if i == n - 1 {
                assert(!outcome_at(start, config, inputs, (n - 1) as nat).rolled_over);
            }
        }
    }
}

/// While the clock reports one date and the reset hour, the counter has not
/// yet advanced on that date, and no button fires, the counter advances by
/// exactly one over the whole run, however long it is.
pub proof fn lemma_counter_advances_once(
    start: State,
    config: Config,
    inputs: Seq<Inputs>,
    date: CalendarDate,
    n: nat,
)
    requires
        start.wf(),
        1 <= n <= inputs.len(),
        forall|i: int|
            0 <= i < n ==> (#[trigger] inputs[i]).date == date && inputs[i].hour
                == config.reset_hour,
        start.last_rollover != Some(date),
        forall|i: nat|
            i < n ==> !(#[trigger] outcome_at(start, config, inputs, i)).reset_fired
                && !outcome_at(start, config, inputs, i).increment_fired,
    ensures
        state_after(start, config, inputs, n).counter == next_count(start.counter as int),
    decreases n,
{
    lemma_rollover_exactly_once(start, config, inputs, date, n);
    assert(!outcome_at(start, config, inputs, (n - 1) as nat).reset_fired);
    if n == 1 {
        reveal_with_fuel(state_after, 2);
    } else {
        lemma_counter_advances_once(start, config, inputs, date, (n - 1) as nat);
        assert(!outcome_at(start, config, inputs, (n - 1) as nat).rolled_over);
    }
}

/// A reset button that goes down and stays down for the whole run zeroes the
/// counter in the first pass and fires in no later one.
pub proof fn lemma_held_reset_fires_once(
    start: State,
    config: Config,
    inputs: Seq<Inputs>,
    n: nat,
)
    requires
        1 <= n <= inputs.len(),
        !start.reset_was_pressed,
        forall|i: int| 0 <= i < n ==> (#[trigger] inputs[i]).reset_low,
    ensures
        outcome_at(start, config, inputs, 0).reset_fired,
        forall|i: nat| 1 <= i < n ==> !(#[trigger] outcome_at(start, config, inputs, i)).reset_fired,
        firings(start, config, inputs, Rule::Reset, n) == 1,
    decreases n,
{
    assert(inputs[0].reset_low);
    if n == 1 {
        reveal_with_fuel(firings, 2);
    } else {
        lemma_held_reset_fires_once(start, config, inputs, (n - 1) as nat);
        assert(inputs[n - 2].reset_low);
        lemma_button_memory(start, config, inputs, (n - 1) as nat);
        assert forall|i: nat| 1 <= i < n implies !(#[trigger] outcome_at(
            start,
            config,
            inputs,
            i,
        )).reset_fired by {
            if i == n - 1 {
                assert(!outcome_at(start, config, inputs, (n - 1) as nat).reset_fired);
            }
        }
    }
}

/// An increment button that goes down and stays down for the whole run
/// advances the counter in the first pass and fires in no later one.
pub proof fn lemma_held_increment_fires_once(
    start: State,
    config: Config,
    inputs: Seq<Inputs>,
    n: nat,
)
    requires
        1 <= n <= inputs.len(),
        !start.increment_was_pressed,
        forall|i: int| 0 <= i < n ==> (#[trigger] inputs[i]).increment_low,
    ensures
        outcome_at(start, config, inputs, 0).increment_fired,
        forall|i: nat|
            1 <= i < n ==> !(#[trigger] outcome_at(start, config, inputs, i)).increment_fired,
        firings(start, config, inputs, Rule::Increment, n) == 1,
    decreases n,
{
    assert(inputs[0].increment_low);
    if n == 1 {
        reveal_with_fuel(firings, 2);
    } else {
        lemma_held_increment_fires_once(start, config, inputs, (n - 1) as nat);
        assert(inputs[n - 2].increment_low);
        lemma_button_memory(start, config, inputs, (n - 1) as nat);
        assert forall|i: nat| 1 <= i < n implies !(#[trigger] outcome_at(
            start,
            config,
            inputs,
            i,
        )).increment_fired by {
            if i == n - 1 {
                assert(!outcome_at(start, config, inputs, (n - 1) as nat).increment_fired);
            }
        }
    }
}

} // verus!
