//! Push-button controlled LED blinker: a button on the EXTI0 line cycles the
//! blink speed, and the TIM2 update interrupt paces the LED toggling.
//!
//! The hardware side (clock gating, pin modes, EXTI routing, the timer
//! registers) is performed by the firmware; this module holds the decisions:
//! how button presses are counted, which speed a count selects, which reload
//! value that speed writes to the timer, and how the interrupt flags are
//! consumed by the main loop.
#![allow(non_snake_case)]

use vstd::prelude::*;

verus! {

/// Number of blink speeds the push button cycles through.
pub const SPEED_STATES: u8 = 4;

/// Blink speeds, selected by the number of button presses.
#[derive(Clone, Copy, Debug, PartialEq, Eq, Structural)]
pub enum Speed {
    Slow,
    Medium,
    High,
    VeryHigh,
}

/// The speed a press counter selects; any unexpected count falls back to `Slow`.
pub open spec fn speed_of(counter: u8) -> Speed {
    if counter == 0 {
        Speed::Slow
    } else if counter == 1 {
        Speed::Medium
    } else if counter == 2 {
        Speed::High
    } else if counter == 3 {
        Speed::VeryHigh
    } else {
        Speed::Slow
    }
}

/// Timer ticks (milliseconds at 1 kHz) between two LED toggles at a speed.
pub open spec fn delay_of(speed: Speed) -> u16 {
    match speed {
        Speed::Slow => 1000,
        Speed::Medium => 500,
        Speed::High => 200,
        Speed::VeryHigh => 90,
    }
}

/// The value of the press counter after one more press is counted: the
/// counter is bumped with wrap-around and reset to zero once it reaches
/// `SPEED_STATES`.
pub open spec fn next_press_count(counter: u8) -> u8 {
    let bumped = ((counter as int + 1) % 256) as u8;
    if bumped == SPEED_STATES {
        0
    } else {
        bumped
    }
}

impl Speed {
    /// Maps the button press counter to a blink speed.
    pub fn count(counter: u8) -> (s: Speed)
        ensures
            s == speed_of(counter),
    {
        match counter {
            0 => Speed::Slow,
            1 => Speed::Medium,
            2 => Speed::High,
            3 => Speed::VeryHigh,
            _ => Speed::Slow,
        }
    }

    /// The timer reload value (delay in ms) for the speed selected by the
    /// press counter; the firmware writes it to the TIM2 counter.
    pub fn state_machine(counter: u8) -> (ms: u16)
        ensures
            ms == delay_of(speed_of(counter)),
    {
        let s = Speed::count(counter);
        match s {
            Speed::Slow => 1000,
            Speed::Medium => 500,
            Speed::High => 200,
            Speed::VeryHigh => 90,
        }
    }
}

/// State shared between the main loop and the two interrupt handlers.
#[derive(Clone, Copy, Debug, PartialEq, Eq, Structural)]
pub struct Blinker {
    /// Number of button presses, modulo the number of speeds.
    pub counter: u8,
    /// Set by the timer interrupt; consumed by the main loop.
    pub toggle: bool,
}

impl Blinker {
    /// The start-up state: slow blinking, with a toggle pending so that the
    /// first pass of the main loop arms the timer.
    pub fn new() -> (b: Blinker)
        ensures
            b.counter == 0,
            b.toggle,
    {
        Blinker { counter: 0, toggle: true }
    }

    /// Reads and clears the toggle flag (the main loop's atomic swap).
    pub fn take_toggle(&mut self) -> (fired: bool)
        ensures
            fired == old(self).toggle,
            !final(self).toggle,
            final(self).counter == old(self).counter,
    {
        let fired = self.toggle;
        self.toggle = false;
        fired
    }
}

/// EXTI0 interrupt: when the pending bit is set, one button press is counted.
/// Returns whether the pending bit is to be cleared.
pub fn EXTI0(state: &mut Blinker, pending: bool) -> (clear: bool)
    ensures
        clear == pending,
        final(state).counter == (if pending {
            next_press_count(old(state).counter)
        } else {
            old(state).counter
        }),
        final(state).toggle == old(state).toggle,
{
    if pending {
        let bumped = state.counter.wrapping_add(1);
        if bumped == SPEED_STATES {
            state.counter = 0;
        } else {
            state.counter = bumped;
        }
    }
    pending
}

/// TIM2 interrupt: on an update event (counter underflow) the toggle flag is
/// raised. Returns whether the update flag is to be cleared.
pub fn TIM2(state: &mut Blinker, update: bool) -> (clear: bool)
    ensures
        clear == update,
        final(state).toggle == (old(state).toggle || update),
        final(state).counter == old(state).counter,
{
    if update {
        state.toggle = true;
    }
    update
}

/// The output data register value after toggling the LED on pin 0.
pub fn toggle_led(odr: u32) -> (r: u32)
    ensures
        r == odr ^ 1,
        r & 1 != odr & 1,
        r & !1u32 == odr & !1u32,
{
    let r = odr ^ 1;
    assert(r & 1 != odr & 1 && r & !1u32 == odr & !1u32) by (bit_vector)
        requires
            r == odr ^ 1,
    ;
    r
}

/// Counting a press keeps a reachable counter below `SPEED_STATES` and
/// advances it cyclically.
pub proof fn lemma_press_count_cycles(counter: u8)
    requires
        counter < SPEED_STATES,
    ensures
        next_press_count(counter) < SPEED_STATES,
        next_press_count(counter) == (counter + 1) % (SPEED_STATES as int),
{
}

/// Four presses bring the blinker back to the speed it had.
pub proof fn lemma_four_presses_restore(counter: u8)
    requires
        counter < SPEED_STATES,
    ensures
        next_press_count(next_press_count(next_press_count(next_press_count(counter))))
            == counter,
{
}

/// Each press (from a reachable count) selects a strictly faster blink, until
/// the count wraps back to the slowest one.
pub proof fn lemma_presses_speed_up(c1: u8, c2: u8)
    requires
        c1 < c2 < SPEED_STATES,
    ensures
        delay_of(speed_of(c1)) > delay_of(speed_of(c2)),
{
}

/// Counts outside the cycle select the slowest speed.
pub proof fn lemma_unexpected_count_is_slow(counter: u8)
    requires
        counter >= SPEED_STATES,
    ensures
        speed_of(counter) == Speed::Slow,
        delay_of(speed_of(counter)) == 1000,
{
}

} // verus!
