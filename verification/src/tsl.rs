//! Auto-brightness from a TSL2561 ambient light sensor read over I2C1 with
//! DMA2: an event-driven state machine configures the sensor, reads its two
//! channels, extracts the visible light, smooths it with an exponential
//! moving average and maps it to the duty cycle of the TIM3 PWM output that
//! drives the LED.
//!
//! The bus and timer register accesses are performed by the firmware; this
//! module decides which transfer comes next and computes the duty cycle.
#![allow(non_snake_case)]

use vstd::prelude::*;

verus! {

/// 7-bit I2C address of the TSL2561 (ADDR pin floating).
pub const TSL_ADDR: u8 = 0x39;

/// Command byte selecting the CONTROL register.
pub const TSL_CONTROL: u8 = 0x80;

/// CONTROL value that powers the sensor up.
pub const TSL_POWER_ON: u8 = 0x03;

/// Command byte selecting the TIMING register.
pub const TSL_TIMING: u8 = 0x81;

/// TIMING value: 101 ms integration time, 1x gain.
pub const TSL_TIMING_101MS_1X: u8 = 0x01;

/// Command byte (word read) of channel 0, visible + infrared.
pub const TSL_DATA0: u8 = 0xAC;

/// Command byte (word read) of channel 1, infrared only.
pub const TSL_DATA1: u8 = 0xAE;

/// Largest visible-light reading used at 1x gain.
pub const MAX_VISIBLE: u32 = 10000;

/// Auto-reload value of the PWM timer: the duty cycle compare value never
/// exceeds it.
pub const PWM_PERIOD: u32 = 2000;

/// One I2C transaction with the sensor.
#[derive(Clone, Copy, Debug, PartialEq, Eq, Structural)]
pub struct I2cRequest {
    /// 7-bit slave address.
    pub slave_addr: u8,
    /// Number of bytes transferred (NBYTES).
    pub len: u8,
    /// Direction: `true` for a read.
    pub read: bool,
}

impl I2cRequest {
    /// The SADD field of CR2: the 7-bit address in bits 7:1.
    pub fn sadd(&self) -> (r: u16)
        ensures
            r == 2 * self.slave_addr,
    {
        let a = self.slave_addr;
        let r = (a as u16) << 1u16;
        assert(r == 2 * a) by (bit_vector)
            requires
                r == (a as u16) << 1u16,
        ;
        r
    }
}

/// The receive buffer a read lands in.
#[derive(Clone, Copy, Debug, PartialEq, Eq, Structural)]
pub enum RxTarget {
    /// Channel 0 (visible + infrared).
    VisibleIr,
    /// Channel 1 (infrared).
    Ir,
}

/// What the firmware does for one state machine step.
#[derive(Clone, Copy, Debug, PartialEq, Eq, Structural)]
pub enum TslAction {
    /// Write `reg` (and `data`, when `len` is 2) to the sensor.
    Write { reg: u8, data: u8, len: u8 },
    /// Read `len` bytes into a receive buffer.
    Read { target: RxTarget, len: u8 },
    /// Load the PWM compare register.
    SetDuty { ccr: u32 },
    /// Nothing to do.
    Nothing,
}

/// A channel value: the two received bytes, little endian.
pub open spec fn channel_value(b: Seq<u8>) -> int {
    b[0] + 256 * b[1]
}

/// Visible light: channel 0 minus channel 1 (not below zero), capped at
/// `MAX_VISIBLE`.
pub open spec fn visible_light(vis_ir: int, ir: int) -> int {
    let diff = if vis_ir >= ir {
        vis_ir - ir
    } else {
        0
    };
    if diff < MAX_VISIBLE {
        diff
    } else {
        MAX_VISIBLE as int
    }
}

/// Exponential moving average with weight 1/16 for the new reading; the first
/// reading (no previous value) is taken as is.
pub open spec fn ema(prev: int, raw: int) -> int {
    if prev == 0 {
        raw
    } else {
        (prev * 15 + raw) / 16
    }
}

/// PWM compare value for a filtered reading.
pub open spec fn duty_for(filtered: int) -> int {
    1 + filtered * 1999 / 10000
}

/// Writes a register of the sensor: the transmit buffer receives the command
/// byte and the data byte.
pub fn tsl_write(buffer: &mut [u8; 2], reg: u8, data: u8, len: u8) -> (req: I2cRequest)
    ensures
        final(buffer)@ == seq![reg, data],
        req == (I2cRequest { slave_addr: TSL_ADDR, len, read: false }),
{
    buffer[0] = reg;
    buffer[1] = data;
    assert(buffer@ =~= seq![reg, data]);
    I2cRequest { slave_addr: TSL_ADDR, len, read: false }
}

/// Reads from the sensor into a receive buffer.
pub fn tsl_read(len: u8) -> (req: I2cRequest)
    ensures
        req == (I2cRequest { slave_addr: TSL_ADDR, len, read: true }),
{
    I2cRequest { slave_addr: TSL_ADDR, len, read: true }
}

/// The transfer that powers the sensor up, sent once before the state machine
/// runs.
pub fn power_on() -> (a: TslAction)
    ensures
        a == (TslAction::Write { reg: TSL_CONTROL, data: TSL_POWER_ON, len: 2 }),
{
    TslAction::Write { reg: TSL_CONTROL, data: TSL_POWER_ON, len: 2 }
}

/// Decodes a channel from its two received bytes.
pub fn channel(b: [u8; 2]) -> (r: u16)
    ensures
        r == channel_value(b@),
{
    let lo = b[0];
    let hi = b[1];
    let r = ((hi as u16) << 8u16) | (lo as u16);
    assert(r == lo + 256 * hi) by (bit_vector)
        requires
            r == ((hi as u16) << 8u16) | (lo as u16),
    ;
    r
}

/// Visible light from the two channel values.
pub fn visible(ch0: u16, ch1: u16) -> (r: u32)
    ensures
        r == visible_light(ch0 as int, ch1 as int),
        r <= MAX_VISIBLE,
{
    let diff = ch0.saturating_sub(ch1);
    if diff < 10000 {
        diff as u32
    } else {
        MAX_VISIBLE
    }
}

/// One step of the moving average.
pub fn filter(prev: u32, raw: u32) -> (r: u32)
    requires
        prev <= MAX_VISIBLE,
        raw <= MAX_VISIBLE,
    ensures
        r == ema(prev as int, raw as int),
        r <= MAX_VISIBLE,
{
    if prev == 0 {
        raw
    } else {
        ((prev * 15) + raw) / 16
    }
}

/// PWM compare value for a filtered reading.
pub fn duty(filtered: u32) -> (ccr: u32)
    requires
        filtered <= MAX_VISIBLE,
    ensures
        ccr == duty_for(filtered as int),
        1 <= ccr <= PWM_PERIOD,
{
    proof {
        lemma_duty_within_period(filtered as int);
    }
    1 + ((filtered * 1999) / 10000)
}

/// State shared between the main loop and the I2C event interrupt.
#[derive(Clone, Copy, Debug, PartialEq, Eq, Structural)]
pub struct TslState {
    /// Step of the state machine (1 to 6).
    pub cnt: u8,
    /// Filtered visible light (0 until the first measurement).
    pub filtered: u32,
    /// A transfer has finished (STOP detected) or a step asks to run again.
    pub done: bool,
}

/// One step of the state machine: configure the integration time (1), then
/// cycle through selecting channel 0 (2), reading it (3), selecting channel 1
/// (4), reading it (5), and updating the brightness (6), which asks for the
/// next step at once and loops back to 2.
pub open spec fn state_machine_spec(s: TslState, vis_ir: Seq<u8>, ir: Seq<u8>) -> (
    TslState,
    TslAction,
) {
    if s.cnt == 1 {
        (
            TslState { cnt: 2, ..s },
            TslAction::Write { reg: TSL_TIMING, data: TSL_TIMING_101MS_1X, len: 2 },
        )
    } else if s.cnt == 2 {
        (TslState { cnt: 3, ..s }, TslAction::Write { reg: TSL_DATA0, data: 0, len: 1 })
    } else if s.cnt == 3 {
        (TslState { cnt: 4, ..s }, TslAction::Read { target: RxTarget::VisibleIr, len: 2 })
    } else if s.cnt == 4 {
        (TslState { cnt: 5, ..s }, TslAction::Write { reg: TSL_DATA1, data: 0, len: 1 })
    } else if s.cnt == 5 {
        (TslState { cnt: 6, ..s }, TslAction::Read { target: RxTarget::Ir, len: 2 })
    } else if s.cnt == 6 {
        let f = ema(s.filtered as int, visible_light(channel_value(vis_ir), channel_value(ir)));
        (
            TslState { cnt: 2, filtered: f as u32, done: true },
            TslAction::SetDuty { ccr: duty_for(f) as u32 },
        )
    } else {
        (s, TslAction::Nothing)
    }
}

impl TslState {
    /// The start-up state: first step pending, no reading yet.
    pub fn new() -> (s: TslState)
        ensures
            s == (TslState { cnt: 1, filtered: 0, done: false }),
            s.wf(),
    {
        TslState { cnt: 1, filtered: 0, done: false }
    }

    /// The states the machine can be in.
    pub open spec fn wf(self) -> bool {
        1 <= self.cnt <= 6 && self.filtered <= MAX_VISIBLE
    }

    /// Reads and clears the `done` flag (the main loop's atomic swap).
    pub fn take_done(&mut self) -> (fired: bool)
        ensures
            fired == old(self).done,
            *final(self) == (TslState { done: false, ..*old(self) }),
    {
        let fired = self.done;
        self.done = false;
        fired
    }
}

/// One step of the state machine, given the two receive buffers.
pub fn state_machine(state: &mut TslState, vis_ir: [u8; 2], ir: [u8; 2]) -> (a: TslAction)
    requires
        old(state).filtered <= MAX_VISIBLE,
    ensures
        (*final(state), a) == state_machine_spec(*old(state), vis_ir@, ir@),
        final(state).filtered <= MAX_VISIBLE,
        old(state).wf() ==> final(state).wf(),
{
    match state.cnt {
        1 => {
            state.cnt = 2;
            TslAction::Write { reg: TSL_TIMING, data: TSL_TIMING_101MS_1X, len: 2 }
        },
        2 => {
            state.cnt = 3;
            TslAction::Write { reg: TSL_DATA0, data: 0, len: 1 }
        },
        3 => {
            state.cnt = 4;
            TslAction::Read { target: RxTarget::VisibleIr, len: 2 }
        },
        4 => {
            state.cnt = 5;
            TslAction::Write { reg: TSL_DATA1, data: 0, len: 1 }
        },
        5 => {
            state.cnt = 6;
            TslAction::Read { target: RxTarget::Ir, len: 2 }
        },
        6 => {
            let ch0 = channel(vis_ir);
            let ch1 = channel(ir);
            let raw = visible(ch0, ch1);
            let f = filter(state.filtered, raw);
            let ccr = duty(f);
            state.filtered = f;
            state.cnt = 2;
            state.done = true;
            TslAction::SetDuty { ccr }
        },
        _ => TslAction::Nothing,
    }
}

/// I2C1 event interrupt: a STOP condition marks the transfer finished.
/// Returns whether the STOP flag is to be cleared.
pub fn I2C1_EV(state: &mut TslState, stop: bool) -> (clear: bool)
    ensures
        clear == stop,
        *final(state) == (TslState { done: old(state).done || stop, ..*old(state) }),
{
    if stop {
        state.done = true;
    }
    stop
}

/// The duty cycle stays within the PWM period: the compare value of any
/// filtered reading lies in 1..=PWM_PERIOD.
pub proof fn lemma_duty_within_period(filtered: int)
    requires
        0 <= filtered <= MAX_VISIBLE,
    ensures
        1 <= duty_for(filtered) <= PWM_PERIOD,
        duty_for(0) == 1,
        duty_for(MAX_VISIBLE as int) == PWM_PERIOD,
{
    assert(0 <= filtered * 1999 <= 10000 * 1999) by (nonlinear_arith)
        requires
            0 <= filtered <= 10000,
    ;
}

/// More light never gives a dimmer output.
pub proof fn lemma_duty_monotone(f1: int, f2: int)
    requires
        0 <= f1 <= f2,
    ensures
        duty_for(f1) <= duty_for(f2),
{
    assert(f1 * 1999 <= f2 * 1999) by (nonlinear_arith)
        requires
            0 <= f1 <= f2,
    ;
    assert(f1 * 1999 / 10000 <= f2 * 1999 / 10000) by (nonlinear_arith)
        requires
            f1 * 1999 <= f2 * 1999,
    ;
}

/// The moving average of an established value lies between that value and
/// the new reading, and a steady reading is a fixed point.
pub proof fn lemma_ema_between(prev: int, raw: int)
    requires
        prev > 0,
        raw >= 0,
    ensures
        prev <= raw ==> prev <= ema(prev, raw) <= raw,
        raw <= prev ==> raw <= ema(prev, raw) <= prev,
        ema(prev, prev) == prev,
{
}

/// Readings are bounded: the visible light and the filtered value never
/// exceed `MAX_VISIBLE`, whatever the sensor returns.
pub proof fn lemma_readings_bounded(vis_ir: int, ir: int, prev: int)
    requires
        0 <= prev <= MAX_VISIBLE,
    ensures
        0 <= visible_light(vis_ir, ir) <= MAX_VISIBLE,
        0 <= ema(prev, visible_light(vis_ir, ir)) <= MAX_VISIBLE,
        ir >= vis_ir ==> visible_light(vis_ir, ir) == 0,
{
}

/// A channel value is the little-endian reading of its two bytes.
pub proof fn lemma_channel_little_endian(lo: u8, hi: u8)
    ensures
        channel_value(seq![lo, hi]) == lo + 256 * hi,
        0 <= channel_value(seq![lo, hi]) <= 0xFFFF,
{
}

/// One measurement cycle: from step 2 the machine selects and reads channel
/// 0, selects and reads channel 1, then loads the compare value computed from
/// both readings, stores the new average, and asks for the next cycle.
pub proof fn lemma_measurement_cycle(s: TslState, vis_ir: Seq<u8>, ir: Seq<u8>)
    requires
        s.wf(),
        s.cnt == 2,
    ensures
        ({
            let (s1, a1) = state_machine_spec(s, vis_ir, ir);
            let (s2, a2) = state_machine_spec(s1, vis_ir, ir);
            let (s3, a3) = state_machine_spec(s2, vis_ir, ir);
            let (s4, a4) = state_machine_spec(s3, vis_ir, ir);
            let (s5, a5) = state_machine_spec(s4, vis_ir, ir);
            let f = ema(s.filtered as int, visible_light(channel_value(vis_ir), channel_value(ir)));
            &&& a1 == TslAction::Write { reg: TSL_DATA0, data: 0, len: 1 }
            &&& a2 == TslAction::Read { target: RxTarget::VisibleIr, len: 2 }
            &&& a3 == TslAction::Write { reg: TSL_DATA1, data: 0, len: 1 }
            &&& a4 == TslAction::Read { target: RxTarget::Ir, len: 2 }
            &&& a5 == TslAction::SetDuty { ccr: duty_for(f) as u32 }
            &&& s5.cnt == 2
            &&& s5.filtered == f
            &&& s5.done
        }),
{
}

} // verus!

verus! {

/// The visible light is the channel difference, clamped to 0..=MAX_VISIBLE:
/// the cap applies to the difference, never to channel 0 alone.
pub proof fn lemma_visible_is_clamped_difference(vis_ir: int, ir: int)
    ensures
        ir <= vis_ir && vis_ir - ir < MAX_VISIBLE ==> visible_light(vis_ir, ir) == vis_ir - ir,
        vis_ir <= ir ==> visible_light(vis_ir, ir) == 0,
        vis_ir - ir >= MAX_VISIBLE ==> visible_light(vis_ir, ir) == MAX_VISIBLE,
{
}

} // verus!
