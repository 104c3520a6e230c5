//! Variable-length echo over USART2 with DMA1: channel 6 receives into a
//! circular buffer; on an idle line the received frame is measured from the
//! remaining DMA count and, when it ends with a line terminator, echoed back
//! through channel 7, after which reception restarts.
//!
//! The register accesses are performed by the firmware; this module holds the
//! decisions of the two interrupt handlers.
#![allow(non_snake_case)]

use vstd::prelude::*;

verus! {

/// Size of the reception buffer in bytes.
pub const SIZE: usize = 100;

/// USART2 settings.
#[derive(Clone, Copy, Debug, PartialEq, Eq, Structural)]
pub struct UART {
    /// USARTDIV, the baud rate divider (0x1A0 = 416 gives 9600 baud from a
    /// 4 MHz clock with 16x oversampling).
    pub baud: u16,
}

impl UART {
    /// The value written to the baud rate register.
    pub fn brr(&self) -> (r: u32)
        ensures
            r == self.baud,
    {
        self.baud as u32
    }
}

/// Number of bytes received so far, given the raw remaining-count register of
/// the reception channel (its low byte holds the count).
pub open spec fn received(remaining_bits: u32) -> int {
    SIZE - (remaining_bits as u8)
}

/// Whether a byte ends a line.
pub open spec fn is_line_end(b: u8) -> bool {
    b == 13 || b == 10
}

/// The frame length to echo on an idle line, if any: the received bytes,
/// when there is at least one and the last of them ends a line.
pub open spec fn echo_len(remaining_bits: u32, rx: Seq<u8>) -> Option<u8> {
    let n = received(remaining_bits);
    if n > 0 && is_line_end(rx[n - 1]) {
        Some(n as u8)
    } else {
        None
    }
}

/// What the USART2 interrupt does.
#[derive(Clone, Copy, Debug, PartialEq, Eq, Structural)]
pub struct IdleOutcome {
    /// Clear the idle-line flag.
    pub clear_idle: bool,
    /// Echo this many bytes from the start of the buffer.
    pub echo: Option<u8>,
}

/// USART2 interrupt. On an idle line the flag is cleared and the received
/// frame is echoed when it ends with CR or LF.
pub fn USART2(idle: bool, remaining_bits: u32, rx: &[u8; SIZE]) -> (out: IdleOutcome)
    requires
        idle ==> (remaining_bits as u8) <= SIZE,
    ensures
        out.clear_idle == idle,
        out.echo == (if idle {
            echo_len(remaining_bits, rx@)
        } else {
            None
        }),
{
    if !idle {
        return IdleOutcome { clear_idle: false, echo: None };
    }
    let remaining = remaining_bits as u8;
    let bytes: u8 = (SIZE as u8) - remaining;
    let mut echo = None;
    if bytes > 0 {
        let last = rx[(bytes as usize) - 1];
        if last == 13u8 || last == 10u8 {
            echo = Some(bytes);
        }
    }
    IdleOutcome { clear_idle: true, echo }
}

/// DMA1 channel 7 (transmission) interrupt: once the echo has been sent,
/// reception restarts over the whole buffer. Returns the reception length to
/// restart with, if the transfer-complete flag was set (it is then cleared).
pub fn DMA1_CH7(transfer_complete: bool) -> (restart: Option<u8>)
    ensures
        restart == (if transfer_complete {
            Some(SIZE as u8)
        } else {
            None
        }),
{
    if transfer_complete {
        Some(SIZE as u8)
    } else {
        None
    }
}

/// An echoed frame is never empty, fits the buffer, and ends with a line
/// terminator.
pub proof fn lemma_echo_frame(remaining_bits: u32, rx: Seq<u8>)
    requires
        (remaining_bits as u8) <= SIZE,
        rx.len() == SIZE,
        echo_len(remaining_bits, rx) is Some,
    ensures
        ({
            let n = echo_len(remaining_bits, rx)->Some_0;
            &&& 0 < n <= SIZE
            &&& n == SIZE - (remaining_bits as u8)
            &&& is_line_end(rx[n - 1])
        }),
{
}

/// Nothing is echoed while the whole buffer is still pending.
pub proof fn lemma_nothing_received(rx: Seq<u8>)
    ensures
        echo_len(SIZE as u32, rx) is None,
{
    assert((SIZE as u32) as u8 == SIZE) by (bit_vector);
}

} // verus!

verus! {

/// A frame is echoed exactly when at least one byte was received and the last
/// received byte is CR or LF; the echo then covers all received bytes, a lone
/// line terminator included.
pub proof fn lemma_echo_exactly_terminated_frames(remaining_bits: u32, rx: Seq<u8>)
    requires
        (remaining_bits as u8) <= SIZE,
        rx.len() == SIZE,
    ensures
        ({
            let n = SIZE - (remaining_bits as u8);
            &&& (n >= 1 && (rx[n - 1] == 13 || rx[n - 1] == 10)) ==> echo_len(remaining_bits, rx)
                == Some(n as u8)
            &&& !(n >= 1 && (rx[n - 1] == 13 || rx[n - 1] == 10)) ==> echo_len(
                remaining_bits,
                rx,
            ) is None
        }),
{
}

} // verus!
