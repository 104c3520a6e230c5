//! Non-blocking driver logic for a W25Qxx SPI NOR flash, driven over SPI1
//! with DMA1 channel 2 (reception) and channel 3 (transmission).
//!
//! Two state machines share the bus: the erase machine (write enable, sector
//! erase, status polling) and the write-read machine (write enable, page
//! program, status polling, read back). Each machine step has two halves:
//! `*_initiate` issues the command of the current state once, by filling the
//! transmit buffer and returning the DMA transfer lengths; `*_advance` looks at
//! the bus and the DMA completion flags and moves to the next state. The
//! firmware performs the register accesses in between.
#![allow(non_snake_case)]

use vstd::prelude::*;

verus! {

/// Flash op-code: write enable.
pub const WRITE_ENABLE: u8 = 0x06;

/// Flash op-code: read status register 1.
pub const READ_STATUS: u8 = 0x05;

/// Flash op-code: 4 KiB sector erase.
pub const SECTOR_ERASE: u8 = 0x20;

/// Flash op-code: page program.
pub const PAGE_PROGRAM: u8 = 0x02;

/// Flash op-code: read data.
pub const READ_DATA: u8 = 0x03;

/// Size of the DMA transmit and receive buffers: a 4-byte command header
/// followed by one 256-byte page.
pub const BUF_LEN: usize = 260;

/// Status register 1 bits that mean the device is not ready yet:
/// WIP (write in progress) and WEL (write enable latch).
pub const STATUS_BUSY_MASK: u8 = 0x03;

/// Byte counts of one SPI transaction, handed to the DMA channels.
#[derive(Clone, Copy, Debug, PartialEq, Eq, Structural)]
pub struct Transfer {
    /// Bytes sent from the transmit buffer (DMA1 channel 3).
    pub len_tx: u16,
    /// Bytes stored in the receive buffer (DMA1 channel 2).
    pub len_rx: u16,
}

/// The flash commands the state machines issue.
#[derive(Clone, Copy, Debug, PartialEq, Eq, Structural)]
pub enum FlashCommand {
    WriteEnable,
    PageProgram { msb: u8, mid: u8, lsb: u8 },
    SectorErase { msb: u8, mid: u8, lsb: u8 },
    Read { msb: u8, mid: u8, lsb: u8 },
    StatusCheck,
}

/// A command header with a 24-bit address written over the start of the
/// transmit buffer.
pub open spec fn address_frame(tx: Seq<u8>, opcode: u8, msb: u8, mid: u8, lsb: u8) -> Seq<u8> {
    tx.update(0, opcode).update(1, msb).update(2, mid).update(3, lsb)
}

/// The transmit buffer after a command has been written into it; the bytes
/// after the header are left as they were.
pub open spec fn frame_after(cmd: FlashCommand, tx: Seq<u8>) -> Seq<u8> {
    match cmd {
        FlashCommand::WriteEnable => tx.update(0, WRITE_ENABLE),
        FlashCommand::PageProgram { msb, mid, lsb } => address_frame(
            tx,
            PAGE_PROGRAM,
            msb,
            mid,
            lsb,
        ),
        FlashCommand::SectorErase { msb, mid, lsb } => address_frame(
            tx,
            SECTOR_ERASE,
            msb,
            mid,
            lsb,
        ),
        FlashCommand::Read { msb, mid, lsb } => address_frame(tx, READ_DATA, msb, mid, lsb),
        FlashCommand::StatusCheck => tx.update(0, READ_STATUS).update(1, 0),
    }
}

/// The DMA lengths of a command.
pub open spec fn transfer_of(cmd: FlashCommand) -> Transfer {
    match cmd {
        FlashCommand::WriteEnable => Transfer { len_tx: 1, len_rx: 0 },
        FlashCommand::PageProgram { .. } => Transfer { len_tx: 260, len_rx: 0 },
        FlashCommand::SectorErase { .. } => Transfer { len_tx: 4, len_rx: 0 },
        FlashCommand::Read { .. } => Transfer { len_tx: 260, len_rx: 260 },
        FlashCommand::StatusCheck => Transfer { len_tx: 2, len_rx: 2 },
    }
}

/// Status register 1 as received by a status poll: the byte clocked in
/// during the dummy byte, the second of the receive buffer.
pub open spec fn status_of(rx: Seq<u8>) -> u8 {
    rx[1]
}

/// Whether status register 1 reports the device as still busy.
pub open spec fn status_busy(status: u8) -> bool {
    status & STATUS_BUSY_MASK != 0
}

/// State of both flash state machines and of the flags they share with the
/// DMA interrupt handlers.
#[derive(Clone, Copy, Debug, PartialEq, Eq, Structural)]
pub struct SPI {
    /// State of the write-read machine (0 to 4; 4 means finished).
    pub counter: u8,
    /// State of the erase machine (0 to 3; 3 means finished).
    pub counter_1: u8,
    /// Guard: the command of the current state has been issued.
    pub call_done: bool,
    /// The erase sequence has completed.
    pub erase_done: bool,
    /// DMA transmit (channel 3) transfer-complete flag.
    pub tx_done: bool,
    /// DMA receive (channel 2) transfer-complete flag.
    pub rx_done: bool,
}

/// The command the write-read machine issues in a state.
pub open spec fn write_command(counter: u8, msb: u8, mid: u8, lsb: u8) -> FlashCommand {
    if counter == 0 {
        FlashCommand::WriteEnable
    } else if counter == 1 {
        FlashCommand::PageProgram { msb, mid, lsb }
    } else if counter == 2 {
        FlashCommand::StatusCheck
    } else {
        FlashCommand::Read { msb, mid, lsb }
    }
}

/// The command the erase machine issues in a state.
pub open spec fn erase_command(counter_1: u8, msb: u8, mid: u8, lsb: u8) -> FlashCommand {
    if counter_1 == 0 {
        FlashCommand::WriteEnable
    } else if counter_1 == 1 {
        FlashCommand::SectorErase { msb, mid, lsb }
    } else {
        FlashCommand::StatusCheck
    }
}

/// First half of a write-read step: in states 0 to 3 the guard is raised and,
/// unless it was already raised, the state's command is issued.
pub open spec fn write_initiate_spec(s: SPI, msb: u8, mid: u8, lsb: u8) -> (SPI, Option<
    FlashCommand,
>) {
    if s.counter <= 3 {
        (
            SPI { call_done: true, ..s },
            if s.call_done {
                None
            } else {
                Some(write_command(s.counter, msb, mid, lsb))
            },
        )
    } else {
        (s, None)
    }
}

/// Second half of a write-read step. With the bus idle and the awaited DMA
/// flag set, the flag is consumed, the stream is to be disabled, and the
/// machine moves on; while the status register reports busy it stays in the
/// polling state and polls again.
pub open spec fn write_advance_spec(s: SPI, spi_idle: bool, status: u8) -> (SPI, bool) {
    if !spi_idle {
        (s, false)
    } else if s.counter == 0 && s.tx_done {
        (SPI { tx_done: false, call_done: false, counter: 1, ..s }, true)
    } else if s.counter == 1 && s.tx_done {
        (SPI { tx_done: false, call_done: false, counter: 2, ..s }, true)
    } else if s.counter == 2 && s.rx_done {
        (
            SPI {
                rx_done: false,
                call_done: false,
                counter: if status_busy(status) {
                    2
                } else {
                    3
                },
                ..s
            },
            true,
        )
    } else if s.counter == 3 && s.rx_done {
        (
            SPI {
                rx_done: false,
                call_done: false,
                counter_1: 0,
                erase_done: false,
                counter: 4,
                ..s
            },
            true,
        )
    } else {
        (s, false)
    }
}

/// First half of an erase step (states 0 to 2).
pub open spec fn erase_initiate_spec(s: SPI, msb: u8, mid: u8, lsb: u8) -> (SPI, Option<
    FlashCommand,
>) {
    if s.counter_1 <= 2 {
        (
            SPI { call_done: true, ..s },
            if s.call_done {
                None
            } else {
                Some(erase_command(s.counter_1, msb, mid, lsb))
            },
        )
    } else {
        (s, None)
    }
}

/// Second half of an erase step. When the status poll reports the device
/// ready, the erase is complete: the write-read machine is re-armed.
pub open spec fn erase_advance_spec(s: SPI, spi_idle: bool, status: u8) -> (SPI, bool) {
    if !spi_idle {
        (s, false)
    } else if s.counter_1 == 0 && s.tx_done {
        (SPI { tx_done: false, call_done: false, counter_1: 1, ..s }, true)
    } else if s.counter_1 == 1 && s.tx_done {
        (SPI { tx_done: false, call_done: false, counter_1: 2, ..s }, true)
    } else if s.counter_1 == 2 && s.rx_done {
        if status_busy(status) {
            (SPI { rx_done: false, call_done: false, ..s }, true)
        } else {
            (
                SPI {
                    rx_done: false,
                    counter: 0,
                    erase_done: true,
                    counter_1: 3,
                    call_done: false,
                    ..s
                },
                true,
            )
        }
    } else {
        (s, false)
    }
}

/// The state after the DMA receive channel reports a completed transfer.
pub open spec fn rx_complete(s: SPI) -> SPI {
    SPI { rx_done: true, ..s }
}

/// The state after the DMA transmit channel reports a completed transfer.
pub open spec fn tx_complete(s: SPI) -> SPI {
    SPI { tx_done: true, ..s }
}

impl SPI {
    /// Both machines at their first state, no flag raised.
    pub fn new() -> (s: SPI)
        ensures
            s == (SPI {
                counter: 0,
                counter_1: 0,
                call_done: false,
                erase_done: false,
                tx_done: false,
                rx_done: false,
            }),
            s.wf(),
    {
        SPI {
            counter: 0,
            counter_1: 0,
            call_done: false,
            erase_done: false,
            tx_done: false,
            rx_done: false,
        }
    }

    /// The states both machines can be in: the erase is marked done exactly
    /// when the erase machine has finished.
    pub open spec fn wf(self) -> bool {
        &&& self.counter <= 4
        &&& self.counter_1 <= 3
        &&& self.erase_done == (self.counter_1 == 3)
    }

    /// Write enable: op-code only.
    pub fn flash_write_enable(tx: &mut [u8; BUF_LEN]) -> (t: Transfer)
        ensures
            final(tx)@ == frame_after(FlashCommand::WriteEnable, old(tx)@),
            t == transfer_of(FlashCommand::WriteEnable),
    {
        tx[0] = WRITE_ENABLE;
        Transfer { len_tx: 1, len_rx: 0 }
    }

    /// Page program at a 24-bit address: header followed by the page data
    /// already in the buffer.
    pub fn flash_page_program(tx: &mut [u8; BUF_LEN], msb: u8, mid: u8, lsb: u8) -> (t: Transfer)
        ensures
            final(tx)@ == frame_after(FlashCommand::PageProgram { msb, mid, lsb }, old(tx)@),
            t == transfer_of(FlashCommand::PageProgram { msb, mid, lsb }),
    {
        tx[0] = PAGE_PROGRAM;
        tx[1] = msb;
        tx[2] = mid;
        tx[3] = lsb;
        Transfer { len_tx: 260, len_rx: 0 }
    }

    /// Sector erase at a 24-bit address.
    pub fn flash_sector_erase(tx: &mut [u8; BUF_LEN], msb: u8, mid: u8, lsb: u8) -> (t: Transfer)
        ensures
            final(tx)@ == frame_after(FlashCommand::SectorErase { msb, mid, lsb }, old(tx)@),
            t == transfer_of(FlashCommand::SectorErase { msb, mid, lsb }),
    {
        tx[0] = SECTOR_ERASE;
        tx[1] = msb;
        tx[2] = mid;
        tx[3] = lsb;
        Transfer { len_tx: 4, len_rx: 0 }
    }

    /// Read at a 24-bit address: the whole buffer is clocked out and in.
    pub fn flash_read(tx: &mut [u8; BUF_LEN], msb: u8, mid: u8, lsb: u8) -> (t: Transfer)
        ensures
            final(tx)@ == frame_after(FlashCommand::Read { msb, mid, lsb }, old(tx)@),
            t == transfer_of(FlashCommand::Read { msb, mid, lsb }),
    {
        tx[0] = READ_DATA;
        tx[1] = msb;
        tx[2] = mid;
        tx[3] = lsb;
        Transfer { len_tx: 260, len_rx: 260 }
    }

    /// Status register read: op-code and one dummy byte; the status arrives in
    /// the second received byte.
    pub fn flash_status_check(tx: &mut [u8; BUF_LEN]) -> (t: Transfer)
        ensures
            final(tx)@ == frame_after(FlashCommand::StatusCheck, old(tx)@),
            t == transfer_of(FlashCommand::StatusCheck),
    {
        tx[0] = READ_STATUS;
        tx[1] = 0x00;
        Transfer { len_tx: 2, len_rx: 2 }
    }

    /// Writes a command into the transmit buffer and returns its lengths.
    pub fn issue(cmd: FlashCommand, tx: &mut [u8; BUF_LEN]) -> (t: Transfer)
        ensures
            final(tx)@ == frame_after(cmd, old(tx)@),
            t == transfer_of(cmd),
    {
        match cmd {
            FlashCommand::WriteEnable => SPI::flash_write_enable(tx),
            FlashCommand::PageProgram { msb, mid, lsb } => SPI::flash_page_program(
                tx,
                msb,
                mid,
                lsb,
            ),
            FlashCommand::SectorErase { msb, mid, lsb } => SPI::flash_sector_erase(
                tx,
                msb,
                mid,
                lsb,
            ),
            FlashCommand::Read { msb, mid, lsb } => SPI::flash_read(tx, msb, mid, lsb),
            FlashCommand::StatusCheck => SPI::flash_status_check(tx),
        }
    }

    /// Whether the main loop runs the erase machine on this pass (the bus is
    /// idle and the erase has not completed) rather than the write-read one.
    pub fn selects_erase(&self, spi_idle: bool) -> (erase: bool)
        ensures
            erase == (spi_idle && !self.erase_done),
    {
        spi_idle && !self.erase_done
    }

    /// First half of a write-read step. When a command is issued it has been
    /// written into `tx` and its DMA lengths are returned: the firmware then
    /// starts the stream.
    pub fn write_initiate(&mut self, tx: &mut [u8; BUF_LEN], msb: u8, mid: u8, lsb: u8) -> (t:
        Option<Transfer>)
        ensures
            ({
                let (s, c) = write_initiate_spec(*old(self), msb, mid, lsb);
                &&& *final(self) == s
                &&& match c {
                    Some(cmd) => t == Some(transfer_of(cmd)) && final(tx)@ == frame_after(
                        cmd,
                        old(tx)@,
                    ),
                    None => t is None && final(tx)@ == old(tx)@,
                }
            }),
            old(self).wf() ==> final(self).wf(),
    {
        if self.counter <= 3 {
            let issued = self.call_done;
            self.call_done = true;
            if issued {
                None
            } else {
                let cmd = if self.counter == 0 {
                    FlashCommand::WriteEnable
                } else if self.counter == 1 {
                    FlashCommand::PageProgram { msb, mid, lsb }
                } else if self.counter == 2 {
                    FlashCommand::StatusCheck
                } else {
                    FlashCommand::Read { msb, mid, lsb }
                };
                Some(SPI::issue(cmd, tx))
            }
        } else {
            None
        }
    }

    /// Second half of a write-read step, given whether the SPI bus is idle and
    /// the receive buffer (holding status register 1 after a status poll).
    /// Returns whether the stream is to be disabled.
    pub fn write_advance(&mut self, spi_idle: bool, rx: &[u8; BUF_LEN]) -> (disable: bool)
        ensures
            (*final(self), disable) == write_advance_spec(*old(self), spi_idle, status_of(rx@)),
            old(self).wf() ==> final(self).wf(),
    {
        if !spi_idle {
            return false;
        }
        if self.counter == 0 && self.tx_done {
            self.tx_done = false;
            self.call_done = false;
            self.counter = 1;
            true
        } else if self.counter == 1 && self.tx_done {
            self.tx_done = false;
            self.call_done = false;
            self.counter = 2;
            true
        } else if self.counter == 2 && self.rx_done {
            self.rx_done = false;
            self.call_done = false;
            if rx[1] & STATUS_BUSY_MASK == 0 {
                self.counter = 3;
            }
            true
        } else if self.counter == 3 && self.rx_done {
            self.rx_done = false;
            self.call_done = false;
            self.counter_1 = 0;
            self.erase_done = false;
            self.counter = 4;
            true
        } else {
            false
        }
    }

    /// First half of an erase step; see `write_initiate`.
    pub fn erase_initiate(&mut self, tx: &mut [u8; BUF_LEN], msb: u8, mid: u8, lsb: u8) -> (t:
        Option<Transfer>)
        ensures
            ({
                let (s, c) = erase_initiate_spec(*old(self), msb, mid, lsb);
                &&& *final(self) == s
                &&& match c {
                    Some(cmd) => t == Some(transfer_of(cmd)) && final(tx)@ == frame_after(
                        cmd,
                        old(tx)@,
                    ),
                    None => t is None && final(tx)@ == old(tx)@,
                }
            }),
            old(self).wf() ==> final(self).wf(),
    {
        if self.counter_1 <= 2 {
            let issued = self.call_done;
            self.call_done = true;
            if issued {
                None
            } else {
                let cmd = if self.counter_1 == 0 {
                    FlashCommand::WriteEnable
                } else if self.counter_1 == 1 {
                    FlashCommand::SectorErase { msb, mid, lsb }
                } else {
                    FlashCommand::StatusCheck
                };
                Some(SPI::issue(cmd, tx))
            }
        } else {
            None
        }
    }

    /// Second half of an erase step; see `write_advance`.
    pub fn erase_advance(&mut self, spi_idle: bool, rx: &[u8; BUF_LEN]) -> (disable: bool)
        ensures
            (*final(self), disable) == erase_advance_spec(*old(self), spi_idle, status_of(rx@)),
            old(self).wf() ==> final(self).wf(),
    {
        if !spi_idle {
            return false;
        }
        if self.counter_1 == 0 && self.tx_done {
            self.tx_done = false;
            self.call_done = false;
            self.counter_1 = 1;
            true
        } else if self.counter_1 == 1 && self.tx_done {
            self.tx_done = false;
            self.call_done = false;
            self.counter_1 = 2;
            true
        } else if self.counter_1 == 2 && self.rx_done {
            self.rx_done = false;
            if rx[1] & STATUS_BUSY_MASK == 0 {
                self.counter = 0;
                self.erase_done = true;
                self.counter_1 = 3;
            }
            self.call_done = false;
            true
        } else {
            false
        }
    }
}

/// DMA1 channel 2 (reception) interrupt: a completed transfer raises the
/// receive flag. Returns whether the transfer-complete flag is to be cleared.
pub fn DMA1_CH2(state: &mut SPI, transfer_complete: bool) -> (clear: bool)
    ensures
        clear == transfer_complete,
        *final(state) == (if transfer_complete {
            rx_complete(*old(state))
        } else {
            *old(state)
        }),
{
    if transfer_complete {
        state.rx_done = true;
    }
    transfer_complete
}

/// DMA1 channel 3 (transmission) interrupt: a completed transfer raises the
/// transmit flag. Returns whether the transfer-complete flag is to be cleared.
pub fn DMA1_CH3(state: &mut SPI, transfer_complete: bool) -> (clear: bool)
    ensures
        clear == transfer_complete,
        *final(state) == (if transfer_complete {
            tx_complete(*old(state))
        } else {
            *old(state)
        }),
{
    if transfer_complete {
        state.tx_done = true;
    }
    transfer_complete
}

/// A command is issued at most once per state: a second initiation in the
/// same state issues nothing and changes nothing.
pub proof fn lemma_initiate_issues_once(s: SPI, msb: u8, mid: u8, lsb: u8)
    ensures
        ({
            let (s1, c1) = write_initiate_spec(s, msb, mid, lsb);
            write_initiate_spec(s1, msb, mid, lsb) == (s1, None::<FlashCommand>)
        }),
        ({
            let (s1, c1) = erase_initiate_spec(s, msb, mid, lsb);
            erase_initiate_spec(s1, msb, mid, lsb) == (s1, None::<FlashCommand>)
        }),
{
}

/// The write-read machine never moves backwards, and moves at most one state
/// per step.
pub proof fn lemma_write_progress(s: SPI, spi_idle: bool, status: u8)
    ensures
        ({
            let (s1, d) = write_advance_spec(s, spi_idle, status);
            &&& s.counter <= s1.counter <= s.counter + 1
            &&& d ==> s.counter <= 3
        }),
{
}

/// While status register 1 reports the device busy, the write-read machine
/// stays in its polling state and issues another status read.
pub proof fn lemma_busy_device_is_polled_again(s: SPI, status: u8, msb: u8, mid: u8, lsb: u8)
    requires
        s.counter == 2,
        s.rx_done,
        status_busy(status),
    ensures
        ({
            let (s1, d) = write_advance_spec(s, true, status);
            &&& d
            &&& s1.counter == 2
            &&& write_initiate_spec(s1, msb, mid, lsb).1 == Some(FlashCommand::StatusCheck)
        }),
{
}

/// The write-read sequence: with the bus idle, each DMA transfer completing
/// and the device reporting ready, the machine issues write enable, page
/// program at the given address, a status poll and a read back of the same
/// address, and
/// ends finished with the erase machine re-armed.
pub proof fn lemma_write_read_sequence(s0: SPI, msb: u8, mid: u8, lsb: u8, status: u8)
    requires
        s0.counter == 0,
        !s0.call_done,
        !status_busy(status),
    ensures
        ({
            let (s1, c1) = write_initiate_spec(s0, msb, mid, lsb);
            let (s2, d2) = write_advance_spec(tx_complete(s1), true, status);
            let (s3, c3) = write_initiate_spec(s2, msb, mid, lsb);
            let (s4, d4) = write_advance_spec(tx_complete(s3), true, status);
            let (s5, c5) = write_initiate_spec(s4, msb, mid, lsb);
            let (s6, d6) = write_advance_spec(rx_complete(s5), true, status);
            let (s7, c7) = write_initiate_spec(s6, msb, mid, lsb);
            let (s8, d8) = write_advance_spec(rx_complete(s7), true, status);
            &&& c1 == Some(FlashCommand::WriteEnable)
            &&& c3 == Some(FlashCommand::PageProgram { msb, mid, lsb })
            &&& c5 == Some(FlashCommand::StatusCheck)
            &&& c7 == Some(FlashCommand::Read { msb, mid, lsb })
            &&& d2 && d4 && d6 && d8
            &&& s8.counter == 4
            &&& s8.counter_1 == 0
            &&& !s8.erase_done
            &&& !s8.call_done
            &&& write_initiate_spec(s8, msb, mid, lsb).1 is None
        }),
{
}

/// The erase sequence: write enable, sector erase at the given address and a
/// status poll; once the device reports ready the erase is marked done and
/// the write-read machine restarts from its first state.
pub proof fn lemma_erase_sequence(s0: SPI, msb: u8, mid: u8, lsb: u8, status: u8)
    requires
        s0.counter_1 == 0,
        !s0.call_done,
        !status_busy(status),
    ensures
        ({
            let (s1, c1) = erase_initiate_spec(s0, msb, mid, lsb);
            let (s2, d2) = erase_advance_spec(tx_complete(s1), true, status);
            let (s3, c3) = erase_initiate_spec(s2, msb, mid, lsb);
            let (s4, d4) = erase_advance_spec(tx_complete(s3), true, status);
            let (s5, c5) = erase_initiate_spec(s4, msb, mid, lsb);
            let (s6, d6) = erase_advance_spec(rx_complete(s5), true, status);
            &&& c1 == Some(FlashCommand::WriteEnable)
            &&& c3 == Some(FlashCommand::SectorErase { msb, mid, lsb })
            &&& c5 == Some(FlashCommand::StatusCheck)
            &&& d2 && d4 && d6
            &&& s6.erase_done
            &&& s6.counter == 0
            &&& s6.counter_1 == 3
            &&& !s6.call_done
            &&& erase_initiate_spec(s6, msb, mid, lsb).1 is None
            &&& write_initiate_spec(s6, msb, mid, lsb).1 == Some(FlashCommand::WriteEnable)
        }),
{
}

} // verus!

verus! {

/// While the SPI bus is busy the write-read machine waits: whatever its state
/// and the received bytes, it neither moves nor asks for the stream to be
/// disabled.
pub proof fn lemma_write_waits_for_idle_bus(s: SPI, status: u8)
    ensures
        write_advance_spec(s, false, status) == (s, false),
{
}

/// While the SPI bus is busy the erase machine waits: whatever its state and
/// the received bytes, it neither moves nor asks for the stream to be
/// disabled.
pub proof fn lemma_erase_waits_for_idle_bus(s: SPI, status: u8)
    ensures
        erase_advance_spec(s, false, status) == (s, false),
{
}

/// Every command only writes its header: the buffer keeps its length, the
/// header holds the op-code and address, and every byte after the header (the
/// page data of a page program) is left as it was.
pub proof fn lemma_frames_keep_payload(tx: Seq<u8>, msb: u8, mid: u8, lsb: u8)
    requires
        tx.len() == BUF_LEN,
    ensures
        ({
            let f = frame_after(FlashCommand::PageProgram { msb, mid, lsb }, tx);
            &&& f.len() == tx.len()
            &&& f[0] == PAGE_PROGRAM && f[1] == msb && f[2] == mid && f[3] == lsb
            &&& forall|i: int| 4 <= i < tx.len() ==> #[trigger] f[i] == tx[i]
        }),
        ({
            let f = frame_after(FlashCommand::SectorErase { msb, mid, lsb }, tx);
            &&& f.len() == tx.len()
            &&& f[0] == SECTOR_ERASE && f[1] == msb && f[2] == mid && f[3] == lsb
            &&& forall|i: int| 4 <= i < tx.len() ==> #[trigger] f[i] == tx[i]
        }),
        ({
            let f = frame_after(FlashCommand::Read { msb, mid, lsb }, tx);
            &&& f.len() == tx.len()
            &&& f[0] == READ_DATA && f[1] == msb && f[2] == mid && f[3] == lsb
            &&& forall|i: int| 4 <= i < tx.len() ==> #[trigger] f[i] == tx[i]
        }),
        ({
            let f = frame_after(FlashCommand::WriteEnable, tx);
            &&& f.len() == tx.len()
            &&& f[0] == WRITE_ENABLE
            &&& forall|i: int| 1 <= i < tx.len() ==> #[trigger] f[i] == tx[i]
        }),
        ({
            let f = frame_after(FlashCommand::StatusCheck, tx);
            &&& f.len() == tx.len()
            &&& f[0] == READ_STATUS && f[1] == 0
            &&& forall|i: int| 2 <= i < tx.len() ==> #[trigger] f[i] == tx[i]
        }),
{
}

} // verus!
