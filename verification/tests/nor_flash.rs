use stm32l4_drivers::nor_flash::{
    Transfer, BUF_LEN, DMA1_CH2, DMA1_CH3, PAGE_PROGRAM, READ_DATA, READ_STATUS, SECTOR_ERASE,
    SPI, WRITE_ENABLE,
};

fn fresh_tx() -> [u8; BUF_LEN] {
    [0x37; BUF_LEN]
}

/// A receive buffer whose status byte (the second one) is `status`.
fn rx_with_status(status: u8) -> [u8; BUF_LEN] {
    let mut rx = [0xFF; BUF_LEN];
    rx[0] = 0xAA;
    rx[1] = status;
    rx
}

#[test]
fn frames_match_the_op_codes() {
    let mut tx = fresh_tx();
    assert_eq!(SPI::flash_write_enable(&mut tx), Transfer { len_tx: 1, len_rx: 0 });
    assert_eq!(tx[0], 0x06);
    assert_eq!(tx[1], 0x37);

    let mut tx = fresh_tx();
    assert_eq!(SPI::flash_page_program(&mut tx, 0x00, 0xF0, 0x00), Transfer { len_tx: 260, len_rx: 0 });
    assert_eq!(&tx[..5], &[0x02, 0x00, 0xF0, 0x00, 0x37]);

    let mut tx = fresh_tx();
    assert_eq!(SPI::flash_sector_erase(&mut tx, 0x12, 0x34, 0x56), Transfer { len_tx: 4, len_rx: 0 });
    assert_eq!(&tx[..4], &[0x20, 0x12, 0x34, 0x56]);

    let mut tx = fresh_tx();
    assert_eq!(SPI::flash_read(&mut tx, 0x00, 0xF0, 0x00), Transfer { len_tx: 260, len_rx: 260 });
    assert_eq!(&tx[..4], &[0x03, 0x00, 0xF0, 0x00]);

    let mut tx = fresh_tx();
    assert_eq!(SPI::flash_status_check(&mut tx), Transfer { len_tx: 2, len_rx: 2 });
    assert_eq!(&tx[..3], &[0x05, 0x00, 0x37]);

    assert_eq!([WRITE_ENABLE, READ_STATUS, SECTOR_ERASE, PAGE_PROGRAM, READ_DATA], [0x06, 0x05, 0x20, 0x02, 0x03]);
}

#[test]
fn command_issued_once_per_state() {
    let mut s = SPI::new();
    let mut tx = fresh_tx();
    assert!(s.write_initiate(&mut tx, 1, 2, 3).is_some());
    tx[0] = 0;
    assert_eq!(s.write_initiate(&mut tx, 1, 2, 3), None);
    assert_eq!(tx[0], 0);
    assert_eq!(s.erase_initiate(&mut tx, 1, 2, 3), None);
}

#[test]
fn advance_waits_for_idle_bus_and_dma_flag() {
    let mut s = SPI::new();
    let mut tx = fresh_tx();
    s.write_initiate(&mut tx, 0, 0xF0, 0);
    assert!(!s.write_advance(true, &rx_with_status(0)));
    assert!(DMA1_CH3(&mut s, true));
    assert!(!s.write_advance(false, &rx_with_status(0)));
    assert!(s.tx_done);
    assert!(s.write_advance(true, &rx_with_status(0)));
    assert_eq!(s.counter, 1);
    assert!(!s.tx_done);
    assert!(!s.call_done);
}

#[test]
fn write_read_sequence() {
    let mut s = SPI::new();
    let mut tx = fresh_tx();
    let mut sent = Vec::new();
    for step in 0..4 {
        let t = s.write_initiate(&mut tx, 0x12, 0x34, 0x56).unwrap();
        sent.push(([tx[0], tx[1], tx[2], tx[3]], t));
        if step < 2 {
            DMA1_CH3(&mut s, true);
        } else {
            DMA1_CH2(&mut s, true);
        }
        assert!(s.write_advance(true, &rx_with_status(0x00)));
    }
    assert_eq!(
        sent,
        vec![
            ([0x06, 0x37, 0x37, 0x37], Transfer { len_tx: 1, len_rx: 0 }),
            ([0x02, 0x12, 0x34, 0x56], Transfer { len_tx: 260, len_rx: 0 }),
            ([0x05, 0x00, 0x34, 0x56], Transfer { len_tx: 2, len_rx: 2 }),
            ([0x03, 0x12, 0x34, 0x56], Transfer { len_tx: 260, len_rx: 260 }),
        ]
    );
    assert_eq!(s.counter, 4);
    assert_eq!(s.counter_1, 0);
    assert!(!s.erase_done);
    assert_eq!(s.write_initiate(&mut tx, 0x12, 0x34, 0x56), None);
    assert!(s.selects_erase(true));
}

#[test]
fn status_is_the_second_received_byte() {
    let mut s = SPI { counter: 2, counter_1: 3, call_done: true, erase_done: true, tx_done: false, rx_done: true };
    let mut rx = rx_with_status(0x00);
    rx[0] = 0x03;
    assert!(s.write_advance(true, &rx));
    assert_eq!(s.counter, 3);
    let mut s = SPI { counter: 2, counter_1: 3, call_done: true, erase_done: true, tx_done: false, rx_done: true };
    let mut rx = rx_with_status(0x01);
    rx[2] = 0x00;
    assert!(s.write_advance(true, &rx));
    assert_eq!(s.counter, 2);
}

#[test]
fn busy_status_is_polled_again() {
    let mut s = SPI { counter: 2, counter_1: 3, call_done: false, erase_done: true, tx_done: false, rx_done: false };
    let mut tx = fresh_tx();
    for status in [0x03u8, 0x01, 0x02] {
        let rx = rx_with_status(status);
        assert_eq!(s.write_initiate(&mut tx, 0, 0, 0), Some(Transfer { len_tx: 2, len_rx: 2 }));
        DMA1_CH2(&mut s, true);
        assert!(s.write_advance(true, &rx));
        assert_eq!(s.counter, 2);
    }
    s.write_initiate(&mut tx, 0, 0, 0);
    DMA1_CH2(&mut s, true);
    assert!(s.write_advance(true, &rx_with_status(0xFC)));
    assert_eq!(s.counter, 3);
}

#[test]
fn erase_sequence() {
    let mut s = SPI::new();
    assert!(s.selects_erase(true));
    assert!(!s.selects_erase(false));
    let mut tx = fresh_tx();
    assert_eq!(s.erase_initiate(&mut tx, 0x00, 0xF0, 0x00), Some(Transfer { len_tx: 1, len_rx: 0 }));
    DMA1_CH3(&mut s, true);
    assert!(s.erase_advance(true, &rx_with_status(0)));
    assert_eq!(s.erase_initiate(&mut tx, 0x00, 0xF0, 0x00), Some(Transfer { len_tx: 4, len_rx: 0 }));
    assert_eq!(&tx[..4], &[0x20, 0x00, 0xF0, 0x00]);
    DMA1_CH3(&mut s, true);
    assert!(s.erase_advance(true, &rx_with_status(0)));
    assert_eq!(s.erase_initiate(&mut tx, 0x00, 0xF0, 0x00), Some(Transfer { len_tx: 2, len_rx: 2 }));
    DMA1_CH2(&mut s, true);
    assert!(s.erase_advance(true, &rx_with_status(0x01)));
    assert_eq!(s.counter_1, 2);
    assert!(!s.erase_done);
    assert!(s.erase_initiate(&mut tx, 0x00, 0xF0, 0x00).is_some());
    DMA1_CH2(&mut s, true);
    assert!(s.erase_advance(true, &rx_with_status(0x00)));
    assert!(s.erase_done);
    assert_eq!(s.counter, 0);
    assert_eq!(s.counter_1, 3);
    assert_eq!(s.erase_initiate(&mut tx, 0x00, 0xF0, 0x00), None);
    assert!(!s.selects_erase(true));
    assert_eq!(s.write_initiate(&mut tx, 0x00, 0xF0, 0x00), Some(Transfer { len_tx: 1, len_rx: 0 }));
}

#[test]
fn finished_machines_do_nothing() {
    let mut s = SPI { counter: 4, counter_1: 3, call_done: false, erase_done: true, tx_done: true, rx_done: true };
    let before = s;
    let mut tx = fresh_tx();
    assert_eq!(s.write_initiate(&mut tx, 0, 0, 0), None);
    assert!(!s.write_advance(true, &rx_with_status(0)));
    assert_eq!(s.erase_initiate(&mut tx, 0, 0, 0), None);
    assert!(!s.erase_advance(true, &rx_with_status(0)));
    assert_eq!(s, before);
}

#[test]
fn dma_interrupts_raise_flags() {
    let mut s = SPI::new();
    assert!(!DMA1_CH2(&mut s, false));
    assert!(!DMA1_CH3(&mut s, false));
    assert_eq!(s, SPI::new());
    assert!(DMA1_CH2(&mut s, true));
    assert!(s.rx_done && !s.tx_done);
    assert!(DMA1_CH3(&mut s, true));
    assert!(s.tx_done);
}
