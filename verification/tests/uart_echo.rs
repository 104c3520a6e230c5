use stm32l4_drivers::uart_echo::{IdleOutcome, DMA1_CH7, SIZE, UART, USART2};

#[test]
fn brr_is_the_divider() {
    let u = UART { baud: 0x1A0 };
    assert_eq!(u.brr(), 416);
    // 4 MHz / 9600 baud with 16x oversampling
    assert_eq!(4_000_000u32 / 9600, u.brr());
}

#[test]
fn echo_on_line_feed() {
    let mut rx = [0u8; SIZE];
    rx[..5].copy_from_slice(b"abcd\n");
    assert_eq!(USART2(true, 95, &rx), IdleOutcome { clear_idle: true, echo: Some(5) });
}

#[test]
fn echo_on_carriage_return() {
    let mut rx = [0u8; SIZE];
    rx[..3].copy_from_slice(b"hi\r");
    assert_eq!(USART2(true, 97, &rx).echo, Some(3));
}

#[test]
fn no_echo_without_terminator() {
    let mut rx = [0u8; SIZE];
    rx[..4].copy_from_slice(b"abcd");
    assert_eq!(USART2(true, 96, &rx), IdleOutcome { clear_idle: true, echo: None });
}

#[test]
fn no_echo_when_nothing_received() {
    let rx = [b'\n'; SIZE];
    assert_eq!(USART2(true, 100, &rx), IdleOutcome { clear_idle: true, echo: None });
}

#[test]
fn full_buffer_is_echoed() {
    let mut rx = [b'x'; SIZE];
    rx[SIZE - 1] = b'\n';
    assert_eq!(USART2(true, 0, &rx).echo, Some(100));
}

#[test]
fn only_low_byte_of_count_register_counts() {
    let mut rx = [0u8; SIZE];
    rx[9] = b'\r';
    assert_eq!(USART2(true, 0x0100 + 90, &rx).echo, Some(10));
}

#[test]
fn no_idle_no_action() {
    let rx = [b'\n'; SIZE];
    assert_eq!(USART2(false, 1000, &rx), IdleOutcome { clear_idle: false, echo: None });
}

#[test]
fn transmit_complete_restarts_reception() {
    assert_eq!(DMA1_CH7(true), Some(100));
    assert_eq!(DMA1_CH7(false), None);
}
