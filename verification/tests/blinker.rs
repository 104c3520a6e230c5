use stm32l4_drivers::blinker::{toggle_led, Blinker, Speed, EXTI0, SPEED_STATES, TIM2};

#[test]
fn count_maps_presses_to_speeds() {
    assert_eq!(Speed::count(0), Speed::Slow);
    assert_eq!(Speed::count(1), Speed::Medium);
    assert_eq!(Speed::count(2), Speed::High);
    assert_eq!(Speed::count(3), Speed::VeryHigh);
}

#[test]
fn unexpected_counts_blink_slowly() {
    assert_eq!(Speed::count(4), Speed::Slow);
    assert_eq!(Speed::count(255), Speed::Slow);
    assert_eq!(Speed::state_machine(17), 1000);
}

#[test]
fn state_machine_gives_readme_delays() {
    assert_eq!(Speed::state_machine(0), 1000);
    assert_eq!(Speed::state_machine(1), 500);
    assert_eq!(Speed::state_machine(2), 200);
    assert_eq!(Speed::state_machine(3), 90);
}

#[test]
fn presses_speed_up_then_wrap() {
    let mut b = Blinker::new();
    let mut delays = vec![Speed::state_machine(b.counter)];
    for _ in 0..4 {
        assert!(EXTI0(&mut b, true));
        delays.push(Speed::state_machine(b.counter));
    }
    assert_eq!(delays, vec![1000, 500, 200, 90, 1000]);
    assert_eq!(b.counter, 0);
}

#[test]
fn four_presses_restore_each_speed() {
    for start in 0..SPEED_STATES {
        let mut b = Blinker { counter: start, toggle: false };
        for _ in 0..4 {
            EXTI0(&mut b, true);
        }
        assert_eq!(b.counter, start);
    }
}

#[test]
fn exti_without_pending_bit_counts_nothing() {
    let mut b = Blinker { counter: 2, toggle: true };
    assert!(!EXTI0(&mut b, false));
    assert_eq!(b, Blinker { counter: 2, toggle: true });
}

#[test]
fn exti_counter_wraps_like_the_atomic() {
    let mut b = Blinker { counter: 255, toggle: false };
    EXTI0(&mut b, true);
    assert_eq!(b.counter, 0);
    let mut b = Blinker { counter: 9, toggle: false };
    EXTI0(&mut b, true);
    assert_eq!(b.counter, 10);
}

#[test]
fn toggle_flag_is_consumed_once() {
    let mut b = Blinker::new();
    assert!(b.take_toggle());
    assert!(!b.take_toggle());
    assert!(!TIM2(&mut b, false));
    assert!(!b.take_toggle());
    assert!(TIM2(&mut b, true));
    assert!(b.take_toggle());
    assert!(!b.take_toggle());
}

#[test]
fn toggle_led_flips_only_pin_zero() {
    assert_eq!(toggle_led(0), 1);
    assert_eq!(toggle_led(1), 0);
    assert_eq!(toggle_led(0xABCD_0000), 0xABCD_0001);
    assert_eq!(toggle_led(toggle_led(0x1234_5677)), 0x1234_5677);
}
