use stm32l4_drivers::tsl::{
    channel, duty, filter, power_on, state_machine, tsl_read, tsl_write, visible, I2cRequest,
    RxTarget, TslAction, TslState, I2C1_EV, MAX_VISIBLE, PWM_PERIOD,
};

#[test]
fn channel_is_little_endian() {
    assert_eq!(channel([0x34, 0x12]), 0x1234);
    assert_eq!(channel([0xFF, 0xFF]), 0xFFFF);
    assert_eq!(channel([0x10, 0x27]), 10000);
}

#[test]
fn visible_subtracts_ir_saturating_and_caps() {
    assert_eq!(visible(5000, 1200), 3800);
    assert_eq!(visible(1000, 3000), 0);
    assert_eq!(visible(60000, 100), 10000);
    assert_eq!(visible(10000, 0), 10000);
    assert_eq!(visible(9999, 0), 9999);
}

#[test]
fn ema_filter_values() {
    assert_eq!(filter(0, 4321), 4321);
    assert_eq!(filter(1600, 0), 1500);
    assert_eq!(filter(1000, 2600), 1100);
    assert_eq!(filter(10000, 10000), 10000);
    assert_eq!(filter(777, 777), 777);
}

#[test]
fn duty_mapping_stays_within_period() {
    assert_eq!(duty(0), 1);
    assert_eq!(duty(5000), 1000);
    assert_eq!(duty(MAX_VISIBLE), PWM_PERIOD);
    let mut last = 0;
    for f in (0..=MAX_VISIBLE).step_by(97) {
        let c = duty(f);
        assert!(1 <= c && c <= PWM_PERIOD);
        assert!(c >= last);
        last = c;
    }
}

#[test]
fn write_and_read_requests() {
    let mut buf = [0u8; 2];
    let req = tsl_write(&mut buf, 0x81, 0x01, 2);
    assert_eq!(buf, [0x81, 0x01]);
    assert_eq!(req, I2cRequest { slave_addr: 0x39, len: 2, read: false });
    assert_eq!(req.sadd(), 0x72);
    let req = tsl_read(2);
    assert_eq!(req, I2cRequest { slave_addr: 0x39, len: 2, read: true });
    assert_eq!(power_on(), TslAction::Write { reg: 0x80, data: 0x03, len: 2 });
}

#[test]
fn measurement_cycle() {
    let mut s = TslState::new();
    let vis = [0x10, 0x27]; // 10000
    let ir = [0xE8, 0x03]; // 1000
    let mut actions = Vec::new();
    for _ in 0..6 {
        actions.push(state_machine(&mut s, vis, ir));
    }
    assert_eq!(
        actions,
        vec![
            TslAction::Write { reg: 0x81, data: 0x01, len: 2 },
            TslAction::Write { reg: 0xAC, data: 0x00, len: 1 },
            TslAction::Read { target: RxTarget::VisibleIr, len: 2 },
            TslAction::Write { reg: 0xAE, data: 0x00, len: 1 },
            TslAction::Read { target: RxTarget::Ir, len: 2 },
            TslAction::SetDuty { ccr: 1800 },
        ]
    );
    assert_eq!(s, TslState { cnt: 2, filtered: 9000, done: true });
    // the next cycle smooths towards the new reading
    let dark = [0x00, 0x00];
    for _ in 0..4 {
        state_machine(&mut s, dark, dark);
    }
    assert_eq!(state_machine(&mut s, dark, dark), TslAction::SetDuty { ccr: 1 + 8437 * 1999 / 10000 });
    assert_eq!(s.filtered, 8437);
}

#[test]
fn done_flag_round_trip() {
    let mut s = TslState::new();
    assert!(!s.take_done());
    assert!(!I2C1_EV(&mut s, false));
    assert!(!s.take_done());
    assert!(I2C1_EV(&mut s, true));
    assert!(s.take_done());
    assert!(!s.take_done());
}

#[test]
fn unknown_step_does_nothing() {
    let mut s = TslState { cnt: 7, filtered: 1234, done: false };
    assert_eq!(state_machine(&mut s, [1, 2], [3, 4]), TslAction::Nothing);
    assert_eq!(s, TslState { cnt: 7, filtered: 1234, done: false });
}
