use sam::command::{
    command_output, disable_battery_power, disable_rbftag, enable_battery_power, enable_rbftag, execute, get_cs_mappings,
    init_gpio, reco_disable, SamControlMessage,
};
use sam::controllers::Controllers;
use sam::gpio::{apply, BitOp, Gpio, Pin, PinMode, PinValue};
use sam::pinout::{
    data_ready_mappings, gpio_controller_mappings, init_valve_sel_pins, pull_gpios_high, sam_safe_state, sam_safe_state_ops,
};
use sam::adc::{Adc, Measurement};
use sam::state::{abort, handshake_step, Action, HandshakeEvent, HandshakeStep, Outcome, State};

#[test]
fn pin_mode_uses_inverted_enable_convention() {
    let mut g = Gpio::open(1);
    let p = g.get_pin(5);
    p.mode(&mut g, PinMode::Output);
    assert_eq!(g.oe, 0xFFFF_FFFF & !(1 << 5));
    p.mode(&mut g, PinMode::Input);
    assert_eq!(g.oe, 0xFFFF_FFFF);
}

#[test]
fn pin_write_and_read_touch_one_bit() {
    let mut g = Gpio::open(0);
    let p = g.get_pin(31);
    p.digital_write(&mut g, PinValue::High);
    assert_eq!(g.dataout, 0x8000_0000);
    p.digital_write(&mut g, PinValue::Low);
    assert_eq!(g.dataout, 0);
    g.datain = 0x8000_0001;
    assert_eq!(p.digital_read(&g), PinValue::High);
    assert_eq!(g.get_pin(1).digital_read(&g), PinValue::Low);
    assert_eq!(g.get_pin(0).digital_read(&g), PinValue::High);
}

#[test]
fn bit_ops_set_and_clear() {
    assert_eq!(apply(0b1010, BitOp::SetBits(0b0101)), 0b1111);
    assert_eq!(apply(0b1010, BitOp::ClearBits(0b0010)), 0b1000);
    let p = Pin { bank: 2, index: 3 };
    assert_eq!(p.mode_op(PinMode::Input), BitOp::SetBits(8));
    assert_eq!(p.write_op(PinValue::Low), BitOp::ClearBits(8));
}

#[test]
fn battery_and_tag_outputs() {
    let mut c = Controllers::open_controllers();
    enable_battery_power(&mut c);
    assert_eq!(c.banks[1].dataout, 1 << 29);
    assert_eq!(c.banks[1].oe, !(1u32 << 29));
    disable_battery_power(&mut c);
    assert_eq!(c.banks[1].dataout, 0);
    enable_rbftag(&mut c);
    assert_eq!(c.banks[2].dataout, 1 << 2);
    disable_rbftag(&mut c);
    assert_eq!(c.banks[2].dataout, 0);
    assert_eq!(c.banks[2].oe, !(1u32 << 2));
}

#[test]
fn reco_disable_rejects_unknown_channel() {
    let mut c = Controllers::open_controllers();
    let before = c.banks.clone();
    assert!(!reco_disable(&mut c, 0));
    assert!(!reco_disable(&mut c, 5));
    assert_eq!(c.banks, before);
    assert!(reco_disable(&mut c, 2));
    assert_eq!(c.banks[2].oe, !(1u32 << 1));
}

#[test]
fn init_gpio_sets_safe_pattern() {
    let mut c = Controllers::open_controllers();
    for b in c.banks.iter_mut() {
        b.dataout = 0xFFFF_FFFF;
    }
    init_gpio(&mut c);
    assert_eq!(c.banks[0].oe, !0x0000_C000u32);
    assert_eq!(c.banks[0].dataout, 0xFFFF_FFFF);
    assert_eq!(c.banks[1].oe, !0x2140_4000u32);
    assert_eq!(c.banks[1].dataout, !0x2140_4000u32);
    assert_eq!(c.banks[2].oe, !0x6u32);
    assert_eq!(c.banks[2].dataout, !0x2u32);
    assert_eq!(c.banks[3].oe, 0xFFFF_FFFF);
    assert_eq!(c.banks[3].dataout, 0xFFFF_FFFF);
}

#[test]
fn abort_twice_equals_abort_once() {
    let mut once = Controllers::open_controllers();
    enable_battery_power(&mut once);
    reco_disable(&mut once, 3);
    once.banks[2].dataout = 0x1234_5678;
    let mut twice = Controllers { banks: once.banks.clone() };
    abort(&mut once);
    abort(&mut twice);
    abort(&mut twice);
    assert_eq!(once.banks, twice.banks);
    assert_eq!(once.banks[1].dataout & (1 << 29), 0);
}

#[test]
fn execute_battery_command() {
    let mut c = Controllers::open_controllers();
    assert!(execute(&mut c, SamControlMessage::ActuateValve { channel: 20, powered: true }));
    assert_eq!(c.banks[1].dataout, 1 << 29);
    assert!(execute(&mut c, SamControlMessage::ActuateValve { channel: 20, powered: false }));
    assert_eq!(c.banks[1].dataout, 0);
    let before = c.banks.clone();
    assert!(!execute(&mut c, SamControlMessage::ActuateValve { channel: 3, powered: true }));
    assert_eq!(c.banks, before);
}

#[test]
fn cs_mappings_are_outputs() {
    let mut c = Controllers::open_controllers();
    let pins = get_cs_mappings(&mut c);
    assert_eq!(pins, vec![Pin { bank: 0, index: 14 }, Pin { bank: 0, index: 15 }]);
    assert_eq!(c.banks[0].oe, !0x0000_C000u32);
}

#[test]
fn chip_selects_deasserted_high() {
    let mut c = Controllers::open_controllers();
    pull_gpios_high(&mut c);
    assert_eq!(c.banks[0].dataout, (1 << 30) | (1 << 31));
    assert_eq!(c.banks[1].dataout, (1 << 13) | (1 << 16));
    assert_eq!(c.banks[2].dataout, (1 << 5) | (1 << 2));
    assert_eq!(c.banks[0].oe, !((1u32 << 30) | (1 << 31)));
    let sel = init_valve_sel_pins(&mut c);
    assert_eq!(sel.len(), 3);
    assert_eq!(c.banks[3].dataout, 1 << 19);
    let cs = gpio_controller_mappings(&mut c);
    assert_eq!(cs.len(), 6);
}

#[test]
fn data_ready_lines_are_inputs_and_read_active_low() {
    let mut c = Controllers::open_controllers();
    for b in c.banks.iter_mut() {
        b.oe = 0;
    }
    let drdy = data_ready_mappings(&mut c);
    assert_eq!(drdy.len(), 7);
    assert_eq!(c.banks[3].oe, 1 << 17);
    let adc = Adc::new(Measurement::CurrentLoopPt);
    c.banks[3].datain = 1 << 17;
    assert!(!adc.data_ready(&c));
    c.banks[3].datain = 0;
    assert!(adc.data_ready(&c));
    assert!(Adc::new(Measurement::Tc1).data_ready(&c));
}

#[test]
fn chip_select_toggles_only_own_pin() {
    let mut c = Controllers::open_controllers();
    let adc = Adc::new(Measurement::Rtd2);
    adc.pull_cs_high_active_low(&mut c);
    assert_eq!(c.banks[2].dataout, 1 << 5);
    adc.pull_cs_low_active_low(&mut c);
    assert_eq!(c.banks[2].dataout, 0);
    let before = c.banks.clone();
    Adc::new(Measurement::CurrentLoopPt).pull_cs_high_active_low(&mut c);
    assert_eq!(c.banks, before);
}

#[test]
fn state_machine_runs_a_session_and_recovers() {
    let mut s = State::Init;
    assert_eq!(s.action(), Action::InitHardware);
    s = s.next(Outcome::Done);
    assert_eq!(s, State::Connect);
    s = s.next(Outcome::ConnectFailed);
    assert_eq!(s, State::Connect);
    assert_eq!(s.action(), Action::Handshake);
    s = s.next(Outcome::Done);
    for k in 0..3u64 {
        assert_eq!(s.action(), Action::Poll { poll: k });
        s = s.next(Outcome::Done);
    }
    s = s.next(Outcome::AbortSignaled);
    assert_eq!(s, State::Abort);
    assert_eq!(s.action(), Action::SafeOutputs);
    s = s.next(Outcome::Done);
    assert_eq!(s, State::Connect);
    assert_eq!(State::Init.next(Outcome::AbortSignaled), State::Init);
    assert_eq!(State::MainLoop { poll: u64::MAX }.next(Outcome::Done), State::MainLoop { poll: 0 });
}

#[test]
fn command_output_picks_battery_output() {
    assert_eq!(
        command_output(SamControlMessage::ActuateValve { channel: 20, powered: false }),
        Some((Pin { bank: 1, index: 29 }, PinValue::Low))
    );
    assert_eq!(command_output(SamControlMessage::ActuateValve { channel: 21, powered: true }), None);
}

#[test]
fn handshake_retries_are_bounded() {
    assert_eq!(handshake_step(1, HandshakeEvent::Acknowledged), HandshakeStep::Connected);
    assert_eq!(handshake_step(4, HandshakeEvent::NoReply), HandshakeStep::SendIdentity);
    assert_eq!(handshake_step(5, HandshakeEvent::NoReply), HandshakeStep::GiveUp);
    assert_eq!(handshake_step(5, HandshakeEvent::Acknowledged), HandshakeStep::Connected);
}

#[test]
fn acquisition_safe_state_twice_equals_once() {
    let mut once = Controllers::open_controllers();
    for b in once.banks.iter_mut() {
        b.dataout = 0x0000_1111;
    }
    let mut twice = Controllers { banks: once.banks.clone() };
    sam_safe_state(&mut once);
    sam_safe_state(&mut twice);
    sam_safe_state(&mut twice);
    assert_eq!(once.banks, twice.banks);
    assert_eq!(once.banks[0].oe, !0xC0C0_0000u32);
    assert_eq!(once.banks[0].dataout, 0xC0C0_1111);
    assert_eq!(once.banks[3].dataout, 0x0008_1111);
    assert_eq!(sam_safe_state_ops(2), (BitOp::ClearBits(0x24), BitOp::SetBits(0x24)));
}

#[test]
fn pin_mappings_leave_data_words_alone() {
    let mut c = Controllers::open_controllers();
    for b in c.banks.iter_mut() {
        b.dataout = 0xA5A5_A5A5;
        b.datain = 0x0F0F_0F0F;
    }
    gpio_controller_mappings(&mut c);
    data_ready_mappings(&mut c);
    for b in c.banks.iter() {
        assert_eq!(b.dataout, 0xA5A5_A5A5);
        assert_eq!(b.datain, 0x0F0F_0F0F);
    }
}
