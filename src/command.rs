//! Actuation outputs of the battery-management board and the commands that
//! drive them, including the safe state that start-up and abort both apply.
use vstd::prelude::*;
use crate::controllers::Controllers;
use crate::gpio::{Gpio, Pin, PinMode, PinValue, BANK_COUNT};

verus! {

/// A decoded actuation request from the flight computer.
#[derive(Debug, Clone, Copy, PartialEq, Eq, Structural)]
pub enum SamControlMessage {
    /// Power (`powered`) or unpower the output behind `channel`.
    ActuateValve { channel: u32, powered: bool },
}

/// The channel number under which the battery power output is commanded.
pub const BATTERY_POWER_CHANNEL: u32 = 20;

/// Output-enable bits that the safe state turns to outputs, per bank:
/// bank 0 pins 14 and 15 (chip selects), bank 1 pins 14, 22, 24 (recovery
/// enables) and 29 (battery power), bank 2 pins 1 (recovery enable) and 2
/// (remove-before-flight tag).
pub open spec fn output_mask(k: int) -> u32 {
    if k == 0 {
        0x0000_C000u32
    } else if k == 1 {
        0x2140_4000u32
    } else if k == 2 {
        0x0000_0006u32
    } else {
        0u32
    }
}

/// Data-out bits that the safe state drives high: the chip selects (active
/// low, so deasserted) and the remove-before-flight tag.
pub open spec fn high_mask(k: int) -> u32 {
    if k == 0 {
        0x0000_C000u32
    } else if k == 2 {
        0x0000_0004u32
    } else {
        0u32
    }
}

/// Data-out bits that the safe state drives low: battery power and the
/// recovery enables.
pub open spec fn low_mask(k: int) -> u32 {
    if k == 1 {
        0x2140_4000u32
    } else if k == 2 {
        0x0000_0002u32
    } else {
        0u32
    }
}

/// A bank after the safe state has been applied to it.
pub open spec fn safe_bank(g: Gpio) -> Gpio {
    Gpio {
        bank: g.bank,
        oe: g.oe & !output_mask(g.bank as int),
        dataout: (g.dataout | high_mask(g.bank as int)) & !low_mask(g.bank as int),
        datain: g.datain,
    }
}

/// Every bank after the safe state has been applied.
pub open spec fn safe_banks(banks: Seq<Gpio>) -> Seq<Gpio> {
    banks.map_values(|g: Gpio| safe_bank(g))
}

/// Applying the safe state a second time changes no bit of any bank: an
/// abort repeated gives the same actuation outputs as one abort.
pub proof fn lemma_safe_state_idempotent(banks: Seq<Gpio>)
    ensures
        safe_banks(safe_banks(banks)) == safe_banks(banks),
{
    assert forall|i: int| 0 <= i < banks.len() implies #[trigger] safe_banks(safe_banks(banks))[i] == safe_banks(banks)[i] by {
        let g = banks[i];
        let (o, d, m, h, l) = (g.oe, g.dataout, output_mask(g.bank as int), high_mask(g.bank as int), low_mask(g.bank as int));
        assert((o & !m) & !m == o & !m) by (bit_vector);
        assert((((d | h) & !l) | h) & !l == (d | h) & !l) by (bit_vector);
    }
    assert(safe_banks(safe_banks(banks)) =~= safe_banks(banks));
}

/// Battery power output: bank 1, pin 29.
pub fn battery_power_pin() -> (r: Pin)
    ensures
        r == (Pin { bank: 1, index: 29 }),
{
    Pin { bank: 1, index: 29 }
}

/// Remove-before-flight tag output: bank 2, pin 2.
pub fn rbftag_pin() -> (r: Pin)
    ensures
        r == (Pin { bank: 2, index: 2 }),
{
    Pin { bank: 2, index: 2 }
}

/// The recovery enable output of `channel` (1 to 4).
pub open spec fn spec_reco_pin(channel: u8) -> Option<Pin> {
    if channel == 1 {
        Some(Pin { bank: 1, index: 14 })
    } else if channel == 2 {
        Some(Pin { bank: 2, index: 1 })
    } else if channel == 3 {
        Some(Pin { bank: 1, index: 22 })
    } else if channel == 4 {
        Some(Pin { bank: 1, index: 24 })
    } else {
        None
    }
}

pub fn reco_pin(channel: u8) -> (r: Option<Pin>)
    ensures
        r == spec_reco_pin(channel),
{
    match channel {
        1 => Some(Pin { bank: 1, index: 14 }),
        2 => Some(Pin { bank: 2, index: 1 }),
        3 => Some(Pin { bank: 1, index: 22 }),
        4 => Some(Pin { bank: 1, index: 24 }),
        _ => None,
    }
}

/// Powers the battery output.
pub fn enable_battery_power(ctl: &mut Controllers)
    requires
        old(ctl).wf(),
    ensures
        final(ctl).wf(),
        final(ctl).same_except(old(ctl), 1),
        final(ctl).bank(1).oe == old(ctl).bank(1).oe & !(1u32 << 29),
        final(ctl).bank(1).dataout == old(ctl).bank(1).dataout | (1u32 << 29),
        final(ctl).bank(1).datain == old(ctl).bank(1).datain,
{
    ctl.drive(battery_power_pin(), PinValue::High);
}

/// Unpowers the battery output.
pub fn disable_battery_power(ctl: &mut Controllers)
    requires
        old(ctl).wf(),
    ensures
        final(ctl).wf(),
        final(ctl).same_except(old(ctl), 1),
        final(ctl).bank(1).oe == old(ctl).bank(1).oe & !(1u32 << 29),
        final(ctl).bank(1).dataout == old(ctl).bank(1).dataout & !(1u32 << 29),
        final(ctl).bank(1).datain == old(ctl).bank(1).datain,
{
    ctl.drive(battery_power_pin(), PinValue::Low);
}

/// Drives the remove-before-flight tag output low.
pub fn disable_rbftag(ctl: &mut Controllers)
    requires
        old(ctl).wf(),
    ensures
        final(ctl).wf(),
        final(ctl).same_except(old(ctl), 2),
        final(ctl).bank(2).oe == old(ctl).bank(2).oe & !(1u32 << 2),
        final(ctl).bank(2).dataout == old(ctl).bank(2).dataout & !(1u32 << 2),
        final(ctl).bank(2).datain == old(ctl).bank(2).datain,
{
    ctl.drive(rbftag_pin(), PinValue::Low);
}

/// Drives the remove-before-flight tag output high.
pub fn enable_rbftag(ctl: &mut Controllers)
    requires
        old(ctl).wf(),
    ensures
        final(ctl).wf(),
        final(ctl).same_except(old(ctl), 2),
        final(ctl).bank(2).oe == old(ctl).bank(2).oe & !(1u32 << 2),
        final(ctl).bank(2).dataout == old(ctl).bank(2).dataout | (1u32 << 2),
        final(ctl).bank(2).datain == old(ctl).bank(2).datain,
{
    ctl.drive(rbftag_pin(), PinValue::High);
}

/// Drives the recovery enable of `channel` low. Returns false, changing
/// nothing, when `channel` is not one of 1 to 4.
pub fn reco_disable(ctl: &mut Controllers, channel: u8) -> (r: bool)
    requires
        old(ctl).wf(),
    ensures
        final(ctl).wf(),
        r == spec_reco_pin(channel).is_some(),
        !r ==> *final(ctl) == *old(ctl),
        r ==> {
            let p = spec_reco_pin(channel).unwrap();
            &&& final(ctl).same_except(old(ctl), p.bank as int)
            &&& final(ctl).bank(p.bank as int).oe == old(ctl).bank(p.bank as int).oe & !p.spec_mask()
            &&& final(ctl).bank(p.bank as int).dataout == old(ctl).bank(p.bank as int).dataout & !p.spec_mask()
            &&& final(ctl).bank(p.bank as int).datain == old(ctl).bank(p.bank as int).datain
        },
{
    match reco_pin(channel) {
        Some(p) => {
            ctl.drive(p, PinValue::Low);
            true
        },
        None => false,
    }
}

/// The two converter chip-select pins of the battery-management board,
/// made outputs.
pub fn get_cs_mappings(ctl: &mut Controllers) -> (r: Vec<Pin>)
    requires
        old(ctl).wf(),
    ensures
        final(ctl).wf(),
        r@ == seq![Pin { bank: 0, index: 14 }, Pin { bank: 0, index: 15 }],
        final(ctl).same_except(old(ctl), 0),
        final(ctl).bank(0).oe == (old(ctl).bank(0).oe & !(1u32 << 14)) & !(1u32 << 15),
        final(ctl).bank(0).dataout == old(ctl).bank(0).dataout,
        final(ctl).bank(0).datain == old(ctl).bank(0).datain,
{
    let vbat = Pin { bank: 0, index: 14 };
    let reco = Pin { bank: 0, index: 15 };
    ctl.set_mode(vbat, PinMode::Output);
    ctl.set_mode(reco, PinMode::Output);
    let mut pins: Vec<Pin> = Vec::new();
    pins.push(vbat);
    pins.push(reco);
    pins
}

/// Puts every actuation output in its safe state: battery power and the
/// recovery enables off, the remove-before-flight tag on, the chip selects
/// deasserted (high). Start-up and abort both call this.
pub fn init_gpio(ctl: &mut Controllers)
    requires
        old(ctl).wf(),
    ensures
        final(ctl).wf(),
        final(ctl).banks@ == safe_banks(old(ctl).banks@),
{
    let ghost b0 = ctl.banks@;
    disable_battery_power(ctl);
    enable_rbftag(ctl);
    reco_disable(ctl, 1);
    reco_disable(ctl, 2);
    reco_disable(ctl, 3);
    reco_disable(ctl, 4);
    let ghost b1 = ctl.banks@;
    let cs = get_cs_mappings(ctl);
    let ghost b2 = ctl.banks@;
    let mut i: usize = 0;
    while i < cs.len()
        invariant
            ctl.wf(),
            cs@ == seq![Pin { bank: 0, index: 14 }, Pin { bank: 0, index: 15 }],
            0 <= i <= 2,
            forall|j: int| 1 <= j < BANK_COUNT ==> #[trigger] ctl.banks@[j] == b2[j],
            ctl.banks@[0].oe == b2[0].oe,
            ctl.banks@[0].datain == b2[0].datain,
            ctl.banks@[0].dataout == if i == 0 {
                b2[0].dataout
            } else if i == 1 {
                b2[0].dataout | (1u32 << 14)
            } else {
                (b2[0].dataout | (1u32 << 14)) | (1u32 << 15)
            },
        decreases 2 - i,
    {
        ctl.write(cs[i], PinValue::High);
        i = i + 1;
    }
    proof {
        let o0 = b0[0];
        let o1 = b0[1];
        let o2 = b0[2];
        assert(b1[0] == o0);
        assert(b1[3] == b0[3]);
        let (w, d) = (o0.oe, o0.dataout);
        assert((w & !(1u32 << 14)) & !(1u32 << 15) == w & !0x0000_C000u32) by (bit_vector);
        assert((d | (1u32 << 14)) | (1u32 << 15) == (d | 0x0000_C000u32) & !0u32) by (bit_vector);
        let (w, d) = (o1.oe, o1.dataout);
        assert(((((w & !(1u32 << 29)) & !(1u32 << 14)) & !(1u32 << 22)) & !(1u32 << 24)) == w & !0x2140_4000u32) by (bit_vector);
        assert(((((d & !(1u32 << 29)) & !(1u32 << 14)) & !(1u32 << 22)) & !(1u32 << 24)) == (d | 0u32) & !0x2140_4000u32) by (bit_vector);
        let (w, d) = (o2.oe, o2.dataout);
        assert((w & !(1u32 << 2)) & !(1u32 << 1) == w & !0x0000_0006u32) by (bit_vector);
        assert((d | (1u32 << 2)) & !(1u32 << 1) == (d | 0x0000_0004u32) & !0x0000_0002u32) by (bit_vector);
        let w = b0[3].oe;
        let d = b0[3].dataout;
        assert(w & !0u32 == w) by (bit_vector);
        assert((d | 0u32) & !0u32 == d) by (bit_vector);
        assert(ctl.banks@ =~= safe_banks(b0));
    }
}

/// The output that a command drives, and the level it drives it to; `None`
/// for a channel that this board does not drive.
pub fn command_output(command: SamControlMessage) -> (r: Option<(Pin, PinValue)>)
    ensures
        match command {
            SamControlMessage::ActuateValve { channel, powered } => r == if channel == BATTERY_POWER_CHANNEL {
                Some((Pin { bank: 1, index: 29 }, if powered { PinValue::High } else { PinValue::Low }))
            } else {
                None
            },
        },
{
    match command {
        SamControlMessage::ActuateValve { channel, powered } => {
            if channel == BATTERY_POWER_CHANNEL {
                Some((battery_power_pin(), if powered { PinValue::High } else { PinValue::Low }))
            } else {
                None
            }
        },
    }
}

/// Carries out a command. Returns false, changing nothing, when the command
/// names a channel that this board does not drive.
pub fn execute(ctl: &mut Controllers, command: SamControlMessage) -> (r: bool)
    requires
        old(ctl).wf(),
    ensures
        final(ctl).wf(),
        match command {
            SamControlMessage::ActuateValve { channel, powered } => {
                &&& r == (channel == BATTERY_POWER_CHANNEL)
                &&& !r ==> *final(ctl) == *old(ctl)
                &&& r ==> {
                    &&& final(ctl).same_except(old(ctl), 1)
                    &&& final(ctl).bank(1).oe == old(ctl).bank(1).oe & !(1u32 << 29)
                    &&& final(ctl).bank(1).dataout == if powered {
                        old(ctl).bank(1).dataout | (1u32 << 29)
                    } else {
                        old(ctl).bank(1).dataout & !(1u32 << 29)
                    }
                    &&& final(ctl).bank(1).datain == old(ctl).bank(1).datain
                }
            },
        },
{
    match command_output(command) {
        Some((pin, value)) => {
            ctl.drive(pin, value);
            true
        },
        None => false,
    }
}

} // verus!
