//! Pinout of the sensor-acquisition board: the chip-select and data-ready
//! pin of each converter kind, the valve select pins, and the bulk pin
//! configuration done at start-up.
use vstd::prelude::*;
use crate::adc::{Adc, Measurement};
use crate::controllers::Controllers;
use crate::gpio::{apply, bit, lemma_single_bit_ops, spec_apply, BitOp, Gpio, Pin, PinMode, PinValue, BANK_COUNT};

verus! {

/// Chip-select pin of each converter kind that has one.
pub open spec fn spec_cs_pin(m: Measurement) -> Option<Pin> {
    match m {
        Measurement::DiffSensors => Some(Pin { bank: 0, index: 30 }),
        Measurement::Rtd1 => Some(Pin { bank: 1, index: 13 }),
        Measurement::Rtd2 => Some(Pin { bank: 2, index: 5 }),
        Measurement::Rtd3 => Some(Pin { bank: 2, index: 2 }),
        Measurement::IValve => Some(Pin { bank: 0, index: 31 }),
        Measurement::VValve => Some(Pin { bank: 1, index: 16 }),
        _ => None,
    }
}

/// Data-ready pin of each converter kind that has one.
pub open spec fn spec_drdy_pin(m: Measurement) -> Option<Pin> {
    match m {
        Measurement::CurrentLoopPt => Some(Pin { bank: 3, index: 17 }),
        Measurement::DiffSensors => Some(Pin { bank: 1, index: 28 }),
        Measurement::Rtd1 => Some(Pin { bank: 1, index: 12 }),
        Measurement::Rtd2 => Some(Pin { bank: 2, index: 4 }),
        Measurement::Rtd3 => Some(Pin { bank: 2, index: 3 }),
        Measurement::IValve => Some(Pin { bank: 1, index: 18 }),
        Measurement::VValve => Some(Pin { bank: 1, index: 19 }),
        _ => None,
    }
}

pub fn cs_pin(m: Measurement) -> (r: Option<Pin>)
    ensures
        r == spec_cs_pin(m),
        r.is_some() ==> r.unwrap().wf(),
{
    match m {
        Measurement::DiffSensors => Some(Pin { bank: 0, index: 30 }),
        Measurement::Rtd1 => Some(Pin { bank: 1, index: 13 }),
        Measurement::Rtd2 => Some(Pin { bank: 2, index: 5 }),
        Measurement::Rtd3 => Some(Pin { bank: 2, index: 2 }),
        Measurement::IValve => Some(Pin { bank: 0, index: 31 }),
        Measurement::VValve => Some(Pin { bank: 1, index: 16 }),
        _ => None,
    }
}

pub fn drdy_pin(m: Measurement) -> (r: Option<Pin>)
    ensures
        r == spec_drdy_pin(m),
        r.is_some() ==> r.unwrap().wf(),
{
    match m {
        Measurement::CurrentLoopPt => Some(Pin { bank: 3, index: 17 }),
        Measurement::DiffSensors => Some(Pin { bank: 1, index: 28 }),
        Measurement::Rtd1 => Some(Pin { bank: 1, index: 12 }),
        Measurement::Rtd2 => Some(Pin { bank: 2, index: 4 }),
        Measurement::Rtd3 => Some(Pin { bank: 2, index: 3 }),
        Measurement::IValve => Some(Pin { bank: 1, index: 18 }),
        Measurement::VValve => Some(Pin { bank: 1, index: 19 }),
        _ => None,
    }
}

/// Some pin of `pins` is bit `j` of bank `k`.
pub open spec fn targets(pins: Seq<Pin>, k: int, j: u32) -> bool {
    exists|p: int| 0 <= p < pins.len() && (#[trigger] pins[p]).bank == k && pins[p].index == j
}

/// Every pin of `pins` is a valid pin.
pub open spec fn all_wf(pins: Seq<Pin>) -> bool {
    forall|p: int| 0 <= p < pins.len() ==> (#[trigger] pins[p]).wf()
}

/// Gives every pin of `pins` the direction `mode`; no other bit changes.
pub fn set_modes(ctl: &mut Controllers, pins: &Vec<Pin>, mode: PinMode)
    requires
        old(ctl).wf(),
        all_wf(pins@),
    ensures
        final(ctl).wf(),
        forall|k: int, j: u32| 0 <= k < BANK_COUNT && j < 32 ==> #[trigger] bit(final(ctl).bank(k).oe, j) == if targets(pins@, k, j) {
            mode == PinMode::Input
        } else {
            bit(old(ctl).bank(k).oe, j)
        },
        forall|k: int| 0 <= k < BANK_COUNT ==> (#[trigger] final(ctl).bank(k)).dataout == old(ctl).bank(k).dataout
            && final(ctl).bank(k).datain == old(ctl).bank(k).datain,
{
    let ghost c0 = *ctl;
    let mut i: usize = 0;
    while i < pins.len()
        invariant
            ctl.wf(),
            c0.wf(),
            all_wf(pins@),
            i <= pins@.len(),
            forall|k: int, j: u32| 0 <= k < BANK_COUNT && j < 32 ==> #[trigger] bit(ctl.bank(k).oe, j) == if targets(pins@.take(i as int), k, j) {
                mode == PinMode::Input
            } else {
                bit(c0.bank(k).oe, j)
            },
            forall|k: int| 0 <= k < BANK_COUNT ==> (#[trigger] ctl.bank(k)).dataout == c0.bank(k).dataout
                && ctl.bank(k).datain == c0.bank(k).datain,
        decreases pins@.len() - i,
    {
        let p = pins[i];
        let ghost before = *ctl;
        ctl.set_mode(p, mode);
        proof {
            lemma_single_bit_ops(before.bank(p.bank as int).oe, p.index);
            let pre = pins@.take(i as int);
            let post = pins@.take(i as int + 1);
            assert(post =~= pre.push(p));
            assert forall|k: int, j: u32| 0 <= k < BANK_COUNT && j < 32 implies #[trigger] bit(ctl.bank(k).oe, j) == if targets(post, k, j) {
                mode == PinMode::Input
            } else {
                bit(c0.bank(k).oe, j)
            } by {
                if targets(post, k, j) && !targets(pre, k, j) {
                    let q = choose|q: int| 0 <= q < post.len() && (#[trigger] post[q]).bank == k && post[q].index == j;
                    assert(q == i);
                }
                if targets(pre, k, j) {
                    let q = choose|q: int| 0 <= q < pre.len() && (#[trigger] pre[q]).bank == k && pre[q].index == j;
                    assert(post[q] == pre[q]);
                }
                if k == p.bank as int && j == p.index {
                    assert(post[i as int] == p);
                }
                assert(bit(before.bank(k).oe, j) == if targets(pre, k, j) {
                    mode == PinMode::Input
                } else {
                    bit(c0.bank(k).oe, j)
                });
                if k != p.bank as int {
                    assert(ctl.banks@[k] == before.banks@[k]);
                }
            }
            assert forall|k: int| 0 <= k < BANK_COUNT implies (#[trigger] ctl.bank(k)).dataout == c0.bank(k).dataout
                && ctl.bank(k).datain == c0.bank(k).datain by {
                assert(before.bank(k).dataout == c0.bank(k).dataout && before.bank(k).datain == c0.bank(k).datain);
                if k != p.bank as int {
                    assert(ctl.banks@[k] == before.banks@[k]);
                } else {
                    assert(ctl.bank(k).dataout == before.bank(k).dataout);
                }
            }
        }
        i = i + 1;
    }
    assert(pins@.take(pins@.len() as int) =~= pins@);
}

/// Drives every pin of `pins` to `value`; no other bit changes.
pub fn write_all(ctl: &mut Controllers, pins: &Vec<Pin>, value: PinValue)
    requires
        old(ctl).wf(),
        all_wf(pins@),
    ensures
        final(ctl).wf(),
        forall|k: int, j: u32| 0 <= k < BANK_COUNT && j < 32 ==> #[trigger] bit(final(ctl).bank(k).dataout, j) == if targets(pins@, k, j) {
            value == PinValue::High
        } else {
            bit(old(ctl).bank(k).dataout, j)
        },
        forall|k: int| 0 <= k < BANK_COUNT ==> (#[trigger] final(ctl).bank(k)).oe == old(ctl).bank(k).oe
            && final(ctl).bank(k).datain == old(ctl).bank(k).datain,
{
    let ghost c0 = *ctl;
    let mut i: usize = 0;
    while i < pins.len()
        invariant
            ctl.wf(),
            c0.wf(),
            all_wf(pins@),
            i <= pins@.len(),
            forall|k: int, j: u32| 0 <= k < BANK_COUNT && j < 32 ==> #[trigger] bit(ctl.bank(k).dataout, j) == if targets(pins@.take(i as int), k, j) {
                value == PinValue::High
            } else {
                bit(c0.bank(k).dataout, j)
            },
            forall|k: int| 0 <= k < BANK_COUNT ==> (#[trigger] ctl.bank(k)).oe == c0.bank(k).oe
                && ctl.bank(k).datain == c0.bank(k).datain,
        decreases pins@.len() - i,
    {
        let p = pins[i];
        let ghost before = *ctl;
        ctl.write(p, value);
        proof {
            lemma_single_bit_ops(before.bank(p.bank as int).dataout, p.index);
            let pre = pins@.take(i as int);
            let post = pins@.take(i as int + 1);
            assert(post =~= pre.push(p));
            assert forall|k: int, j: u32| 0 <= k < BANK_COUNT && j < 32 implies #[trigger] bit(ctl.bank(k).dataout, j) == if targets(post, k, j) {
                value == PinValue::High
            } else {
                bit(c0.bank(k).dataout, j)
            } by {
                if targets(post, k, j) && !targets(pre, k, j) {
                    let q = choose|q: int| 0 <= q < post.len() && (#[trigger] post[q]).bank == k && post[q].index == j;
                    assert(q == i);
                }
                if targets(pre, k, j) {
                    let q = choose|q: int| 0 <= q < pre.len() && (#[trigger] pre[q]).bank == k && pre[q].index == j;
                    assert(post[q] == pre[q]);
                }
                if k == p.bank as int && j == p.index {
                    assert(post[i as int] == p);
                }
                assert(bit(before.bank(k).dataout, j) == if targets(pre, k, j) {
                    value == PinValue::High
                } else {
                    bit(c0.bank(k).dataout, j)
                });
                if k != p.bank as int {
                    assert(ctl.banks@[k] == before.banks@[k]);
                }
            }
            assert forall|k: int| 0 <= k < BANK_COUNT implies (#[trigger] ctl.bank(k)).oe == c0.bank(k).oe
                && ctl.bank(k).datain == c0.bank(k).datain by {
                assert(before.bank(k).oe == c0.bank(k).oe && before.bank(k).datain == c0.bank(k).datain);
                if k != p.bank as int {
                    assert(ctl.banks@[k] == before.banks@[k]);
                } else {
                    assert(ctl.bank(k).oe == before.bank(k).oe);
                }
            }
        }
        i = i + 1;
    }
    assert(pins@.take(pins@.len() as int) =~= pins@);
}

/// The chip-select pins of the board's converters.
pub open spec fn spec_cs_pins() -> Seq<Pin> {
    seq![
        Pin { bank: 0, index: 30 },
        Pin { bank: 1, index: 13 },
        Pin { bank: 2, index: 5 },
        Pin { bank: 2, index: 2 },
        Pin { bank: 0, index: 31 },
        Pin { bank: 1, index: 16 },
    ]
}

/// The valve select pins.
pub open spec fn spec_valve_sel_pins() -> Seq<Pin> {
    seq![Pin { bank: 0, index: 22 }, Pin { bank: 0, index: 23 }, Pin { bank: 3, index: 19 }]
}

/// The chip-select pins of the board's converters.
pub fn cs_pins() -> (r: Vec<Pin>)
    ensures
        r@ == spec_cs_pins(),
        all_wf(r@),
{
    vec![
        Pin { bank: 0, index: 30 },
        Pin { bank: 1, index: 13 },
        Pin { bank: 2, index: 5 },
        Pin { bank: 2, index: 2 },
        Pin { bank: 0, index: 31 },
        Pin { bank: 1, index: 16 },
    ]
}

/// The valve select pins.
pub fn valve_sel_pins() -> (r: Vec<Pin>)
    ensures
        r@ == spec_valve_sel_pins(),
        all_wf(r@),
{
    vec![Pin { bank: 0, index: 22 }, Pin { bank: 0, index: 23 }, Pin { bank: 3, index: 19 }]
}

/// Makes every chip select an output and deasserts it (high, the chip
/// selects being active low).
pub fn pull_gpios_high(ctl: &mut Controllers)
    requires
        old(ctl).wf(),
    ensures
        final(ctl).wf(),
        forall|k: int, j: u32| 0 <= k < BANK_COUNT && j < 32 ==> {
            &&& #[trigger] bit(final(ctl).bank(k).oe, j) == (!targets(spec_cs_pins(), k, j) && bit(old(ctl).bank(k).oe, j))
            &&& bit(final(ctl).bank(k).dataout, j) == (targets(spec_cs_pins(), k, j) || bit(old(ctl).bank(k).dataout, j))
        },
{
    let pins = cs_pins();
    set_modes(ctl, &pins, PinMode::Output);
    write_all(ctl, &pins, PinValue::High);
}

/// Makes the three valve select pins outputs driven high, and returns them.
pub fn init_valve_sel_pins(ctl: &mut Controllers) -> (r: Vec<Pin>)
    requires
        old(ctl).wf(),
    ensures
        final(ctl).wf(),
        r@ == spec_valve_sel_pins(),
        forall|k: int, j: u32| 0 <= k < BANK_COUNT && j < 32 ==> {
            &&& #[trigger] bit(final(ctl).bank(k).oe, j) == (!targets(spec_valve_sel_pins(), k, j) && bit(old(ctl).bank(k).oe, j))
            &&& bit(final(ctl).bank(k).dataout, j) == (targets(spec_valve_sel_pins(), k, j) || bit(old(ctl).bank(k).dataout, j))
        },
{
    let pins = valve_sel_pins();
    set_modes(ctl, &pins, PinMode::Output);
    write_all(ctl, &pins, PinValue::High);
    pins
}

/// Makes the data-ready pins inputs.
pub fn data_ready_mappings(ctl: &mut Controllers) -> (r: Vec<Pin>)
    requires
        old(ctl).wf(),
    ensures
        final(ctl).wf(),
        r@ == seq![
            Pin { bank: 3, index: 17 },
            Pin { bank: 1, index: 28 },
            Pin { bank: 1, index: 12 },
            Pin { bank: 2, index: 4 },
            Pin { bank: 2, index: 3 },
            Pin { bank: 1, index: 18 },
            Pin { bank: 1, index: 19 },
        ],
        forall|k: int, j: u32| 0 <= k < BANK_COUNT && j < 32 ==> #[trigger] bit(final(ctl).bank(k).oe, j) == (targets(r@, k, j) || bit(old(ctl).bank(k).oe, j)),
        forall|k: int| 0 <= k < BANK_COUNT ==> (#[trigger] final(ctl).bank(k)).dataout == old(ctl).bank(k).dataout
            && final(ctl).bank(k).datain == old(ctl).bank(k).datain,
{
    let pins: Vec<Pin> = vec![
        Pin { bank: 3, index: 17 },
        Pin { bank: 1, index: 28 },
        Pin { bank: 1, index: 12 },
        Pin { bank: 2, index: 4 },
        Pin { bank: 2, index: 3 },
        Pin { bank: 1, index: 18 },
        Pin { bank: 1, index: 19 },
    ];
    set_modes(ctl, &pins, PinMode::Input);
    pins
}

/// Makes the chip-select pins outputs.
pub fn gpio_controller_mappings(ctl: &mut Controllers) -> (r: Vec<Pin>)
    requires
        old(ctl).wf(),
    ensures
        final(ctl).wf(),
        r@ == spec_cs_pins(),
        forall|k: int, j: u32| 0 <= k < BANK_COUNT && j < 32 ==> #[trigger] bit(final(ctl).bank(k).oe, j) == (!targets(r@, k, j) && bit(old(ctl).bank(k).oe, j)),
        forall|k: int| 0 <= k < BANK_COUNT ==> (#[trigger] final(ctl).bank(k)).dataout == old(ctl).bank(k).dataout
            && final(ctl).bank(k).datain == old(ctl).bank(k).datain,
{
    let pins = cs_pins();
    set_modes(ctl, &pins, PinMode::Output);
    pins
}

impl Adc {
    /// Deasserts this converter's chip select (drives it high), when it has one.
    pub fn pull_cs_high_active_low(&self, ctl: &mut Controllers)
        requires
            old(ctl).wf(),
        ensures
            final(ctl).wf(),
            match spec_cs_pin(self.measurement) {
                Some(p) => {
                    &&& final(ctl).same_except(old(ctl), p.bank as int)
                    &&& final(ctl).bank(p.bank as int).dataout == old(ctl).bank(p.bank as int).dataout | p.spec_mask()
                    &&& final(ctl).bank(p.bank as int).oe == old(ctl).bank(p.bank as int).oe
                    &&& final(ctl).bank(p.bank as int).datain == old(ctl).bank(p.bank as int).datain
                },
                None => *final(ctl) == *old(ctl),
            },
    {
        match cs_pin(self.measurement) {
            Some(p) => ctl.write(p, PinValue::High),
            None => {},
        }
    }

    /// Asserts this converter's chip select (drives it low), when it has one.
    pub fn pull_cs_low_active_low(&self, ctl: &mut Controllers)
        requires
            old(ctl).wf(),
        ensures
            final(ctl).wf(),
            match spec_cs_pin(self.measurement) {
                Some(p) => {
                    &&& final(ctl).same_except(old(ctl), p.bank as int)
                    &&& final(ctl).bank(p.bank as int).dataout == old(ctl).bank(p.bank as int).dataout & !p.spec_mask()
                    &&& final(ctl).bank(p.bank as int).oe == old(ctl).bank(p.bank as int).oe
                    &&& final(ctl).bank(p.bank as int).datain == old(ctl).bank(p.bank as int).datain
                },
                None => *final(ctl) == *old(ctl),
            },
    {
        match cs_pin(self.measurement) {
            Some(p) => ctl.write(p, PinValue::Low),
            None => {},
        }
    }

    /// Whether this converter has fresh data: its data-ready line reads low
    /// (active low). A kind without a data-ready line always has.
    pub fn data_ready(&self, ctl: &Controllers) -> (r: bool)
        requires
            ctl.wf(),
        ensures
            r == match spec_drdy_pin(self.measurement) {
                Some(p) => p.spec_level(ctl.bank(p.bank as int).datain) == PinValue::Low,
                None => true,
            },
    {
        match drdy_pin(self.measurement) {
            Some(p) => ctl.read(p) == PinValue::Low,
            None => true,
        }
    }
}


/// Pins that the acquisition board's safe state makes outputs driven high,
/// per bank: the converter chip selects (bank 0 pins 30 and 31, bank 1 pins
/// 13 and 16, bank 2 pins 2 and 5), deasserted, and the valve selects
/// (bank 0 pins 22 and 23, bank 3 pin 19).
pub open spec fn sam_safe_mask(k: int) -> u32 {
    if k == 0 {
        0xC0C0_0000u32
    } else if k == 1 {
        0x0001_2000u32
    } else if k == 2 {
        0x0000_0024u32
    } else if k == 3 {
        0x0008_0000u32
    } else {
        0u32
    }
}

/// A bank of the acquisition board after its safe state has been applied.
pub open spec fn sam_safe_bank(g: Gpio) -> Gpio {
    Gpio {
        bank: g.bank,
        oe: g.oe & !sam_safe_mask(g.bank as int),
        dataout: g.dataout | sam_safe_mask(g.bank as int),
        datain: g.datain,
    }
}

/// The atomic operations that put bank `k` of the acquisition board in its
/// safe state: the one on the output-enable word, then the one on data-out.
pub fn sam_safe_state_ops(k: usize) -> (r: (BitOp, BitOp))
    ensures
        r == (BitOp::ClearBits(sam_safe_mask(k as int)), BitOp::SetBits(sam_safe_mask(k as int))),
{
    let m: u32 = if k == 0 {
        0xC0C0_0000u32
    } else if k == 1 {
        0x0001_2000u32
    } else if k == 2 {
        0x0000_0024u32
    } else if k == 3 {
        0x0008_0000u32
    } else {
        0u32
    };
    (BitOp::ClearBits(m), BitOp::SetBits(m))
}

/// Puts the acquisition board in its safe state: every chip select and
/// valve select an output, driven high. Start-up and abort both do this.
pub fn sam_safe_state(ctl: &mut Controllers)
    requires
        old(ctl).wf(),
    ensures
        final(ctl).wf(),
        forall|k: int| 0 <= k < BANK_COUNT ==> #[trigger] final(ctl).bank(k) == sam_safe_bank(old(ctl).bank(k)),
{
    let ghost c0 = *ctl;
    let mut k: usize = 0;
    while k < BANK_COUNT
        invariant
            ctl.wf(),
            c0.wf(),
            k <= BANK_COUNT,
            forall|j: int| 0 <= j < k ==> #[trigger] ctl.bank(j) == sam_safe_bank(c0.bank(j)),
            forall|j: int| k <= j < BANK_COUNT ==> #[trigger] ctl.bank(j) == c0.bank(j),
        decreases BANK_COUNT - k,
    {
        let (oe_op, out_op) = sam_safe_state_ops(k);
        let ghost c1 = *ctl;
        assert(ctl.bank(k as int) == c0.bank(k as int));
        let mut g = ctl.banks[k];
        g.oe = apply(g.oe, oe_op);
        g.dataout = apply(g.dataout, out_op);
        ctl.banks.set(k, g);
        proof {
            assert forall|j: int| 0 <= j < k + 1 implies #[trigger] ctl.bank(j) == sam_safe_bank(c0.bank(j)) by {
                if j < k {
                    assert(c1.bank(j) == sam_safe_bank(c0.bank(j)));
                    assert(ctl.banks@[j] == c1.banks@[j]);
                } else {
                    assert(ctl.banks@[j] == g);
                }
            }
            assert forall|j: int| k + 1 <= j < BANK_COUNT implies #[trigger] ctl.bank(j) == c0.bank(j) by {
                assert(c1.bank(j) == c0.bank(j));
                assert(ctl.banks@[j] == c1.banks@[j]);
            }
        }
        k = k + 1;
    }
}

/// Applying the acquisition board's safe state a second time changes no
/// bit: an abort repeated gives the same outputs as one abort.
pub proof fn lemma_sam_safe_state_idempotent(g: Gpio)
    ensures
        sam_safe_bank(sam_safe_bank(g)) == sam_safe_bank(g),
{
    let (o, d, m) = (g.oe, g.dataout, sam_safe_mask(g.bank as int));
    assert((o & !m) & !m == o & !m) by (bit_vector);
    assert((d | m) | m == d | m) by (bit_vector);
}

/// The safe state's masks are exactly the chip-select and valve-select pins.
pub proof fn lemma_sam_safe_mask_pins(k: int, j: u32)
    requires
        0 <= k < BANK_COUNT,
        j < 32,
    ensures
        bit(sam_safe_mask(k), j) == (targets(spec_cs_pins(), k, j) || targets(spec_valve_sel_pins(), k, j)),
{
    let cs = spec_cs_pins();
    let vs = spec_valve_sel_pins();
    let m = sam_safe_mask(k);
    if targets(cs, k, j) {
        let q = choose|q: int| 0 <= q < cs.len() && (#[trigger] cs[q]).bank == k && cs[q].index == j;
        assert(bit(sam_safe_mask(cs[q].bank as int), cs[q].index)) by {
            assert(bit(0xC0C0_0000u32, 30) && bit(0xC0C0_0000u32, 31) && bit(0x0001_2000u32, 13)
                && bit(0x0001_2000u32, 16) && bit(0x0000_0024u32, 2) && bit(0x0000_0024u32, 5)) by (bit_vector);
        }
    } else if targets(vs, k, j) {
        let q = choose|q: int| 0 <= q < vs.len() && (#[trigger] vs[q]).bank == k && vs[q].index == j;
        assert(bit(sam_safe_mask(vs[q].bank as int), vs[q].index)) by {
            assert(bit(0xC0C0_0000u32, 22) && bit(0xC0C0_0000u32, 23) && bit(0x0008_0000u32, 19)) by (bit_vector);
        }
    } else {
        assert(!bit(m, j)) by {
            assert(forall|q: int| 0 <= q < cs.len() ==> !((#[trigger] cs[q]).bank == k && cs[q].index == j));
            assert(forall|q: int| 0 <= q < vs.len() ==> !((#[trigger] vs[q]).bank == k && vs[q].index == j));
            assert(cs[0] == Pin { bank: 0, index: 30 } && cs[4] == Pin { bank: 0, index: 31 });
            assert(cs[1] == Pin { bank: 1, index: 13 } && cs[5] == Pin { bank: 1, index: 16 });
            assert(cs[2] == Pin { bank: 2, index: 5 } && cs[3] == Pin { bank: 2, index: 2 });
            assert(vs[0] == Pin { bank: 0, index: 22 } && vs[1] == Pin { bank: 0, index: 23 });
            assert(vs[2] == Pin { bank: 3, index: 19 });
            if k == 0 {
                assert(j != 30 && j != 31 && j != 22 && j != 23);
                assert(j < 32 && j != 30 && j != 31 && j != 22 && j != 23 ==> !bit(0xC0C0_0000u32, j)) by (bit_vector);
            } else if k == 1 {
                assert(j != 13 && j != 16);
                assert(j < 32 && j != 13 && j != 16 ==> !bit(0x0001_2000u32, j)) by (bit_vector);
            } else if k == 2 {
                assert(j != 2 && j != 5);
                assert(j < 32 && j != 2 && j != 5 ==> !bit(0x0000_0024u32, j)) by (bit_vector);
            } else {
                assert(j != 19);
                assert(j < 32 && j != 19 ==> !bit(0x0008_0000u32, j)) by (bit_vector);
            }
        }
    }
}

} // verus!
