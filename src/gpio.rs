//! Register-level model of the memory-mapped GPIO banks.
//!
//! Each bank exposes three 32-bit words: output-enable (a set bit makes the
//! pin an input, a clear bit an output), data-out and data-in. Every change
//! to a word is a single atomic set or clear of some bits, described by a
//! [`BitOp`]; the same operation drives the hardware words and the images
//! kept in [`Gpio`].
use vstd::prelude::*;

verus! {

/// Number of GPIO banks on the board.
pub const BANK_COUNT: usize = 4;

/// Number of pins in one bank.
pub const PINS_PER_BANK: u32 = 32;

/// Level of a pin.
#[derive(Debug, Clone, Copy, PartialEq, Eq, Structural)]
pub enum PinValue {
    Low,
    High,
}

/// Direction of a pin.
#[derive(Debug, Clone, Copy, PartialEq, Eq, Structural)]
pub enum PinMode {
    Output,
    Input,
}

/// Bit order of a serial bus.
#[derive(Debug, Clone, Copy, PartialEq, Eq, Structural)]
pub enum BitOrder {
    LSBFirst,
    MSBFirst,
}

/// An atomic change of a register word: set the bits of the mask, or clear them.
#[derive(Debug, Clone, Copy, PartialEq, Eq, Structural)]
pub enum BitOp {
    SetBits(u32),
    ClearBits(u32),
}

/// The word that results from applying `op` to `w`.
pub open spec fn spec_apply(w: u32, op: BitOp) -> u32 {
    match op {
        BitOp::SetBits(m) => w | m,
        BitOp::ClearBits(m) => w & !m,
    }
}

/// Bit `i` of `w`.
pub open spec fn bit(w: u32, i: u32) -> bool {
    (w >> i) & 1u32 == 1u32
}

/// Applies an operation to a word, as an atomic fetch-or / fetch-and does.
pub fn apply(w: u32, op: BitOp) -> (r: u32)
    ensures
        r == spec_apply(w, op),
{
    match op {
        BitOp::SetBits(m) => w | m,
        BitOp::ClearBits(m) => w & !m,
    }
}

/// Setting bit `i` makes it one and leaves every other bit as it was;
/// clearing it makes it zero.
pub proof fn lemma_single_bit_ops(w: u32, i: u32)
    requires
        i < 32,
    ensures
        forall|j: u32|
            j < 32 ==> #[trigger] bit(spec_apply(w, BitOp::SetBits(1u32 << i)), j) == (j == i || bit(w, j)),
        forall|j: u32|
            j < 32 ==> #[trigger] bit(spec_apply(w, BitOp::ClearBits(1u32 << i)), j) == (j != i && bit(w, j)),
{
    assert forall|j: u32| j < 32 implies #[trigger] bit(spec_apply(w, BitOp::SetBits(1u32 << i)), j) == (j == i || bit(w, j)) by {
        assert((((w | (1u32 << i)) >> j) & 1u32 == 1u32) == (j == i || ((w >> j) & 1u32 == 1u32))) by (bit_vector)
            requires i < 32, j < 32;
    }
    assert forall|j: u32| j < 32 implies #[trigger] bit(spec_apply(w, BitOp::ClearBits(1u32 << i)), j) == (j != i && bit(w, j)) by {
        assert((((w & !(1u32 << i)) >> j) & 1u32 == 1u32) == (j != i && ((w >> j) & 1u32 == 1u32))) by (bit_vector)
            requires i < 32, j < 32;
    }
}

/// The three register words of one bank.
#[derive(Debug, Clone, Copy, PartialEq, Eq, Structural)]
pub struct Gpio {
    /// Which bank these words belong to.
    pub bank: usize,
    /// Output-enable word: a set bit makes the pin an input.
    pub oe: u32,
    /// Data-out word.
    pub dataout: u32,
    /// Data-in word.
    pub datain: u32,
}

/// A pin: a bank and a bit index within it. It owns no state of its own.
#[derive(Debug, Clone, Copy, PartialEq, Eq, Structural)]
pub struct Pin {
    pub bank: usize,
    pub index: u32,
}

impl Gpio {
    /// The image of a bank as the hardware leaves it at reset: every pin an
    /// input, every output latch low.
    pub fn open(bank: usize) -> (r: Gpio)
        requires
            bank < BANK_COUNT,
        ensures
            r.bank == bank,
            r.oe == 0xFFFF_FFFFu32,
            r.dataout == 0,
            r.datain == 0,
    {
        Gpio { bank, oe: 0xFFFF_FFFFu32, dataout: 0, datain: 0 }
    }

    /// A pin of this bank.
    pub fn get_pin(&self, index: u32) -> (r: Pin)
        requires
            index < PINS_PER_BANK,
        ensures
            r.bank == self.bank,
            r.index == index,
    {
        Pin { bank: self.bank, index }
    }
}

impl Pin {
    pub open spec fn wf(&self) -> bool {
        self.bank < BANK_COUNT && self.index < PINS_PER_BANK
    }

    /// The mask that selects this pin's bit.
    pub open spec fn spec_mask(&self) -> u32 {
        1u32 << self.index
    }

    pub fn mask(&self) -> (r: u32)
        requires
            self.wf(),
        ensures
            r == self.spec_mask(),
    {
        1u32 << self.index
    }

    /// The change of the output-enable word that gives this pin `mode`
    /// (the word's convention is inverted: a set bit means input).
    pub open spec fn spec_mode_op(&self, mode: PinMode) -> BitOp {
        match mode {
            PinMode::Input => BitOp::SetBits(self.spec_mask()),
            PinMode::Output => BitOp::ClearBits(self.spec_mask()),
        }
    }

    /// The change of the data-out word that drives this pin to `value`.
    pub open spec fn spec_write_op(&self, value: PinValue) -> BitOp {
        match value {
            PinValue::High => BitOp::SetBits(self.spec_mask()),
            PinValue::Low => BitOp::ClearBits(self.spec_mask()),
        }
    }

    /// The level of this pin in a data-in word.
    pub open spec fn spec_level(&self, datain: u32) -> PinValue {
        if datain & self.spec_mask() != 0 {
            PinValue::High
        } else {
            PinValue::Low
        }
    }

    pub fn mode_op(&self, mode: PinMode) -> (r: BitOp)
        requires
            self.wf(),
        ensures
            r == self.spec_mode_op(mode),
    {
        let m = self.mask();
        match mode {
            PinMode::Input => BitOp::SetBits(m),
            PinMode::Output => BitOp::ClearBits(m),
        }
    }

    pub fn write_op(&self, value: PinValue) -> (r: BitOp)
        requires
            self.wf(),
        ensures
            r == self.spec_write_op(value),
    {
        let m = self.mask();
        match value {
            PinValue::High => BitOp::SetBits(m),
            PinValue::Low => BitOp::ClearBits(m),
        }
    }

    pub fn level(&self, datain: u32) -> (r: PinValue)
        requires
            self.wf(),
        ensures
            r == self.spec_level(datain),
    {
        if datain & self.mask() != 0 {
            PinValue::High
        } else {
            PinValue::Low
        }
    }

    /// Sets the direction of the pin in its bank's output-enable word.
    pub fn mode(&self, gpio: &mut Gpio, mode: PinMode)
        requires
            self.wf(),
            old(gpio).bank == self.bank,
        ensures
            final(gpio).oe == spec_apply(old(gpio).oe, self.spec_mode_op(mode)),
            final(gpio).dataout == old(gpio).dataout,
            final(gpio).datain == old(gpio).datain,
            final(gpio).bank == old(gpio).bank,
    {
        let op = self.mode_op(mode);
        gpio.oe = apply(gpio.oe, op);
    }

    /// Drives the pin's data-out bit.
    pub fn digital_write(&self, gpio: &mut Gpio, value: PinValue)
        requires
            self.wf(),
            old(gpio).bank == self.bank,
        ensures
            final(gpio).dataout == spec_apply(old(gpio).dataout, self.spec_write_op(value)),
            final(gpio).oe == old(gpio).oe,
            final(gpio).datain == old(gpio).datain,
            final(gpio).bank == old(gpio).bank,
    {
        let op = self.write_op(value);
        gpio.dataout = apply(gpio.dataout, op);
    }

    /// Reads the pin's level from its bank's data-in word.
    pub fn digital_read(&self, gpio: &Gpio) -> (r: PinValue)
        requires
            self.wf(),
            gpio.bank == self.bank,
        ensures
            r == self.spec_level(gpio.datain),
    {
        self.level(gpio.datain)
    }
}

} // verus!
