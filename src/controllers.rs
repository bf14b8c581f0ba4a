//! The board's GPIO context: the images of all banks, built once at start-up
//! and threaded through the state machine, and pin access by bank index.
use vstd::prelude::*;
use crate::gpio::{spec_apply, Gpio, Pin, PinMode, PinValue, BANK_COUNT};

verus! {

/// All GPIO banks of the board, indexed by bank number.
pub struct Controllers {
    pub banks: Vec<Gpio>,
}

impl Controllers {
    pub open spec fn wf(&self) -> bool {
        &&& self.banks@.len() == BANK_COUNT
        &&& forall|k: int| 0 <= k < BANK_COUNT ==> (#[trigger] self.banks@[k]).bank == k
    }

    /// Bank `k`.
    pub open spec fn bank(&self, k: int) -> Gpio {
        self.banks@[k]
    }

    /// Every bank but `k` is the same in `self` and `other`.
    pub open spec fn same_except(&self, other: &Controllers, k: int) -> bool {
        &&& self.banks@.len() == other.banks@.len()
        &&& forall|j: int| 0 <= j < self.banks@.len() && j != k ==> #[trigger] self.banks@[j] == other.banks@[j]
    }

    /// Opens every bank, each in its reset state.
    pub fn open_controllers() -> (r: Controllers)
        ensures
            r.wf(),
            forall|k: int| 0 <= k < BANK_COUNT ==> (#[trigger] r.banks@[k]).oe == 0xFFFF_FFFFu32
                && r.banks@[k].dataout == 0 && r.banks@[k].datain == 0,
    {
        let mut banks: Vec<Gpio> = Vec::new();
        let mut k: usize = 0;
        while k < BANK_COUNT
            invariant
                k <= BANK_COUNT,
                banks@.len() == k,
                forall|j: int| 0 <= j < k ==> (#[trigger] banks@[j]).bank == j && banks@[j].oe == 0xFFFF_FFFFu32
                    && banks@[j].dataout == 0 && banks@[j].datain == 0,
            decreases BANK_COUNT - k,
        {
            banks.push(Gpio::open(k));
            k = k + 1;
        }
        Controllers { banks }
    }

    /// Sets the direction of `pin`.
    pub fn set_mode(&mut self, pin: Pin, mode: PinMode)
        requires
            old(self).wf(),
            pin.wf(),
        ensures
            final(self).wf(),
            final(self).same_except(old(self), pin.bank as int),
            final(self).bank(pin.bank as int).oe == spec_apply(old(self).bank(pin.bank as int).oe, pin.spec_mode_op(mode)),
            final(self).bank(pin.bank as int).dataout == old(self).bank(pin.bank as int).dataout,
            final(self).bank(pin.bank as int).datain == old(self).bank(pin.bank as int).datain,
    {
        let mut g = self.banks[pin.bank];
        pin.mode(&mut g, mode);
        self.banks.set(pin.bank, g);
    }

    /// Drives `pin` to `value`.
    pub fn write(&mut self, pin: Pin, value: PinValue)
        requires
            old(self).wf(),
            pin.wf(),
        ensures
            final(self).wf(),
            final(self).same_except(old(self), pin.bank as int),
            final(self).bank(pin.bank as int).dataout == spec_apply(old(self).bank(pin.bank as int).dataout, pin.spec_write_op(value)),
            final(self).bank(pin.bank as int).oe == old(self).bank(pin.bank as int).oe,
            final(self).bank(pin.bank as int).datain == old(self).bank(pin.bank as int).datain,
    {
        let mut g = self.banks[pin.bank];
        pin.digital_write(&mut g, value);
        self.banks.set(pin.bank, g);
    }

    /// Makes `pin` an output and drives it to `value`.
    pub fn drive(&mut self, pin: Pin, value: PinValue)
        requires
            old(self).wf(),
            pin.wf(),
        ensures
            final(self).wf(),
            final(self).same_except(old(self), pin.bank as int),
            final(self).bank(pin.bank as int).oe == old(self).bank(pin.bank as int).oe & !pin.spec_mask(),
            final(self).bank(pin.bank as int).dataout == spec_apply(old(self).bank(pin.bank as int).dataout, pin.spec_write_op(value)),
            final(self).bank(pin.bank as int).datain == old(self).bank(pin.bank as int).datain,
    {
        self.set_mode(pin, PinMode::Output);
        self.write(pin, value);
    }

    /// Reads the level of `pin`.
    pub fn read(&self, pin: Pin) -> (r: PinValue)
        requires
            self.wf(),
            pin.wf(),
        ensures
            r == pin.spec_level(self.bank(pin.bank as int).datain),
    {
        pin.digital_read(&self.banks[pin.bank])
    }
}

} // verus!
