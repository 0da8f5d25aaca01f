//! Register image of a GPIO block: function select (three bits per pin, ten
//! pins per register), output set, output clear and pin level registers.
use vstd::prelude::*;

verus! {

/// Pins covered by the function-select registers.
pub const FSEL_PINS: usize = 60;
/// Pins covered by the set, clear and level registers.
pub const LEVEL_PINS: usize = 64;

/// The three function-select bits at `shift` in `word`.
pub open spec fn mode_bits(word: u32, shift: u32) -> u32 {
    (word >> shift) & 7
}

/// Bit `bit` of `word`.
pub open spec fn bit_set(word: u32, bit: u32) -> bool {
    (word >> bit) & 1 == 1
}

pub struct Gpio {
    pub fsel: [u32; 6],
    pub set: [u32; 2],
    pub clr: [u32; 2],
    pub lev: [u32; 2],
}

impl Gpio {
    /// Sets the function of `pin` to the low three bits of `mode`; every
    /// other bit of every register keeps its value.
    pub fn set_mode(&mut self, pin: usize, mode: u32)
        requires
            pin < FSEL_PINS,
        ensures
            ({
                let reg = (pin / 10) as int;
                let shift = ((pin % 10) * 3) as u32;
                &&& final(self).fsel@ == old(self).fsel@.update(reg, final(self).fsel@[reg])
                &&& mode_bits(final(self).fsel@[reg], shift) == mode & 7
                &&& final(self).fsel@[reg] & !(7u32 << shift) == old(self).fsel@[reg] & !(7u32
                    << shift)
            }),
            final(self).set@ == old(self).set@,
            final(self).clr@ == old(self).clr@,
            final(self).lev@ == old(self).lev@,
    {
        let reg = pin / 10;
        let shift = ((pin % 10) * 3) as u32;
        let old_word = self.fsel[reg];
        let word = (old_word & !(0b111u32 << shift)) | ((mode & 0b111u32) << shift);
        assert(mode_bits(word, shift) == mode & 7 && word & !(7u32 << shift) == old_word & !(7u32
            << shift)) by (bit_vector)
            requires
                shift <= 27,
                word == (old_word & !(7u32 << shift)) | ((mode & 7u32) << shift),
        ;
        self.fsel[reg] = word;
    }

    /// Drives `pin` high (through the set register) or low (through the
    /// clear register) by writing a word with only that pin's bit.
    pub fn write(&mut self, pin: usize, value: bool)
        requires
            pin < LEVEL_PINS,
        ensures
            value ==> final(self).set@ == old(self).set@.update(
                (pin / 32) as int,
                1u32 << ((pin % 32) as u32),
            ) && final(self).clr@ == old(self).clr@,
            !value ==> final(self).clr@ == old(self).clr@.update(
                (pin / 32) as int,
                1u32 << ((pin % 32) as u32),
            ) && final(self).set@ == old(self).set@,
            final(self).fsel@ == old(self).fsel@,
            final(self).lev@ == old(self).lev@,
    {
        let bit = 1u32 << ((pin % 32) as u32);
        if value {
            self.set[pin / 32] = bit;
        } else {
            self.clr[pin / 32] = bit;
        }
    }

    /// The level of `pin`: its bit in the level register.
    pub fn read(&self, pin: usize) -> (high: bool)
        requires
            pin < LEVEL_PINS,
        ensures
            high == bit_set(self.lev@[(pin / 32) as int], (pin % 32) as u32),
    {
        let word = self.lev[pin / 32];
        let bit = (pin % 32) as u32;
        let high = (word & (1u32 << bit)) != 0;
        assert(high == ((word >> bit) & 1 == 1)) by (bit_vector)
            requires
                bit < 32,
                high == ((word & (1u32 << bit)) != 0),
        ;
        high
    }
}

} // verus!
