use vstd::prelude::*;

use crate::types::{address_of, Address, GeneralRegister};

verus! {

/// The number of general registers, V0 to VF.
pub const NUM_GENERAL_REGISTERS: usize = 16;

/// The state of the flag register VF as arithmetic leaves it.
#[derive(Debug, Clone, Copy, PartialEq, Eq, Structural)]
pub enum Flag {
    Low,
    High,
}

impl Flag {
    /// The byte that stands for the flag in VF.
    pub open spec fn byte(self) -> u8 {
        match self {
            Flag::Low => 0,
            Flag::High => 1,
        }
    }
}

/// The register file: sixteen 8-bit general registers, the address register I
/// and the delay and sound timers.
pub struct Registers {
    pub i: Address,
    pub delay: u8,
    pub sound: u8,
    pub general: [u8; NUM_GENERAL_REGISTERS],
}

impl Registers {
    /// The value that register `r` holds.
    pub open spec fn value_of(&self, r: GeneralRegister) -> u8 {
        self.general@[r.index()]
    }

    /// Every register, I and both timers hold zero.
    pub fn new() -> (r: Registers)
        ensures
            r.i == address_of(0),
            r.delay == 0,
            r.sound == 0,
            r.general@ == Seq::new(NUM_GENERAL_REGISTERS as nat, |k: int| 0u8),
            forall|g: GeneralRegister| #[trigger] r.value_of(g) == 0,
    {
        let r = Registers { i: Address::from(0u16), delay: 0, sound: 0, general: [0u8; NUM_GENERAL_REGISTERS] };
        proof {
            assert(r.general@ =~= Seq::new(NUM_GENERAL_REGISTERS as nat, |k: int| 0u8));
        }
        r
    }

    /// Reads general register `register`.
    pub fn get_general(&self, register: GeneralRegister) -> (r: u8)
        ensures
            r == self.value_of(register),
    {
        self.general[register.as_u8() as usize]
    }

    /// Writes `value` into general register `register`; nothing else changes.
    pub fn set_general(&mut self, register: GeneralRegister, value: u8)
        ensures
            final(self).general@ == old(self).general@.update(register.index(), value),
            final(self).value_of(register) == value,
            forall|g: GeneralRegister| g != register ==> #[trigger] final(self).value_of(g) == old(self).value_of(g),
            final(self).i == old(self).i,
            final(self).delay == old(self).delay,
            final(self).sound == old(self).sound,
    {
        self.general[register.as_u8() as usize] = value;
        proof {
            assert forall|g: GeneralRegister| g != register implies g.index() != register.index() by {
            }
        }
    }

    /// Counts the delay timer down by one, stopping at zero.
    pub fn decrement_delay(&mut self)
        ensures
            final(self).delay == if old(self).delay == 0 { 0 } else { (old(self).delay - 1) as u8 },
            final(self).sound == old(self).sound,
            final(self).i == old(self).i,
            final(self).general == old(self).general,
    {
        if self.delay != 0 {
            self.delay -= 1;
        }
    }

    /// Counts the sound timer down by one, stopping at zero.
    pub fn decrement_sound(&mut self)
        ensures
            final(self).sound == if old(self).sound == 0 { 0 } else { (old(self).sound - 1) as u8 },
            final(self).delay == old(self).delay,
            final(self).i == old(self).i,
            final(self).general == old(self).general,
    {
        if self.sound != 0 {
            self.sound -= 1;
        }
    }

    /// Writes the flag into VF: 0 for `Low`, 1 for `High`.
    pub fn set_vf_flag(&mut self, flag: Flag)
        ensures
            final(self).general@ == old(self).general@.update(15, flag.byte()),
            final(self).value_of(GeneralRegister::VF) == flag.byte(),
            forall|g: GeneralRegister| g != GeneralRegister::VF ==> #[trigger] final(self).value_of(g) == old(self).value_of(g),
            final(self).i == old(self).i,
            final(self).delay == old(self).delay,
            final(self).sound == old(self).sound,
    {
        match flag {
            Flag::Low => self.set_general(GeneralRegister::VF, 0x00u8),
            Flag::High => self.set_general(GeneralRegister::VF, 0x01u8),
        }
    }

    /// The flag that VF holds, or `None` where VF holds neither 0 nor 1.
    pub fn get_vf_flag(&self) -> (r: Option<Flag>)
        ensures
            r == (if self.value_of(GeneralRegister::VF) == 0 {
                Some(Flag::Low)
            } else if self.value_of(GeneralRegister::VF) == 1 {
                Some(Flag::High)
            } else {
                None
            }),
    {
        match self.get_general(GeneralRegister::VF) {
            0x00u8 => Some(Flag::Low),
            0x01u8 => Some(Flag::High),
            _ => None,
        }
    }
}

} // verus!
