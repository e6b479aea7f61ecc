use vstd::prelude::*;

verus! {

/// A 12-bit address into the interpreter's memory space (0x000 to 0xFFF).
///
/// Every constructor in this crate masks its input to 12 bits; the field is
/// public so that contracts can speak of the raw value.
#[derive(Debug, Clone, Copy, PartialEq, Eq, Structural)]
pub struct Address(pub u16);

/// The address that `Address::from(value)` produces: the low 12 bits of `value`.
pub open spec fn address_of(value: int) -> Address {
    Address((value % 0x1000) as u16)
}

impl Address {
    /// Moves the address forward by `value`, wrapping within the 12-bit space.
    pub fn increment(&mut self, value: usize)
        ensures
            *final(self) == address_of(old(self).0 + value),
    {
        let step: u32 = (value % 0x1000) as u32;
        let sum: u32 = self.0 as u32 + step;
        let masked: u32 = sum % 0x1000;
        proof {
            assert((old(self).0 + value) % 0x1000 == (old(self).0 + value % 0x1000) % 0x1000) by {
                vstd::arithmetic::div_mod::lemma_add_mod_noop(old(self).0 as int, value as int, 0x1000);
                vstd::arithmetic::div_mod::lemma_mod_twice(value as int, 0x1000);
                vstd::arithmetic::div_mod::lemma_add_mod_noop(old(self).0 as int, (value % 0x1000) as int, 0x1000);
            }
        }
        *self = Address(masked as u16);
    }
}

impl From<u16> for Address {
    /// Keeps the low 12 bits of `value`.
    fn from(value: u16) -> (r: Address)
        ensures
            r == address_of(value as int),
    {
        proof {
            assert(value & 0x0FFF == value % 0x1000) by (bit_vector);
        }
        Address(value & 0x0FFF)
    }
}

impl vstd::std_specs::convert::FromSpecImpl<u16> for Address {
    open spec fn obeys_from_spec() -> bool {
        true
    }

    open spec fn from_spec(v: u16) -> Address {
        address_of(v as int)
    }
}

impl From<Address> for u16 {
    fn from(value: Address) -> (r: u16)
        ensures
            r == value.0,
    {
        value.0
    }
}

impl vstd::std_specs::convert::FromSpecImpl<Address> for u16 {
    open spec fn obeys_from_spec() -> bool {
        true
    }

    open spec fn from_spec(v: Address) -> u16 {
        v.0
    }
}

/// A 4-bit field of an opcode.
#[derive(Debug, Clone, Copy, PartialEq, Eq, Structural)]
pub enum Nibble {
    Zero,
    One,
    Two,
    Three,
    Four,
    Five,
    Six,
    Seven,
    Eight,
    Nine,
    Ten,
    Eleven,
    Twelve,
    Thirteen,
    Fourteen,
    Fifteen,
}

/// The nibble whose value is `v` (taken modulo 16).
pub open spec fn nibble_of(v: int) -> Nibble {
    let n = v % 16;
    if n == 0 {
        Nibble::Zero
    } else if n == 1 {
        Nibble::One
    } else if n == 2 {
        Nibble::Two
    } else if n == 3 {
        Nibble::Three
    } else if n == 4 {
        Nibble::Four
    } else if n == 5 {
        Nibble::Five
    } else if n == 6 {
        Nibble::Six
    } else if n == 7 {
        Nibble::Seven
    } else if n == 8 {
        Nibble::Eight
    } else if n == 9 {
        Nibble::Nine
    } else if n == 10 {
        Nibble::Ten
    } else if n == 11 {
        Nibble::Eleven
    } else if n == 12 {
        Nibble::Twelve
    } else if n == 13 {
        Nibble::Thirteen
    } else if n == 14 {
        Nibble::Fourteen
    } else 
    {
        Nibble::Fifteen
    }
}

impl Nibble {
    /// The numeric value of the nibble, 0 to 15.
    pub open spec fn value(self) -> int {
        match self {
            Nibble::Zero => 0,
            Nibble::One => 1,
            Nibble::Two => 2,
            Nibble::Three => 3,
            Nibble::Four => 4,
            Nibble::Five => 5,
            Nibble::Six => 6,
            Nibble::Seven => 7,
            Nibble::Eight => 8,
            Nibble::Nine => 9,
            Nibble::Ten => 10,
            Nibble::Eleven => 11,
            Nibble::Twelve => 12,
            Nibble::Thirteen => 13,
            Nibble::Fourteen => 14,
            Nibble::Fifteen => 15,
        }
    }

    /// The upper four bits of `byte`.
    pub fn from_upper(byte: u8) -> (r: Nibble)
        ensures
            r == nibble_of((byte / 16) as int),
            r.value() == byte / 16,
    {
        proof {
            assert(byte >> 4u8 == byte / 16) by (bit_vector);
        }
        Nibble::from_lower(byte >> 4u8)
    }

    /// The lower four bits of `byte`.
    pub fn from_lower(byte: u8) -> (r: Nibble)
        ensures
            r == nibble_of(byte as int),
            r.value() == byte % 16,
    {
        let v: u8 = byte & 0x0F;
        proof {
            assert(byte & 0x0F == byte % 16) by (bit_vector);
        }
        match v {
            0 => Nibble::Zero,
            1 => Nibble::One,
            2 => Nibble::Two,
            3 => Nibble::Three,
            4 => Nibble::Four,
            5 => Nibble::Five,
            6 => Nibble::Six,
            7 => Nibble::Seven,
            8 => Nibble::Eight,
            9 => Nibble::Nine,
            10 => Nibble::Ten,
            11 => Nibble::Eleven,
            12 => Nibble::Twelve,
            13 => Nibble::Thirteen,
            14 => Nibble::Fourteen,
            _ => Nibble::Fifteen,
        }
    }

    /// The numeric value of the nibble.
    pub fn as_u8(self) -> (r: u8)
        ensures
            r as int == self.value(),
    {
        match self {
            Nibble::Zero => 0,
            Nibble::One => 1,
            Nibble::Two => 2,
            Nibble::Three => 3,
            Nibble::Four => 4,
            Nibble::Five => 5,
            Nibble::Six => 6,
            Nibble::Seven => 7,
            Nibble::Eight => 8,
            Nibble::Nine => 9,
            Nibble::Ten => 10,
            Nibble::Eleven => 11,
            Nibble::Twelve => 12,
            Nibble::Thirteen => 13,
            Nibble::Fourteen => 14,
            Nibble::Fifteen => 15,
        }
    }
}

/// One of the sixteen general registers, V0 to VF. VF doubles as the flag register.
#[derive(Debug, Clone, Copy, PartialEq, Eq, Structural)]
pub enum GeneralRegister {
    V0,
    V1,
    V2,
    V3,
    V4,
    V5,
    V6,
    V7,
    V8,
    V9,
    VA,
    VB,
    VC,
    VD,
    VE,
    VF,
}

/// The register numbered `v` (taken modulo 16).
pub open spec fn register_of(v: int) -> GeneralRegister {
    let n = v % 16;
    if n == 0 {
        GeneralRegister::V0
    } else if n == 1 {
        GeneralRegister::V1
    } else if n == 2 {
        GeneralRegister::V2
    } else if n == 3 {
        GeneralRegister::V3
    } else if n == 4 {
        GeneralRegister::V4
    } else if n == 5 {
        GeneralRegister::V5
    } else if n == 6 {
        GeneralRegister::V6
    } else if n == 7 {
        GeneralRegister::V7
    } else if n == 8 {
        GeneralRegister::V8
    } else if n == 9 {
        GeneralRegister::V9
    } else if n == 10 {
        GeneralRegister::VA
    } else if n == 11 {
        GeneralRegister::VB
    } else if n == 12 {
        GeneralRegister::VC
    } else if n == 13 {
        GeneralRegister::VD
    } else if n == 14 {
        GeneralRegister::VE
    } else 
    {
        GeneralRegister::VF
    }
}

/// Another name for a general register, as the register file knows it.
pub type Register = GeneralRegister;

impl GeneralRegister {
    /// The register's number, 0 to 15.
    pub open spec fn index(self) -> int {
        match self {
            GeneralRegister::V0 => 0,
            GeneralRegister::V1 => 1,
            GeneralRegister::V2 => 2,
            GeneralRegister::V3 => 3,
            GeneralRegister::V4 => 4,
            GeneralRegister::V5 => 5,
            GeneralRegister::V6 => 6,
            GeneralRegister::V7 => 7,
            GeneralRegister::V8 => 8,
            GeneralRegister::V9 => 9,
            GeneralRegister::VA => 10,
            GeneralRegister::VB => 11,
            GeneralRegister::VC => 12,
            GeneralRegister::VD => 13,
            GeneralRegister::VE => 14,
            GeneralRegister::VF => 15,
        }
    }

    /// The register numbered `index`.
    pub fn from_index(index: u8) -> (r: GeneralRegister)
        requires
            index < 16,
        ensures
            r == register_of(index as int),
            r.index() == index,
    {
        match index {
            0 => GeneralRegister::V0,
            1 => GeneralRegister::V1,
            2 => GeneralRegister::V2,
            3 => GeneralRegister::V3,
            4 => GeneralRegister::V4,
            5 => GeneralRegister::V5,
            6 => GeneralRegister::V6,
            7 => GeneralRegister::V7,
            8 => GeneralRegister::V8,
            9 => GeneralRegister::V9,
            10 => GeneralRegister::VA,
            11 => GeneralRegister::VB,
            12 => GeneralRegister::VC,
            13 => GeneralRegister::VD,
            14 => GeneralRegister::VE,
            _ => GeneralRegister::VF,
        }
    }

    /// The register's number.
    pub fn as_u8(self) -> (r: u8)
        ensures
            r as int == self.index(),
    {
        match self {
            GeneralRegister::V0 => 0,
            GeneralRegister::V1 => 1,
            GeneralRegister::V2 => 2,
            GeneralRegister::V3 => 3,
            GeneralRegister::V4 => 4,
            GeneralRegister::V5 => 5,
            GeneralRegister::V6 => 6,
            GeneralRegister::V7 => 7,
            GeneralRegister::V8 => 8,
            GeneralRegister::V9 => 9,
            GeneralRegister::VA => 10,
            GeneralRegister::VB => 11,
            GeneralRegister::VC => 12,
            GeneralRegister::VD => 13,
            GeneralRegister::VE => 14,
            GeneralRegister::VF => 15,
        }
    }
}

impl From<Nibble> for GeneralRegister {
    /// The register that a nibble of an opcode names.
    fn from(value: Nibble) -> (r: GeneralRegister)
        ensures
            r.index() == value.value(),
            r == register_of(value.value()),
    {
        match value {
            Nibble::Zero => GeneralRegister::V0,
            Nibble::One => GeneralRegister::V1,
            Nibble::Two => GeneralRegister::V2,
            Nibble::Three => GeneralRegister::V3,
            Nibble::Four => GeneralRegister::V4,
            Nibble::Five => GeneralRegister::V5,
            Nibble::Six => GeneralRegister::V6,
            Nibble::Seven => GeneralRegister::V7,
            Nibble::Eight => GeneralRegister::V8,
            Nibble::Nine => GeneralRegister::V9,
            Nibble::Ten => GeneralRegister::VA,
            Nibble::Eleven => GeneralRegister::VB,
            Nibble::Twelve => GeneralRegister::VC,
            Nibble::Thirteen => GeneralRegister::VD,
            Nibble::Fourteen => GeneralRegister::VE,
            Nibble::Fifteen => GeneralRegister::VF,
        }
    }
}

impl vstd::std_specs::convert::FromSpecImpl<Nibble> for GeneralRegister {
    open spec fn obeys_from_spec() -> bool {
        true
    }

    open spec fn from_spec(v: Nibble) -> GeneralRegister {
        register_of(v.value())
    }
}

} // verus!
