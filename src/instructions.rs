use vstd::prelude::*;

use crate::types::{address_of, nibble_of, register_of, Address, GeneralRegister, Nibble};

verus! {

/// One decoded CHIP-8 instruction.
#[derive(Debug, Clone, Copy, PartialEq, Eq, Structural)]
pub enum Instruction {
    Sys { addr: Address },
    Clear,
    Return,
    Jump { addr: Address },
    Call { addr: Address },
    SkipIfEqByte { reg: GeneralRegister, value: u8 },
    SkipIfNeqByte { reg: GeneralRegister, value: u8 },
    SkipIfEqReg { lhs: GeneralRegister, rhs: GeneralRegister },
    LoadValue { dest: GeneralRegister, value: u8 },
    AddValue { dest: GeneralRegister, value: u8 },
    LoadRegister { dest: GeneralRegister, source: GeneralRegister },
    Or { dest: GeneralRegister, source: GeneralRegister },
    And { dest: GeneralRegister, source: GeneralRegister },
    Xor { dest: GeneralRegister, source: GeneralRegister },
    AddRegister { dest: GeneralRegister, source: GeneralRegister },
    Subtract { dest: GeneralRegister, source: GeneralRegister },
    ShiftRight { dest: GeneralRegister, source: GeneralRegister },
    SubtractNegate { dest: GeneralRegister, source: GeneralRegister },
    ShiftLeft { dest: GeneralRegister, source: GeneralRegister },
    SkipIfNeqReg { lhs: GeneralRegister, rhs: GeneralRegister },
    LoadI { addr: Address },
    JumpPlusV0 { addr: Address },
    Random { dest: GeneralRegister, mask: u8 },
    Draw { x: GeneralRegister, y: GeneralRegister, num_bytes: Nibble },
    SkipIfKeyDown { key_val: GeneralRegister },
    SkipIfKeyUp { key_val: GeneralRegister },
    LoadFromDelayTimer { dest: GeneralRegister },
    LoadFromKey { dest: GeneralRegister },
    SetDelayTimer { source: GeneralRegister },
    SetSoundTimer { source: GeneralRegister },
    AddI { source: GeneralRegister },
    LoadSpriteLocation { digit: GeneralRegister },
    LoadBcd { source: GeneralRegister },
    StoreRegisterRangeAtI { last: GeneralRegister },
    LoadRegisterRangeFromI { last: GeneralRegister },
}

/// A 16-bit opcode, the big-endian pair of bytes fetched from memory.
#[derive(Debug, Clone, Copy, PartialEq, Eq, Structural, PartialOrd, Ord)]
pub struct InstructionBytePair(pub u16);

/// The family of an opcode: its top nibble.
pub open spec fn family(op: u16) -> int {
    (op / 0x1000) as int
}

/// The register named by the second nibble of an opcode.
pub open spec fn field_x(op: u16) -> GeneralRegister {
    register_of((op / 0x100) as int)
}

/// The register named by the third nibble of an opcode.
pub open spec fn field_y(op: u16) -> GeneralRegister {
    register_of((op / 0x10) as int)
}

/// The last nibble of an opcode.
pub open spec fn field_n(op: u16) -> int {
    (op % 0x10) as int
}

/// The low byte of an opcode.
pub open spec fn field_kk(op: u16) -> u8 {
    (op % 0x100) as u8
}

/// The address held in the low 12 bits of an opcode.
pub open spec fn field_nnn(op: u16) -> Address {
    address_of(op as int)
}

/// The arithmetic and logic group `8xyN`.
pub open spec fn decoded_eight(op: u16) -> Option<Instruction> {
    let (dest, source) = (field_x(op), field_y(op));
    let n = field_n(op);
    if n == 0x0 {
        Some(Instruction::LoadRegister { dest, source })
    } else if n == 0x1 {
        Some(Instruction::Or { dest, source })
    } else if n == 0x2 {
        Some(Instruction::And { dest, source })
    } else if n == 0x3 {
        Some(Instruction::Xor { dest, source })
    } else if n == 0x4 {
        Some(Instruction::AddRegister { dest, source })
    } else if n == 0x5 {
        Some(Instruction::Subtract { dest, source })
    } else if n == 0x6 {
        Some(Instruction::ShiftRight { dest, source })
    } else if n == 0x7 {
        Some(Instruction::SubtractNegate { dest, source })
    } else if n == 0xE {
        Some(Instruction::ShiftLeft { dest, source })
    } else {
        None
    }
}

/// The timer, memory and register-range group `Fxkk`.
pub open spec fn decoded_fifteen(op: u16) -> Option<Instruction> {
    let x = field_x(op);
    let kk = field_kk(op);
    if kk == 0x07 {
        Some(Instruction::LoadFromDelayTimer { dest: x })
    } else if kk == 0x0A {
        Some(Instruction::LoadFromKey { dest: x })
    } else if kk == 0x15 {
        Some(Instruction::SetDelayTimer { source: x })
    } else if kk == 0x18 {
        Some(Instruction::SetSoundTimer { source: x })
    } else if kk == 0x1E {
        Some(Instruction::AddI { source: x })
    } else if kk == 0x29 {
        Some(Instruction::LoadSpriteLocation { digit: x })
    } else if kk == 0x33 {
        Some(Instruction::LoadBcd { source: x })
    } else if kk == 0x55 {
        Some(Instruction::StoreRegisterRangeAtI { last: x })
    } else if kk == 0x65 {
        Some(Instruction::LoadRegisterRangeFromI { last: x })
    } else {
        None
    }
}

/// The instruction that the opcode `op` denotes, following the CHIP-8 table,
/// or `None` where the table has no entry for it.
pub open spec fn decoded(op: u16) -> Option<Instruction> {
    let f = family(op);
    if f == 0x0 {
        if op == 0x00E0 {
            Some(Instruction::Clear)
        } else if op == 0x00EE {
            Some(Instruction::Return)
        } else {
            Some(Instruction::Sys { addr: field_nnn(op) })
        }
    } else if f == 0x1 {
        Some(Instruction::Jump { addr: field_nnn(op) })
    } else if f == 0x2 {
        Some(Instruction::Call { addr: field_nnn(op) })
    } else if f == 0x3 {
        Some(Instruction::SkipIfEqByte { reg: field_x(op), value: field_kk(op) })
    } else if f == 0x4 {
        Some(Instruction::SkipIfNeqByte { reg: field_x(op), value: field_kk(op) })
    } else if f == 0x5 {
        if field_n(op) == 0 {
            Some(Instruction::SkipIfEqReg { lhs: field_x(op), rhs: field_y(op) })
        } else {
            None
        }
    } else if f == 0x6 {
        Some(Instruction::LoadValue { dest: field_x(op), value: field_kk(op) })
    } else if f == 0x7 {
        Some(Instruction::AddValue { dest: field_x(op), value: field_kk(op) })
    } else if f == 0x8 {
        decoded_eight(op)
    } else if f == 0x9 {
        if field_n(op) == 0 {
            Some(Instruction::SkipIfNeqReg { lhs: field_x(op), rhs: field_y(op) })
        } else {
            None
        }
    } else if f == 0xA {
        Some(Instruction::LoadI { addr: field_nnn(op) })
    } else if f == 0xB {
        Some(Instruction::JumpPlusV0 { addr: field_nnn(op) })
    } else if f == 0xC {
        Some(Instruction::Random { dest: field_x(op), mask: field_kk(op) })
    } else if f == 0xD {
        Some(Instruction::Draw { x: field_x(op), y: field_y(op), num_bytes: nibble_of(field_n(op)) })
    } else if f == 0xE {
        if field_kk(op) == 0x9E {
            Some(Instruction::SkipIfKeyDown { key_val: field_x(op) })
        } else if field_kk(op) == 0xA1 {
            Some(Instruction::SkipIfKeyUp { key_val: field_x(op) })
        } else {
            None
        }
    } else {
        decoded_fifteen(op)
    }
}

/// The bit fields of an opcode, as the decoder extracts them.
proof fn lemma_opcode_fields(op: u16)
    ensures
        (op / 0x100) / 16 == op / 0x1000,
        (op % 0x100) / 16 == (op / 0x10) % 16,
        (op % 0x100) % 16 == op % 0x10,
        op & 0x0FFF == op % 0x1000,
        op / 0x1000 < 16,
{
    assert((op % 0x100) / 16 == (op / 0x10) % 16) by (bit_vector);
    assert((op % 0x100) % 16 == op % 0x10) by (bit_vector);
    assert(op & 0x0FFF == op % 0x1000) by (bit_vector);
    assert((op / 0x100) / 16 == op / 0x1000) by (bit_vector);
}

impl InstructionBytePair {
    /// The first byte of the opcode.
    pub fn get_upper_byte(&self) -> (r: u8)
        ensures
            r == self.0 / 0x100,
    {
        let op = self.0;
        proof {
            assert((op & 0xFF00) >> 8u16 == op / 0x100) by (bit_vector);
        }
        ((self.0 & 0xFF00) >> 8) as u8
    }

    /// The second byte of the opcode.
    pub fn get_lower_byte(&self) -> (r: u8)
        ensures
            r == self.0 % 0x100,
    {
        let op = self.0;
        proof {
            assert(op & 0x00FF == op % 0x100) by (bit_vector);
        }
        (self.0 & 0x00FF) as u8
    }
}

fn handle_zero(bytes: InstructionBytePair) -> (r: Option<Instruction>)
    requires
        family(bytes.0) == 0x0,
    ensures
        r == decoded(bytes.0),
{
    match bytes.0 {
        0x00E0 => Some(Instruction::Clear),
        0x00EE => Some(Instruction::Return),
        value => Some(Instruction::Sys { addr: Address::from(value) }),
    }
}

fn handle_one(bytes: InstructionBytePair) -> (r: Option<Instruction>)
    requires
        family(bytes.0) == 0x1,
    ensures
        r == decoded(bytes.0),
{
    proof {
        lemma_opcode_fields(bytes.0);
    }
    Some(Instruction::Jump { addr: Address::from(bytes.0 & 0x0FFF) })
}

fn handle_two(bytes: InstructionBytePair) -> (r: Option<Instruction>)
    requires
        family(bytes.0) == 0x2,
    ensures
        r == decoded(bytes.0),
{
    proof {
        lemma_opcode_fields(bytes.0);
    }
    Some(Instruction::Call { addr: Address::from(bytes.0 & 0x0FFF) })
}

fn handle_three(bytes: InstructionBytePair) -> (r: Option<Instruction>)
    requires
        family(bytes.0) == 0x3,
    ensures
        r == decoded(bytes.0),
{
    Some(
        Instruction::SkipIfEqByte {
            reg: Nibble::from_lower(bytes.get_upper_byte()).into(),
            value: bytes.get_lower_byte(),
        },
    )
}

fn handle_four(bytes: InstructionBytePair) -> (r: Option<Instruction>)
    requires
        family(bytes.0) == 0x4,
    ensures
        r == decoded(bytes.0),
{
    Some(
        Instruction::SkipIfNeqByte {
            reg: Nibble::from_lower(bytes.get_upper_byte()).into(),
            value: bytes.get_lower_byte(),
        },
    )
}

fn handle_five(bytes: InstructionBytePair) -> (r: Option<Instruction>)
    requires
        family(bytes.0) == 0x5,
    ensures
        r == decoded(bytes.0),
{
    proof {
        lemma_opcode_fields(bytes.0);
    }
    if Nibble::from_lower(bytes.get_lower_byte()) != Nibble::Zero {
        return None;
    }
    Some(
        Instruction::SkipIfEqReg {
            lhs: Nibble::from_lower(bytes.get_upper_byte()).into(),
            rhs: Nibble::from_upper(bytes.get_lower_byte()).into(),
        },
    )
}

fn handle_six(bytes: InstructionBytePair) -> (r: Option<Instruction>)
    requires
        family(bytes.0) == 0x6,
    ensures
        r == decoded(bytes.0),
{
    Some(
        Instruction::LoadValue {
            dest: Nibble::from_lower(bytes.get_upper_byte()).into(),
            value: bytes.get_lower_byte(),
        },
    )
}

fn handle_seven(bytes: InstructionBytePair) -> (r: Option<Instruction>)
    requires
        family(bytes.0) == 0x7,
    ensures
        r == decoded(bytes.0),
{
    Some(
        Instruction::AddValue {
            dest: Nibble::from_lower(bytes.get_upper_byte()).into(),
            value: bytes.get_lower_byte(),
        },
    )
}

fn handle_eight(bytes: InstructionBytePair) -> (r: Option<Instruction>)
    requires
        family(bytes.0) == 0x8,
    ensures
        r == decoded(bytes.0),
{
    proof {
        lemma_opcode_fields(bytes.0);
    }
    let x: GeneralRegister = Nibble::from_lower(bytes.get_upper_byte()).into();
    let y: GeneralRegister = Nibble::from_upper(bytes.get_lower_byte()).into();
    match Nibble::from_lower(bytes.get_lower_byte()) {
        Nibble::Zero => Some(Instruction::LoadRegister { dest: x, source: y }),
        Nibble::One => Some(Instruction::Or { dest: x, source: y }),
        Nibble::Two => Some(Instruction::And { dest: x, source: y }),
        Nibble::Three => Some(Instruction::Xor { dest: x, source: y }),
        Nibble::Four => Some(Instruction::AddRegister { dest: x, source: y }),
        Nibble::Five => Some(Instruction::Subtract { dest: x, source: y }),
        Nibble::Six => Some(Instruction::ShiftRight { dest: x, source: y }),
        Nibble::Seven => Some(Instruction::SubtractNegate { dest: x, source: y }),
        Nibble::Fourteen => Some(Instruction::ShiftLeft { dest: x, source: y }),
        _ => None,
    }
}

fn handle_nine(bytes: InstructionBytePair) -> (r: Option<Instruction>)
    requires
        family(bytes.0) == 0x9,
    ensures
        r == decoded(bytes.0),
{
    proof {
        lemma_opcode_fields(bytes.0);
    }
    if Nibble::from_lower(bytes.get_lower_byte()) != Nibble::Zero {
        return None;
    }
    Some(
        Instruction::SkipIfNeqReg {
            lhs: Nibble::from_lower(bytes.get_upper_byte()).into(),
            rhs: Nibble::from_upper(bytes.get_lower_byte()).into(),
        },
    )
}

fn handle_ten(bytes: InstructionBytePair) -> (r: Option<Instruction>)
    requires
        family(bytes.0) == 0xA,
    ensures
        r == decoded(bytes.0),
{
    proof {
        lemma_opcode_fields(bytes.0);
    }
    Some(Instruction::LoadI { addr: Address::from(bytes.0 & 0x0FFF) })
}

fn handle_eleven(bytes: InstructionBytePair) -> (r: Option<Instruction>)
    requires
        family(bytes.0) == 0xB,
    ensures
        r == decoded(bytes.0),
{
    proof {
        lemma_opcode_fields(bytes.0);
    }
    Some(Instruction::JumpPlusV0 { addr: Address::from(bytes.0 & 0x0FFF) })
}

fn handle_twelve(bytes: InstructionBytePair) -> (r: Option<Instruction>)
    requires
        family(bytes.0) == 0xC,
    ensures
        r == decoded(bytes.0),
{
    Some(
        Instruction::Random {
            dest: Nibble::from_lower(bytes.get_upper_byte()).into(),
            mask: bytes.get_lower_byte(),
        },
    )
}

fn handle_thirteen(bytes: InstructionBytePair) -> (r: Option<Instruction>)
    requires
        family(bytes.0) == 0xD,
    ensures
        r == decoded(bytes.0),
{
    proof {
        lemma_opcode_fields(bytes.0);
    }
    Some(
        Instruction::Draw {
            x: Nibble::from_lower(bytes.get_upper_byte()).into(),
            y: Nibble::from_upper(bytes.get_lower_byte()).into(),
            num_bytes: Nibble::from_lower(bytes.get_lower_byte()),
        },
    )
}

fn handle_fourteen(bytes: InstructionBytePair) -> (r: Option<Instruction>)
    requires
        family(bytes.0) == 0xE,
    ensures
        r == decoded(bytes.0),
{
    let key_val: GeneralRegister = Nibble::from_lower(bytes.get_upper_byte()).into();
    match bytes.get_lower_byte() {
        0x9E => Some(Instruction::SkipIfKeyDown { key_val }),
        0xA1 => Some(Instruction::SkipIfKeyUp { key_val }),
        _ => None,
    }
}

fn handle_fifteen(bytes: InstructionBytePair) -> (r: Option<Instruction>)
    requires
        family(bytes.0) == 0xF,
    ensures
        r == decoded(bytes.0),
{
    let x: GeneralRegister = Nibble::from_lower(bytes.get_upper_byte()).into();
    match bytes.get_lower_byte() {
        0x07 => Some(Instruction::LoadFromDelayTimer { dest: x }),
        0x0A => Some(Instruction::LoadFromKey { dest: x }),
        0x15 => Some(Instruction::SetDelayTimer { source: x }),
        0x18 => Some(Instruction::SetSoundTimer { source: x }),
        0x1E => Some(Instruction::AddI { source: x }),
        0x29 => Some(Instruction::LoadSpriteLocation { digit: x }),
        0x33 => Some(Instruction::LoadBcd { source: x }),
        0x55 => Some(Instruction::StoreRegisterRangeAtI { last: x }),
        0x65 => Some(Instruction::LoadRegisterRangeFromI { last: x }),
        _ => None,
    }
}

/// Decodes an opcode. The result depends on the opcode alone and is exactly
/// the entry of the CHIP-8 table for it, or `None` where there is none.
pub fn decode(bytes: InstructionBytePair) -> (r: Option<Instruction>)
    ensures
        r == decoded(bytes.0),
{
    proof {
        lemma_opcode_fields(bytes.0);
    }
    match Nibble::from_upper(bytes.get_upper_byte()) {
        Nibble::Zero => handle_zero(bytes),
        Nibble::One => handle_one(bytes),
        Nibble::Two => handle_two(bytes),
        Nibble::Three => handle_three(bytes),
        Nibble::Four => handle_four(bytes),
        Nibble::Five => handle_five(bytes),
        Nibble::Six => handle_six(bytes),
        Nibble::Seven => handle_seven(bytes),
        Nibble::Eight => handle_eight(bytes),
        Nibble::Nine => handle_nine(bytes),
        Nibble::Ten => handle_ten(bytes),
        Nibble::Eleven => handle_eleven(bytes),
        Nibble::Twelve => handle_twelve(bytes),
        Nibble::Thirteen => handle_thirteen(bytes),
        Nibble::Fourteen => handle_fourteen(bytes),
        Nibble::Fifteen => handle_fifteen(bytes),
    }
}

/// The opcodes that the CHIP-8 table lists: every opcode of the families
/// 0-4, 6, 7 and A-D, and those of the other families whose trailing nibble
/// or byte the table names.
pub open spec fn is_listed_opcode(op: u16) -> bool {
    let f = family(op);
    let n = field_n(op);
    let kk = field_kk(op);
    if f == 0x5 || f == 0x9 {
        n == 0
    } else if f == 0x8 {
        n <= 0x7 || n == 0xE
    } else if f == 0xE {
        kk == 0x9E || kk == 0xA1
    } else if f == 0xF {
        kk == 0x07 || kk == 0x0A || kk == 0x15 || kk == 0x18 || kk == 0x1E || kk == 0x29
            || kk == 0x33 || kk == 0x55 || kk == 0x65
    } else {
        true
    }
}

/// Decoding is total: every 16-bit opcode decodes to exactly one instruction
/// when the table lists it, and fails otherwise. (`decode` returns
/// `decoded(op)`, a function of the opcode alone, so it is also deterministic.)
pub proof fn lemma_decode_total(op: u16)
    ensures
        decoded(op) is Some <==> is_listed_opcode(op),
{
    lemma_opcode_fields(op);
}

/// In the families 5 and 9 an opcode whose last nibble is not zero fails to
/// decode.
pub proof fn lemma_five_and_nine_need_zero_tail(op: u16)
    requires
        family(op) == 0x5 || family(op) == 0x9,
        field_n(op) != 0,
    ensures
        decoded(op) is None,
{
}

} // verus!
