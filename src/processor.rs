use vstd::prelude::*;

use grid::Grid;

use crate::bcd::{bcd_digits, to_bcd};
use crate::display::{Display, Pixel, PixelsDisabled};
use crate::instructions::{decode, decoded, Instruction, InstructionBytePair};
use crate::keypad::{KeyStatus, Keys, NUM_KEYS};
use crate::registers::{Flag, Registers};
use crate::types::{address_of, Address, GeneralRegister};

verus! {

/// The size of the address space in bytes.
pub const MEMORY_SIZE_BYTES: usize = 0xFFF;

/// The depth of the call stack.
pub const STACK_SIZE: usize = 16;

/// Where programs are loaded and execution starts.
pub const PROGRAM_START: usize = 0x200;

/// The longest program that fits between `PROGRAM_START` and the end of memory.
pub const MAX_PROGRAM_BYTES: usize = MEMORY_SIZE_BYTES - PROGRAM_START;

/// The size in bytes of one glyph of the built-in hexadecimal font.
pub const HEX_SPRITE_STRIDE: usize = 5;

/// The size in bytes of the built-in font: sixteen glyphs.
pub const HEX_SPRITE_BYTES: usize = 80;

/// The built-in font: one 5-byte glyph for each hexadecimal digit, stored at
/// the bottom of memory.
pub open spec fn hex_sprite_data() -> Seq<u8> {
    seq![
        0xF0u8, 0x90u8, 0x90u8, 0x90u8, 0xF0u8,  // 0
        0x20u8, 0x60u8, 0x20u8, 0x20u8, 0x70u8,  // 1
        0xF0u8, 0x10u8, 0xF0u8, 0x80u8, 0xF0u8,  // 2
        0xF0u8, 0x10u8, 0xF0u8, 0x10u8, 0xF0u8,  // 3
        0x90u8, 0x90u8, 0xF0u8, 0x10u8, 0x10u8,  // 4
        0xF0u8, 0x80u8, 0xF0u8, 0x10u8, 0xF0u8,  // 5
        0xF0u8, 0x80u8, 0xF0u8, 0x90u8, 0xF0u8,  // 6
        0xF0u8, 0x10u8, 0x20u8, 0x40u8, 0x40u8,  // 7
        0xF0u8, 0x90u8, 0xF0u8, 0x90u8, 0xF0u8,  // 8
        0xF0u8, 0x90u8, 0xF0u8, 0x10u8, 0xF0u8,  // 9
        0xF0u8, 0x90u8, 0xF0u8, 0x90u8, 0x90u8,  // A
        0xE0u8, 0x90u8, 0xE0u8, 0x90u8, 0xE0u8,  // B
        0xF0u8, 0x80u8, 0x80u8, 0x80u8, 0xF0u8,  // C
        0xE0u8, 0x90u8, 0x90u8, 0x90u8, 0xE0u8,  // D
        0xF0u8, 0x80u8, 0xF0u8, 0x80u8, 0xF0u8,  // E
        0xF0u8, 0x80u8, 0xF0u8, 0x80u8, 0x80u8,  // F
    ]
}

fn hex_sprite_bytes() -> (r: Vec<u8>)
    ensures
        r@ == hex_sprite_data(),
{
    let r = vec![
        0xF0u8, 0x90u8, 0x90u8, 0x90u8, 0xF0u8,  // 0
        0x20u8, 0x60u8, 0x20u8, 0x20u8, 0x70u8,  // 1
        0xF0u8, 0x10u8, 0xF0u8, 0x80u8, 0xF0u8,  // 2
        0xF0u8, 0x10u8, 0xF0u8, 0x10u8, 0xF0u8,  // 3
        0x90u8, 0x90u8, 0xF0u8, 0x10u8, 0x10u8,  // 4
        0xF0u8, 0x80u8, 0xF0u8, 0x10u8, 0xF0u8,  // 5
        0xF0u8, 0x80u8, 0xF0u8, 0x90u8, 0xF0u8,  // 6
        0xF0u8, 0x10u8, 0x20u8, 0x40u8, 0x40u8,  // 7
        0xF0u8, 0x90u8, 0xF0u8, 0x90u8, 0xF0u8,  // 8
        0xF0u8, 0x90u8, 0xF0u8, 0x10u8, 0xF0u8,  // 9
        0xF0u8, 0x90u8, 0xF0u8, 0x90u8, 0x90u8,  // A
        0xE0u8, 0x90u8, 0xE0u8, 0x90u8, 0xE0u8,  // B
        0xF0u8, 0x80u8, 0x80u8, 0x80u8, 0xF0u8,  // C
        0xE0u8, 0x90u8, 0x90u8, 0x90u8, 0xE0u8,  // D
        0xF0u8, 0x80u8, 0xF0u8, 0x80u8, 0xF0u8,  // E
        0xF0u8, 0x80u8, 0xF0u8, 0x80u8, 0x80u8,  // F
    ];
    proof {
        assert(r@ =~= hex_sprite_data());
    }
    r
}

/// What can go wrong while loading or running a program.
#[derive(Debug, Clone, Copy, PartialEq, Eq, Structural)]
pub enum ProcessorError {
    ProgramTooLong { size: usize },
    StackOverflow { address: Address },
    StackUnderflow { address: Address },
    MemoryOverrun { address: Address },
    DecodeFailure { instruction: InstructionBytePair },
}

/// The shape of the screen.
pub struct Config {
    pub display_width: usize,
    pub display_height: usize,
}

impl Default for Config {
    /// The classic 64 by 32 screen.
    fn default() -> (r: Config)
        ensures
            r.display_width == 64,
            r.display_height == 32,
    {
        Config { display_width: 64, display_height: 32 }
    }
}

/// The memory image of a freshly loaded program: the font at the bottom, the
/// program at `PROGRAM_START`, zeros elsewhere.
pub open spec fn initial_memory(program: Seq<u8>) -> Seq<u8> {
    Seq::new(
        MEMORY_SIZE_BYTES as nat,
        |k: int|
            if k < HEX_SPRITE_BYTES {
                hex_sprite_data()[k]
            } else if PROGRAM_START <= k < PROGRAM_START + program.len() {
                program[k - PROGRAM_START]
            } else {
                0u8
            },
    )
}

/// The low byte of `v`, as 8-bit wrapping arithmetic leaves it.
pub open spec fn wrapped(v: int) -> u8 {
    (v % 256) as u8
}

/// The interpreter: memory, registers, call stack, program counter, screen and keypad.
pub struct Processor {
    pub memory: [u8; MEMORY_SIZE_BYTES],
    pub registers: Registers,
    pub stack: [Address; STACK_SIZE],
    pub program_counter: Address,
    pub stack_pointer: usize,
    pub display: Display,
    pub keys: Keys,
}

impl Processor {
    /// The stack pointer stays inside the stack and the screen is a
    /// non-empty, well-formed grid.
    pub open spec fn wf(&self) -> bool {
        &&& self.stack_pointer < STACK_SIZE
        &&& self.display.wf()
        &&& self.display.width() > 0
        &&& self.display.height() > 0
    }

    /// The value of general register `r`.
    pub open spec fn reg(&self, r: GeneralRegister) -> u8 {
        self.registers.value_of(r)
    }

    /// The value of the address register I.
    pub open spec fn i_reg(&self) -> int {
        self.registers.i.0 as int
    }

    /// Whether key `key` is held down.
    pub open spec fn key_down(&self, key: int) -> bool {
        0 <= key < NUM_KEYS && self.keys.keys_status@[key] == KeyStatus::Pressed
    }

    /// The lowest key that is held down, if any.
    pub open spec fn lowest_key_down(&self) -> Option<int> {
        if exists|k: int| #[trigger] self.key_down(k) {
            Some(choose|k: int| #[trigger] self.key_down(k) && forall|j: int| 0 <= j < k ==> !self.key_down(j))
        } else {
            None
        }
    }

    /// The program counter moved on by `n` bytes, within the 12-bit space.
    pub open spec fn advanced(&self, n: int) -> Address {
        address_of(self.program_counter.0 + n)
    }

    /// The opcode at the program counter, or the fault of reading past memory.
    pub open spec fn fetched(&self) -> Result<u16, ProcessorError> {
        let pc = self.program_counter.0 as int;
        if pc + 1 < MEMORY_SIZE_BYTES {
            Ok((self.memory@[pc] * 256 + self.memory@[pc + 1]) as u16)
        } else {
            Err(ProcessorError::MemoryOverrun { address: self.program_counter })
        }
    }

    /// The fault that executing `ins` meets, if any: an empty stack on return,
    /// a full stack on call, or a memory range that runs past the end.
    pub open spec fn fault(&self, ins: Instruction) -> Option<ProcessorError> {
        let at = self.program_counter;
        match ins {
            Instruction::Return => if self.stack_pointer == 0 {
                Some(ProcessorError::StackUnderflow { address: at })
            } else {
                None
            },
            Instruction::Call { .. } => if self.stack_pointer + 1 >= STACK_SIZE {
                Some(ProcessorError::StackOverflow { address: at })
            } else {
                None
            },
            Instruction::Draw { num_bytes, .. } => if self.i_reg() + num_bytes.value() > MEMORY_SIZE_BYTES {
                Some(ProcessorError::MemoryOverrun { address: at })
            } else {
                None
            },
            Instruction::LoadBcd { .. } => if self.i_reg() + 3 > MEMORY_SIZE_BYTES {
                Some(ProcessorError::MemoryOverrun { address: at })
            } else {
                None
            },
            Instruction::StoreRegisterRangeAtI { last } => if self.i_reg() + last.index() + 1 > MEMORY_SIZE_BYTES {
                Some(ProcessorError::MemoryOverrun { address: at })
            } else {
                None
            },
            Instruction::LoadRegisterRangeFromI { last } => if self.i_reg() + last.index() + 1 > MEMORY_SIZE_BYTES {
                Some(ProcessorError::MemoryOverrun { address: at })
            } else {
                None
            },
            _ => None,
        }
    }

    /// The program counter after `ins`: a jump, call or return sets it, a
    /// skip whose test holds moves it on by 4, a wait for a key with no key
    /// down leaves it, and every other instruction moves it on by 2.
    pub open spec fn next_pc(&self, ins: Instruction) -> Address {
        match ins {
            Instruction::Jump { addr } => addr,
            Instruction::Call { addr } => addr,
            Instruction::Return => address_of(self.stack@[self.stack_pointer as int].0 + 2),
            Instruction::JumpPlusV0 { addr } => address_of(self.reg(GeneralRegister::V0) + addr.0),
            Instruction::SkipIfEqByte { reg, value } => if self.reg(reg) == value {
                self.advanced(4)
            } else {
                self.advanced(2)
            },
            Instruction::SkipIfNeqByte { reg, value } => if self.reg(reg) != value {
                self.advanced(4)
            } else {
                self.advanced(2)
            },
            Instruction::SkipIfEqReg { lhs, rhs } => if self.reg(lhs) == self.reg(rhs) {
                self.advanced(4)
            } else {
                self.advanced(2)
            },
            Instruction::SkipIfNeqReg { lhs, rhs } => if self.reg(lhs) != self.reg(rhs) {
                self.advanced(4)
            } else {
                self.advanced(2)
            },
            Instruction::SkipIfKeyDown { key_val } => if self.key_down(self.reg(key_val) as int) {
                self.advanced(4)
            } else {
                self.advanced(2)
            },
            Instruction::SkipIfKeyUp { key_val } => if !self.key_down(self.reg(key_val) as int) {
                self.advanced(4)
            } else {
                self.advanced(2)
            },
            Instruction::LoadFromKey { .. } => if self.lowest_key_down() is Some {
                self.advanced(2)
            } else {
                self.program_counter
            },
            _ => self.advanced(2),
        }
    }

    /// The general registers after `ins`, with `random` as the byte drawn by
    /// `Random`. The flag VF is written after the result, so it wins where the
    /// destination is VF.
    pub open spec fn general_after(&self, ins: Instruction, random: u8) -> Seq<u8> {
        let g = self.registers.general@;
        match ins {
            Instruction::LoadValue { dest, value } => g.update(dest.index(), value),
            Instruction::AddValue { dest, value } => g.update(dest.index(), wrapped(self.reg(dest) + value)),
            Instruction::LoadRegister { dest, source } => g.update(dest.index(), self.reg(source)),
            Instruction::Or { dest, source } => g.update(dest.index(), self.reg(dest) | self.reg(source)),
            Instruction::And { dest, source } => g.update(dest.index(), self.reg(dest) & self.reg(source)),
            Instruction::Xor { dest, source } => g.update(dest.index(), self.reg(dest) ^ self.reg(source)),
            Instruction::AddRegister { dest, source } => g.update(
                dest.index(),
                wrapped(self.reg(dest) + self.reg(source)),
            ).update(15, if self.reg(dest) + self.reg(source) > 255 { 1u8 } else { 0u8 }),
            Instruction::Subtract { dest, source } => g.update(
                dest.index(),
                wrapped(self.reg(dest) - self.reg(source)),
            ).update(15, if self.reg(dest) >= self.reg(source) { 1u8 } else { 0u8 }),
            Instruction::ShiftRight { dest, .. } => g.update(dest.index(), self.reg(dest) >> 1u8).update(
                15,
                self.reg(dest) & 1u8,
            ),
            Instruction::SubtractNegate { dest, source } => g.update(
                dest.index(),
                wrapped(self.reg(source) - self.reg(dest)),
            ).update(15, if self.reg(source) >= self.reg(dest) { 1u8 } else { 0u8 }),
            Instruction::ShiftLeft { dest, .. } => g.update(dest.index(), self.reg(dest) << 1u8).update(
                15,
                self.reg(dest) >> 7u8,
            ),
            Instruction::Random { dest, mask } => g.update(dest.index(), random & mask),
            Instruction::LoadFromDelayTimer { dest } => g.update(dest.index(), self.registers.delay),
            Instruction::LoadFromKey { dest } => match self.lowest_key_down() {
                Some(k) => g.update(dest.index(), k as u8),
                None => g,
            },
            Instruction::LoadRegisterRangeFromI { last } => Seq::new(
                16,
                |k: int|
                    if k <= last.index() {
                        self.memory@[self.i_reg() + k]
                    } else {
                        g[k]
                    },
            ),
            _ => g,
        }
    }

    /// The address register I after `ins`. `AddI` keeps the sum to 12 bits.
    pub open spec fn i_after(&self, ins: Instruction) -> Address {
        match ins {
            Instruction::LoadI { addr } => addr,
            Instruction::AddI { source } => address_of(self.i_reg() + self.reg(source)),
            Instruction::LoadSpriteLocation { digit } => address_of((self.reg(digit) % 16) * HEX_SPRITE_STRIDE),
            _ => self.registers.i,
        }
    }

    /// The delay timer after `ins`.
    pub open spec fn delay_after(&self, ins: Instruction) -> u8 {
        match ins {
            Instruction::SetDelayTimer { source } => self.reg(source),
            _ => self.registers.delay,
        }
    }

    /// The sound timer after `ins`.
    pub open spec fn sound_after(&self, ins: Instruction) -> u8 {
        match ins {
            Instruction::SetSoundTimer { source } => self.reg(source),
            _ => self.registers.sound,
        }
    }

    /// Memory after `ins`: `LoadBcd` writes three decimal digits at I, and
    /// `StoreRegisterRangeAtI` copies V0 up to the last register to I onwards.
    pub open spec fn memory_after(&self, ins: Instruction) -> Seq<u8> {
        let m = self.memory@;
        let i = self.i_reg();
        match ins {
            Instruction::LoadBcd { source } => {
                let d = bcd_digits(self.reg(source));
                m.update(i, d[0]).update(i + 1, d[1]).update(i + 2, d[2])
            },
            Instruction::StoreRegisterRangeAtI { last } => Seq::new(
                m.len(),
                |k: int|
                    if i <= k <= i + last.index() {
                        self.registers.general@[k - i]
                    } else {
                        m[k]
                    },
            ),
            _ => m,
        }
    }

    /// The stack after `ins`: a call pushes the address of the call itself.
    pub open spec fn stack_after(&self, ins: Instruction) -> Seq<Address> {
        match ins {
            Instruction::Call { .. } => self.stack@.update(self.stack_pointer + 1, self.program_counter),
            _ => self.stack@,
        }
    }

    /// The stack pointer after `ins`.
    pub open spec fn stack_pointer_after(&self, ins: Instruction) -> int {
        match ins {
            Instruction::Call { .. } => self.stack_pointer + 1,
            Instruction::Return => self.stack_pointer - 1,
            _ => self.stack_pointer as int,
        }
    }

    /// The screen after `ins`: `Clear` blanks it, `Draw` draws the bytes at I
    /// at the position held in the two registers, anything else leaves it.
    pub open spec fn display_after(&self, ins: Instruction, after: Display) -> bool {
        match ins {
            Instruction::Clear => self.display.clears(after),
            Instruction::Draw { x, y, num_bytes } => {
                let sprite = self.memory@.subrange(self.i_reg(), self.i_reg() + num_bytes.value());
                let (px, py) = (self.reg(x) as int, self.reg(y) as int);
                self.display.draws(after, px, py, sprite, PixelsDisabled::NoPixels)
                    || self.display.draws(after, px, py, sprite, PixelsDisabled::SomePixels)
            },
            _ => after == self.display,
        }
    }

    /// What a successful `ins` does to the whole machine.
    pub open spec fn effect(&self, after: Processor, ins: Instruction, random: u8) -> bool {
        &&& after.program_counter == self.next_pc(ins)
        &&& after.registers.general@ == self.general_after(ins, random)
        &&& after.registers.i == self.i_after(ins)
        &&& after.registers.delay == self.delay_after(ins)
        &&& after.registers.sound == self.sound_after(ins)
        &&& after.memory@ == self.memory_after(ins)
        &&& after.stack@ == self.stack_after(ins)
        &&& after.stack_pointer == self.stack_pointer_after(ins)
        &&& self.display_after(ins, after.display)
        &&& after.keys == self.keys
    }

    /// Executing `ins` either fails on its fault, leaving the machine as it
    /// was, or succeeds with its effect.
    pub open spec fn executes(&self, after: Processor, ins: Instruction, random: u8, r: Result<(), ProcessorError>) -> bool {
        match self.fault(ins) {
            Some(e) => r == Err::<(), ProcessorError>(e) && after == *self,
            None => r is Ok && self.effect(after, ins, random),
        }
    }

    /// One step: fetch the opcode at the program counter, decode it and
    /// execute it. A failure at any stage leaves the machine as it was.
    pub open spec fn steps(&self, after: Processor, random: u8, r: Result<(), ProcessorError>) -> bool {
        match self.fetched() {
            Err(e) => r == Err::<(), ProcessorError>(e) && after == *self,
            Ok(op) => match decoded(op) {
                None => r == Err::<(), ProcessorError>(
                    ProcessorError::DecodeFailure { instruction: InstructionBytePair(op) },
                ) && after == *self,
                Some(ins) => self.executes(after, ins, random, r),
            },
        }
    }
}

/// Relies on `rand::random::<u8>`: a byte from the thread-local generator.
/// Nothing is promised of its value.
#[verifier::external_body]
fn random_byte() -> (r: u8) {
    rand::random::<u8>()
}

/// Whether `ins` only reads and writes registers.
pub open spec fn is_register_op(ins: Instruction) -> bool {
    ||| ins is LoadValue
    ||| ins is AddValue
    ||| ins is LoadRegister
    ||| ins is Or
    ||| ins is And
    ||| ins is Xor
    ||| ins is AddRegister
    ||| ins is Subtract
    ||| ins is ShiftRight
    ||| ins is SubtractNegate
    ||| ins is ShiftLeft
    ||| ins is Random
    ||| ins is LoadFromDelayTimer
    ||| ins is SetDelayTimer
    ||| ins is SetSoundTimer
    ||| ins is LoadI
    ||| ins is AddI
    ||| ins is LoadSpriteLocation
}

/// Whether `ins` is one of the arithmetic and logic group `8xyN`.
pub open spec fn is_alu_op(ins: Instruction) -> bool {
    ||| ins is LoadRegister
    ||| ins is Or
    ||| ins is And
    ||| ins is Xor
    ||| ins is AddRegister
    ||| ins is Subtract
    ||| ins is ShiftRight
    ||| ins is SubtractNegate
    ||| ins is ShiftLeft
}

/// Whether `ins` loads a register, a timer or I without arithmetic flags.
pub open spec fn is_load_op(ins: Instruction) -> bool {
    is_register_op(ins) && !is_alu_op(ins)
}

/// Whether `ins` moves data between the registers and memory.
pub open spec fn is_memory_op(ins: Instruction) -> bool {
    ||| ins is LoadBcd
    ||| ins is StoreRegisterRangeAtI
    ||| ins is LoadRegisterRangeFromI
}

impl Processor {
    /// A machine with `program_bytes` loaded at `PROGRAM_START` and a 64 by 32
    /// screen; fails where the program does not fit.
    pub fn new(program_bytes: Vec<u8>) -> (r: Result<Processor, ProcessorError>)
        ensures
            program_bytes@.len() > MAX_PROGRAM_BYTES ==> r == Err::<Processor, ProcessorError>(
                ProcessorError::ProgramTooLong { size: program_bytes@.len() as usize },
            ),
            program_bytes@.len() <= MAX_PROGRAM_BYTES ==> (r matches Ok(p) && p.fresh(program_bytes@, 64, 32)),
    {
        Self::new_with_config(program_bytes, Config::default())
    }

    /// The machine as loading leaves it: memory holds the font and the
    /// program, registers and stack are zero, the program counter is at
    /// `PROGRAM_START`, the screen is blank and marked changed, no key is down.
    pub open spec fn fresh(&self, program: Seq<u8>, width: int, height: int) -> bool {
        &&& self.wf()
        &&& self.memory@ == initial_memory(program)
        &&& self.registers.general@ == Seq::new(16, |k: int| 0u8)
        &&& self.registers.i == address_of(0)
        &&& self.registers.delay == 0
        &&& self.registers.sound == 0
        &&& self.stack@ == Seq::new(STACK_SIZE as nat, |k: int| address_of(0))
        &&& self.stack_pointer == 0
        &&& self.program_counter == address_of(PROGRAM_START as int)
        &&& self.display.dirty
        &&& self.display.width() == width
        &&& self.display.height() == height
        &&& forall|r: int, c: int| #[trigger] self.display.on_screen(r, c) ==> self.display.pixel(r, c) == Pixel::Off
        &&& forall|k: int| 0 <= k < NUM_KEYS ==> #[trigger] self.keys.keys_status@[k] == KeyStatus::Released
    }

    /// A machine with `program_bytes` loaded at `PROGRAM_START` and a screen of
    /// the configured shape; fails where the program does not fit.
    pub fn new_with_config(program_bytes: Vec<u8>, config: Config) -> (r: Result<Processor, ProcessorError>)
        requires
            config.display_width > 0,
            config.display_height > 0,
            config.display_width * config.display_height <= usize::MAX,
        ensures
            program_bytes@.len() > MAX_PROGRAM_BYTES ==> r == Err::<Processor, ProcessorError>(
                ProcessorError::ProgramTooLong { size: program_bytes@.len() as usize },
            ),
            program_bytes@.len() <= MAX_PROGRAM_BYTES ==> (r matches Ok(p) && p.fresh(
                program_bytes@,
                config.display_width as int,
                config.display_height as int,
            )),
    {
        if program_bytes.len() > MAX_PROGRAM_BYTES {
            return Err(ProcessorError::ProgramTooLong { size: program_bytes.len() });
        }
        let mut memory = [0u8; MEMORY_SIZE_BYTES];
        let font = hex_sprite_bytes();
        let mut k: usize = 0;
        while k < HEX_SPRITE_BYTES
            invariant
                k <= HEX_SPRITE_BYTES,
                font@ == hex_sprite_data(),
                forall|m: int| 0 <= m < MEMORY_SIZE_BYTES ==> #[trigger] memory@[m] == if m < k {
                    hex_sprite_data()[m]
                } else {
                    0u8
                },
            decreases HEX_SPRITE_BYTES - k,
        {
            memory[k] = font[k];
            k += 1;
        }
        let mut j: usize = 0;
        while j < program_bytes.len()
            invariant
                j <= program_bytes@.len(),
                program_bytes@.len() <= MAX_PROGRAM_BYTES,
                forall|m: int| 0 <= m < MEMORY_SIZE_BYTES ==> #[trigger] memory@[m] == if m < HEX_SPRITE_BYTES {
                    hex_sprite_data()[m]
                } else if PROGRAM_START <= m < PROGRAM_START + j {
                    program_bytes@[m - PROGRAM_START]
                } else {
                    0u8
                },
            decreases program_bytes@.len() - j,
        {
            memory[PROGRAM_START + j] = program_bytes[j];
            j += 1;
        }
        let p = Processor {
            memory,
            registers: Registers::new(),
            stack: [Address::from(0u16); STACK_SIZE],
            program_counter: Address::from(PROGRAM_START as u16),
            stack_pointer: 0,
            display: Display::new(config.display_width, config.display_height),
            keys: Keys::new(),
        };
        proof {
            assert(p.memory@ =~= initial_memory(program_bytes@));
            assert(p.stack@ =~= Seq::new(STACK_SIZE as nat, |k: int| address_of(0)));
        }
        Ok(p)
    }

    /// Runs one instruction, drawing a fresh random byte for `Random`.
    pub fn step(&mut self) -> (r: Result<(), ProcessorError>)
        requires
            old(self).wf(),
        ensures
            final(self).wf(),
            exists|random: u8| #[trigger] old(self).steps(*final(self), random, r),
    {
        let random = random_byte();
        self.step_with_random(random)
    }

    /// Runs one instruction, with `random` as the byte that `Random` masks.
    pub fn step_with_random(&mut self, random: u8) -> (r: Result<(), ProcessorError>)
        requires
            old(self).wf(),
        ensures
            final(self).wf(),
            old(self).steps(*final(self), random, r),
    {
        let instruction_bytes = match self.fetch() {
            Ok(bytes) => bytes,
            Err(e) => return Err(e),
        };
        let instruction = match decode(instruction_bytes) {
            Some(ins) => ins,
            None => return Err(ProcessorError::DecodeFailure { instruction: instruction_bytes }),
        };
        self.execute(instruction, random)
    }

    /// The screen, where it changed since it was last handed out.
    pub fn get_display_buffer(&mut self) -> (r: Option<&Grid<Pixel>>)
        ensures
            old(self).display.snapshot(
                final(self).display,
                (match r {
                    Some(g) => Some(*g),
                    None => None,
                }),
            ),
            final(self).memory == old(self).memory,
            final(self).registers == old(self).registers,
            final(self).stack == old(self).stack,
            final(self).stack_pointer == old(self).stack_pointer,
            final(self).program_counter == old(self).program_counter,
            final(self).keys == old(self).keys,
    {
        self.display.get_display_buffer()
    }

    /// Latches a key event; a key index past the pad is ignored.
    pub fn add_key_event(&mut self, key: usize, status: KeyStatus)
        requires
            old(self).wf(),
        ensures
            final(self).wf(),
            final(self).keys.keys_status@ == if key < NUM_KEYS {
                old(self).keys.keys_status@.update(key as int, status)
            } else {
                old(self).keys.keys_status@
            },
            final(self).memory == old(self).memory,
            final(self).registers == old(self).registers,
            final(self).stack == old(self).stack,
            final(self).stack_pointer == old(self).stack_pointer,
            final(self).program_counter == old(self).program_counter,
            final(self).display == old(self).display,
    {
        self.keys.input(key, status);
    }

    /// Counts both timers down by `ticks`, each stopping at zero.
    pub fn apply_timer_ticks(&mut self, ticks: usize)
        requires
            old(self).wf(),
        ensures
            final(self).wf(),
            final(self).registers.delay == if old(self).registers.delay >= ticks {
                (old(self).registers.delay - ticks) as u8
            } else {
                0u8
            },
            final(self).registers.sound == if old(self).registers.sound >= ticks {
                (old(self).registers.sound - ticks) as u8
            } else {
                0u8
            },
            final(self).registers.general == old(self).registers.general,
            final(self).registers.i == old(self).registers.i,
            final(self).memory == old(self).memory,
            final(self).stack == old(self).stack,
            final(self).stack_pointer == old(self).stack_pointer,
            final(self).program_counter == old(self).program_counter,
            final(self).display == old(self).display,
            final(self).keys == old(self).keys,
    {
        let ghost start = *self;
        let mut n: usize = 0;
        while n < ticks && (self.registers.delay != 0 || self.registers.sound != 0)
            invariant
                n <= ticks,
                self.wf(),
                self.registers.delay == if start.registers.delay >= n {
                    (start.registers.delay - n) as u8
                } else {
                    0u8
                },
                self.registers.sound == if start.registers.sound >= n {
                    (start.registers.sound - n) as u8
                } else {
                    0u8
                },
                self.registers.general == start.registers.general,
                self.registers.i == start.registers.i,
                self.memory == start.memory,
                self.stack == start.stack,
                self.stack_pointer == start.stack_pointer,
                self.program_counter == start.program_counter,
                self.display == start.display,
                self.keys == start.keys,
            decreases ticks - n,
        {
            self.registers.decrement_delay();
            self.registers.decrement_sound();
            n += 1;
        }
    }

    /// The opcode at the program counter, big-endian.
    fn fetch(&self) -> (r: Result<InstructionBytePair, ProcessorError>)
        ensures
            r == match self.fetched() {
                Ok(op) => Ok(InstructionBytePair(op)),
                Err(e) => Err::<InstructionBytePair, ProcessorError>(e),
            },
    {
        let instruction_index = u16::from(self.program_counter) as usize;
        if instruction_index + 1 >= MEMORY_SIZE_BYTES {
            return Err(ProcessorError::MemoryOverrun { address: self.program_counter });
        }
        let upper = self.memory[instruction_index];
        let lower = self.memory[instruction_index + 1];
        Ok(InstructionBytePair(upper as u16 * 256 + lower as u16))
    }

    /// Moves past a skipped instruction.
    fn pc_skip(&mut self)
        ensures
            *final(self) == (Processor { program_counter: old(self).advanced(4), ..*old(self) }),
    {
        self.program_counter.increment(4);
    }

    /// Moves on to the next instruction.
    fn pc_advance(&mut self)
        ensures
            *final(self) == (Processor { program_counter: old(self).advanced(2), ..*old(self) }),
    {
        self.program_counter.increment(2);
    }

    /// Runs one decoded instruction.
    fn execute(&mut self, instruction: Instruction, random: u8) -> (r: Result<(), ProcessorError>)
        requires
            old(self).wf(),
        ensures
            final(self).wf(),
            old(self).executes(*final(self), instruction, random, r),
    {
        if is_register_op_exec(&instruction) {
            self.execute_register_op(instruction, random)
        } else if is_memory_op_exec(&instruction) {
            self.execute_memory_op(instruction)
        } else {
            self.execute_control_op(instruction)
        }
    }
}

fn is_register_op_exec(ins: &Instruction) -> (r: bool)
    ensures
        r == is_register_op(*ins),
{
    match ins {
        Instruction::LoadValue { .. } | Instruction::AddValue { .. } | Instruction::LoadRegister { .. }
        | Instruction::Or { .. } | Instruction::And { .. } | Instruction::Xor { .. }
        | Instruction::AddRegister { .. } | Instruction::Subtract { .. } | Instruction::ShiftRight { .. }
        | Instruction::SubtractNegate { .. } | Instruction::ShiftLeft { .. } | Instruction::Random { .. }
        | Instruction::LoadFromDelayTimer { .. } | Instruction::SetDelayTimer { .. }
        | Instruction::SetSoundTimer { .. } | Instruction::LoadI { .. } | Instruction::AddI { .. }
        | Instruction::LoadSpriteLocation { .. } => true,
        _ => false,
    }
}

/// The 8-bit sum of `a` and `b`, and `High` where it carried.
fn add_with_carry(a: u8, b: u8) -> (r: (u8, Flag))
    ensures
        r.0 == wrapped(a + b),
        r.1.byte() == if a + b > 255 { 1u8 } else { 0u8 },
{
    let sum: u16 = a as u16 + b as u16;
    if sum > 255 {
        ((sum % 256) as u8, Flag::High)
    } else {
        ((sum % 256) as u8, Flag::Low)
    }
}

/// The 8-bit difference `a - b`, and `High` where it did not borrow.
fn subtract_with_borrow(a: u8, b: u8) -> (r: (u8, Flag))
    ensures
        r.0 == wrapped(a - b),
        r.1.byte() == if a >= b { 1u8 } else { 0u8 },
{
    if a < b {
        ((a as u16 + 256 - b as u16) as u8, Flag::Low)
    } else {
        (a - b, Flag::High)
    }
}

/// `value` shifted right by one, and the bit shifted out.
fn shift_right(value: u8) -> (r: (u8, Flag))
    ensures
        r.0 == value >> 1u8,
        r.1.byte() == value & 1u8,
{
    let lsb = value & 0x01u8;
    proof {
        assert(value & 1u8 == 0 || value & 1u8 == 1) by (bit_vector);
    }
    if lsb == 0x01u8 {
        (value >> 1u8, Flag::High)
    } else {
        (value >> 1u8, Flag::Low)
    }
}

/// `value` shifted left by one, and the bit shifted out.
fn shift_left(value: u8) -> (r: (u8, Flag))
    ensures
        r.0 == value << 1u8,
        r.1.byte() == value >> 7u8,
{
    let msb = (value & 0x80u8) >> 7u8;
    proof {
        assert((value & 0x80u8) >> 7u8 == value >> 7u8) by (bit_vector);
        assert(value >> 7u8 == 0 || value >> 7u8 == 1) by (bit_vector);
    }
    if msb == 0x01u8 {
        (value << 1u8, Flag::High)
    } else {
        (value << 1u8, Flag::Low)
    }
}

fn is_alu_op_exec(ins: &Instruction) -> (r: bool)
    ensures
        r == is_alu_op(*ins),
{
    match ins {
        Instruction::LoadRegister { .. } | Instruction::Or { .. } | Instruction::And { .. }
        | Instruction::Xor { .. } | Instruction::AddRegister { .. } | Instruction::Subtract { .. }
        | Instruction::ShiftRight { .. } | Instruction::SubtractNegate { .. }
        | Instruction::ShiftLeft { .. } => true,
        _ => false,
    }
}

fn is_memory_op_exec(ins: &Instruction) -> (r: bool)
    ensures
        r == is_memory_op(*ins),
{
    match ins {
        Instruction::LoadBcd { .. } | Instruction::StoreRegisterRangeAtI { .. }
        | Instruction::LoadRegisterRangeFromI { .. } => true,
        _ => false,
    }
}

impl Processor {
    /// Runs an instruction that only reads and writes registers.
    fn execute_register_op(&mut self, instruction: Instruction, random: u8) -> (r: Result<(), ProcessorError>)
        requires
            old(self).wf(),
            is_register_op(instruction),
        ensures
            final(self).wf(),
            old(self).executes(*final(self), instruction, random, r),
    {
        if is_alu_op_exec(&instruction) {
            self.execute_alu_op(instruction, random)
        } else {
            self.execute_load_op(instruction, random)
        }
    }

    /// Runs an arithmetic or logic instruction of the `8xyN` group.
    fn execute_alu_op(&mut self, instruction: Instruction, random: u8) -> (r: Result<(), ProcessorError>)
        requires
            old(self).wf(),
            is_alu_op(instruction),
        ensures
            final(self).wf(),
            old(self).executes(*final(self), instruction, random, r),
    {
        match instruction {
            Instruction::LoadRegister { dest, source } => {
                let src_value = self.registers.get_general(source);
                self.registers.set_general(dest, src_value);
            },
            Instruction::Or { dest, source } => {
                let lhs = self.registers.get_general(dest);
                let rhs = self.registers.get_general(source);
                self.registers.set_general(dest, lhs | rhs);
            },
            Instruction::And { dest, source } => {
                let lhs = self.registers.get_general(dest);
                let rhs = self.registers.get_general(source);
                self.registers.set_general(dest, lhs & rhs);
            },
            Instruction::Xor { dest, source } => {
                let lhs = self.registers.get_general(dest);
                let rhs = self.registers.get_general(source);
                self.registers.set_general(dest, lhs ^ rhs);
            },
            _ => {
                self.execute_flagged_op(instruction);
                return Ok(());
            },
        }
        self.pc_advance();
        Ok(())
    }

    /// Runs an arithmetic instruction that leaves a flag in VF.
    fn execute_flagged_op(&mut self, instruction: Instruction)
        requires
            old(self).wf(),
            is_alu_op(instruction),
            !(instruction is LoadRegister || instruction is Or || instruction is And || instruction is Xor),
        ensures
            forall|random: u8| old(self).executes(*final(self), instruction, random, Ok(())),
            final(self).wf(),
    {
        let (dest, result, flag) = match instruction {
            Instruction::AddRegister { dest, source } => {
                let (result, flag) = add_with_carry(self.registers.get_general(dest), self.registers.get_general(source));
                (dest, result, flag)
            },
            Instruction::Subtract { dest, source } => {
                let (result, flag) = subtract_with_borrow(self.registers.get_general(dest), self.registers.get_general(source));
                (dest, result, flag)
            },
            Instruction::SubtractNegate { dest, source } => {
                let (result, flag) = subtract_with_borrow(self.registers.get_general(source), self.registers.get_general(dest));
                (dest, result, flag)
            },
            Instruction::ShiftRight { dest, .. } => {
                let (result, flag) = shift_right(self.registers.get_general(dest));
                (dest, result, flag)
            },
            Instruction::ShiftLeft { dest, .. } => {
                let (result, flag) = shift_left(self.registers.get_general(dest));
                (dest, result, flag)
            },
            _ => {
                let (result, flag) = shift_left(self.registers.get_general(GeneralRegister::V0));
                (GeneralRegister::V0, result, flag)
            },
        };
        self.registers.set_general(dest, result);
        self.registers.set_vf_flag(flag);
        self.pc_advance();
    }

    /// Runs an instruction that loads a register, a timer or I.
    fn execute_load_op(&mut self, instruction: Instruction, random: u8) -> (r: Result<(), ProcessorError>)
        requires
            old(self).wf(),
            is_load_op(instruction),
        ensures
            final(self).wf(),
            old(self).executes(*final(self), instruction, random, r),
    {
        match instruction {
            Instruction::LoadValue { dest, value } => {
                self.registers.set_general(dest, value);
            },
            Instruction::AddValue { dest, value } => {
                let current = self.registers.get_general(dest);
                let sum: u16 = current as u16 + value as u16;
                self.registers.set_general(dest, (sum % 256) as u8);
            },
            Instruction::Random { dest, mask } => {
                self.registers.set_general(dest, random & mask);
            },
            Instruction::LoadFromDelayTimer { dest } => {
                let delay = self.registers.delay;
                self.registers.set_general(dest, delay);
            },
            Instruction::SetDelayTimer { source } => {
                self.registers.delay = self.registers.get_general(source);
            },
            Instruction::SetSoundTimer { source } => {
                self.registers.sound = self.registers.get_general(source);
            },
            Instruction::LoadI { addr } => {
                self.registers.i = addr;
            },
            Instruction::AddI { source } => {
                let base: u16 = self.registers.i.into();
                let offset = self.registers.get_general(source);
                let sum: u32 = base as u32 + offset as u32;
                self.registers.i = Address::from((sum % 0x1000) as u16);
            },
            Instruction::LoadSpriteLocation { digit } => {
                let hex_digit = self.registers.get_general(digit);
                proof {
                    assert(hex_digit & 0x0Fu8 == hex_digit % 16) by (bit_vector);
                    assert(hex_digit & 0x0Fu8 <= 15) by (bit_vector);
                }
                let low_nibble: u8 = hex_digit & 0x0Fu8;
                let hex_sprite_address: u16 = low_nibble as u16 * 5u16;
                self.registers.i = Address::from(hex_sprite_address);
            },
            _ => {},
        }
        self.pc_advance();
        Ok(())
    }

    /// Runs an instruction that moves data between registers and memory.
    fn execute_memory_op(&mut self, instruction: Instruction) -> (r: Result<(), ProcessorError>)
        requires
            old(self).wf(),
            is_memory_op(instruction),
        ensures
            final(self).wf(),
            forall|random: u8| old(self).executes(*final(self), instruction, random, r),
    {
        let ghost start = *self;
        let base = u16::from(self.registers.i) as usize;
        match instruction {
            Instruction::LoadBcd { source } => {
                if base + 3 > MEMORY_SIZE_BYTES {
                    return Err(ProcessorError::MemoryOverrun { address: self.program_counter });
                }
                let binary_value = self.registers.get_general(source);
                let bcd = to_bcd(binary_value);
                self.memory[base] = bcd[0];
                self.memory[base + 1] = bcd[1];
                self.memory[base + 2] = bcd[2];
            },
            Instruction::StoreRegisterRangeAtI { last } => {
                let count = last.as_u8() as usize + 1;
                if base + count > MEMORY_SIZE_BYTES {
                    return Err(ProcessorError::MemoryOverrun { address: self.program_counter });
                }
                let mut k: usize = 0;
                while k < count
                    invariant
                        count == last.index() + 1,
                        base == start.i_reg(),
                        base + count <= MEMORY_SIZE_BYTES,
                        k <= count,
                        self.registers == start.registers,
                        self.stack == start.stack,
                        self.stack_pointer == start.stack_pointer,
                        self.program_counter == start.program_counter,
                        self.display == start.display,
                        self.keys == start.keys,
                        forall|m: int| 0 <= m < MEMORY_SIZE_BYTES ==> #[trigger] self.memory@[m] == if base <= m < base + k {
                            start.registers.general@[m - base]
                        } else {
                            start.memory@[m]
                        },
                    decreases count - k,
                {
                    let value = self.registers.get_general(GeneralRegister::from_index(k as u8));
                    self.memory[base + k] = value;
                    k += 1;
                }
                proof {
                    assert(self.memory@ =~= start.memory_after(instruction));
                }
            },
            Instruction::LoadRegisterRangeFromI { last } => {
                let count = last.as_u8() as usize + 1;
                if base + count > MEMORY_SIZE_BYTES {
                    return Err(ProcessorError::MemoryOverrun { address: self.program_counter });
                }
                let mut k: usize = 0;
                while k < count
                    invariant
                        count == last.index() + 1,
                        base == start.i_reg(),
                        base + count <= MEMORY_SIZE_BYTES,
                        k <= count,
                        self.memory == start.memory,
                        self.registers.i == start.registers.i,
                        self.registers.delay == start.registers.delay,
                        self.registers.sound == start.registers.sound,
                        self.stack == start.stack,
                        self.stack_pointer == start.stack_pointer,
                        self.program_counter == start.program_counter,
                        self.display == start.display,
                        self.keys == start.keys,
                        forall|m: int| 0 <= m < 16 ==> #[trigger] self.registers.general@[m] == if m < k {
                            start.memory@[base + m]
                        } else {
                            start.registers.general@[m]
                        },
                    decreases count - k,
                {
                    let value = self.memory[base + k];
                    self.registers.set_general(GeneralRegister::from_index(k as u8), value);
                    k += 1;
                }
                proof {
                    assert(self.registers.general@ =~= start.general_after(instruction, 0));
                }
            },
            _ => {},
        }
        self.pc_advance();
        Ok(())
    }

    /// Runs a control-flow, screen or keypad instruction.
    fn execute_control_op(&mut self, instruction: Instruction) -> (r: Result<(), ProcessorError>)
        requires
            old(self).wf(),
            !is_register_op(instruction),
            !is_memory_op(instruction),
        ensures
            final(self).wf(),
            forall|random: u8| old(self).executes(*final(self), instruction, random, r),
    {
        match instruction {
            Instruction::Sys { .. } => {
                self.pc_advance();
            },
            Instruction::Clear => {
                self.display.clear();
                self.pc_advance();
            },
            Instruction::Return => {
                if self.stack_pointer == 0 {
                    return Err(ProcessorError::StackUnderflow { address: self.program_counter });
                }
                self.program_counter = self.stack[self.stack_pointer];
                self.stack_pointer -= 1;
                self.pc_advance();
            },
            Instruction::Jump { addr } => {
                self.program_counter = addr;
            },
            Instruction::Call { addr } => {
                if self.stack_pointer + 1 >= STACK_SIZE {
                    return Err(ProcessorError::StackOverflow { address: self.program_counter });
                }
                self.stack_pointer += 1;
                self.stack[self.stack_pointer] = self.program_counter;
                self.program_counter = addr;
            },
            Instruction::SkipIfEqByte { reg, value } => {
                if self.registers.get_general(reg) == value {
                    self.pc_skip();
                } else {
                    self.pc_advance();
                }
            },
            Instruction::SkipIfNeqByte { reg, value } => {
                if self.registers.get_general(reg) != value {
                    self.pc_skip();
                } else {
                    self.pc_advance();
                }
            },
            Instruction::SkipIfEqReg { lhs, rhs } => {
                if self.registers.get_general(lhs) == self.registers.get_general(rhs) {
                    self.pc_skip();
                } else {
                    self.pc_advance();
                }
            },
            Instruction::SkipIfNeqReg { lhs, rhs } => {
                if self.registers.get_general(lhs) != self.registers.get_general(rhs) {
                    self.pc_skip();
                } else {
                    self.pc_advance();
                }
            },
            Instruction::JumpPlusV0 { addr } => {
                let sum: u32 = self.registers.get_general(GeneralRegister::V0) as u32 + addr.0 as u32;
                self.program_counter = Address::from((sum % 0x1000) as u16);
            },
            Instruction::Draw { x, y, num_bytes } => {
                let draw_start = u16::from(self.registers.i) as usize;
                let draw_end = draw_start + num_bytes.as_u8() as usize;
                if draw_end > MEMORY_SIZE_BYTES {
                    return Err(ProcessorError::MemoryOverrun { address: self.program_counter });
                }
                let mut bytes_to_draw: Vec<u8> = Vec::new();
                let mut k: usize = draw_start;
                while k < draw_end
                    invariant
                        draw_start <= k <= draw_end,
                        draw_end <= MEMORY_SIZE_BYTES,
                        bytes_to_draw@ == self.memory@.subrange(draw_start as int, k as int),
                    decreases draw_end - k,
                {
                    bytes_to_draw.push(self.memory[k]);
                    k += 1;
                }
                let column = self.registers.get_general(x) as usize;
                let row = self.registers.get_general(y) as usize;
                self.display.draw_sprite(column, row, bytes_to_draw.as_slice());
                self.pc_advance();
            },
            Instruction::SkipIfKeyDown { key_val } => {
                let key = self.registers.get_general(key_val) as usize;
                if self.key_is_down(key) {
                    self.pc_skip();
                } else {
                    self.pc_advance();
                }
            },
            Instruction::SkipIfKeyUp { key_val } => {
                let key = self.registers.get_general(key_val) as usize;
                if !self.key_is_down(key) {
                    self.pc_skip();
                } else {
                    self.pc_advance();
                }
            },
            Instruction::LoadFromKey { dest } => {
                let mut k: usize = 0;
                while k < NUM_KEYS && self.keys.keys_status[k] != KeyStatus::Pressed
                    invariant
                        k <= NUM_KEYS,
                        forall|j: int| 0 <= j < k ==> !#[trigger] self.key_down(j),
                    decreases NUM_KEYS - k,
                {
                    k += 1;
                }
                if k < NUM_KEYS {
                    proof {
                        assert(self.key_down(k as int));
                        let w = choose|w: int| #[trigger] self.key_down(w) && forall|j: int| 0 <= j < w ==> !self.key_down(j);
                        if w < k {
                        } else if w > k {
                            assert(!self.key_down(k as int));
                        }
                    }
                    self.registers.set_general(dest, k as u8);
                    self.pc_advance();
                }
            },
            _ => {},
        }
        Ok(())
    }

    /// Whether key `key` is held down; an index past the pad is not.
    fn key_is_down(&self, key: usize) -> (r: bool)
        ensures
            r == self.key_down(key as int),
    {
        match self.keys.get_status(key) {
            Some(KeyStatus::Pressed) => true,
            _ => false,
        }
    }
}

/// `AddValue` adds its byte into the register modulo 256 and leaves every
/// other register, VF included, as it was.
pub proof fn lemma_add_value_wraps(
    before: Processor,
    after: Processor,
    dest: GeneralRegister,
    value: u8,
    random: u8,
    r: Result<(), ProcessorError>,
)
    requires
        before.executes(after, Instruction::AddValue { dest, value }, random, r),
    ensures
        r is Ok,
        after.reg(dest) == (before.reg(dest) + value) % 256,
        forall|g: GeneralRegister| g != dest ==> #[trigger] after.reg(g) == before.reg(g),
{
    assert forall|g: GeneralRegister| g != dest implies #[trigger] after.reg(g) == before.reg(g) by {
        assert(g.index() != dest.index());
    }
}

/// `AddRegister` into a register other than VF leaves the sum modulo 256 and
/// sets VF to 1 exactly when the sum exceeds 255, to 0 otherwise.
pub proof fn lemma_add_register_carry(
    before: Processor,
    after: Processor,
    dest: GeneralRegister,
    source: GeneralRegister,
    random: u8,
    r: Result<(), ProcessorError>,
)
    requires
        dest != GeneralRegister::VF,
        before.executes(after, Instruction::AddRegister { dest, source }, random, r),
    ensures
        r is Ok,
        before.reg(dest) + before.reg(source) > 255 ==> after.reg(GeneralRegister::VF) == 1 && after.reg(dest)
            == before.reg(dest) + before.reg(source) - 256,
        before.reg(dest) + before.reg(source) <= 255 ==> after.reg(GeneralRegister::VF) == 0 && after.reg(dest)
            == before.reg(dest) + before.reg(source),
{
    assert(dest.index() != 15);
}

/// `Subtract` into a register other than VF leaves `dest - source` modulo 256
/// and sets VF to 1 where it did not borrow, to 0 where it did.
pub proof fn lemma_subtract_borrow(
    before: Processor,
    after: Processor,
    dest: GeneralRegister,
    source: GeneralRegister,
    random: u8,
    r: Result<(), ProcessorError>,
)
    requires
        dest != GeneralRegister::VF,
        before.executes(after, Instruction::Subtract { dest, source }, random, r),
    ensures
        r is Ok,
        after.reg(dest) == (before.reg(dest) - before.reg(source)) % 256,
        after.reg(GeneralRegister::VF) == if before.reg(dest) >= before.reg(source) { 1u8 } else { 0u8 },
{
    assert(dest.index() != 15);
}

/// A call succeeds while the stack has room: it pushes its own address and
/// jumps. On a full stack it fails with `StackOverflow`, tagged with its own
/// address, and changes nothing.
pub proof fn lemma_call_depth(
    before: Processor,
    after: Processor,
    addr: Address,
    random: u8,
    r: Result<(), ProcessorError>,
)
    requires
        before.executes(after, Instruction::Call { addr }, random, r),
    ensures
        before.stack_pointer + 1 < STACK_SIZE ==> r is Ok && after.stack_pointer == before.stack_pointer + 1
            && after.stack@[after.stack_pointer as int] == before.program_counter && after.program_counter == addr,
        before.stack_pointer + 1 >= STACK_SIZE ==> r == Err::<(), ProcessorError>(
            ProcessorError::StackOverflow { address: before.program_counter },
        ) && after == before,
{
}

/// A freshly loaded machine hands out its screen once: the first snapshot is
/// there, the one right after it is not.
pub proof fn lemma_fresh_screen_handed_out_once(
    p: Processor,
    program: Seq<u8>,
    width: int,
    height: int,
    d1: Display,
    r1: Option<Grid<Pixel>>,
    d2: Display,
    r2: Option<Grid<Pixel>>,
)
    requires
        p.fresh(program, width, height),
        p.display.snapshot(d1, r1),
        d1.snapshot(d2, r2),
    ensures
        r1 is Some,
        r2 is None,
{
}

/// Only `Clear` and `Draw` touch the screen, and both mark it changed; every
/// other instruction leaves it, change mark included, as it was.
pub proof fn lemma_only_clear_and_draw_mark_screen(
    before: Processor,
    after: Processor,
    ins: Instruction,
    random: u8,
    r: Result<(), ProcessorError>,
)
    requires
        before.executes(after, ins, random, r),
    ensures
        r is Ok && (ins is Clear || ins is Draw) ==> after.display.dirty,
        !(ins is Clear || ins is Draw) ==> after.display == before.display,
{
}

} // verus!
