use crate::error::Chip8Error;
use crate::font::{FONTSET, GLYPH_SIZE};
use crate::instruction::{decode_spec, Instruction};
use crate::sprite::{sprite_collides, sprite_hits};
use vstd::prelude::*;

verus! {

/// Number of addressable bytes.
pub const MEMORY_SIZE: usize = 4096;

/// Where a program image is loaded and where execution starts.
pub const START_MEM_ADDR: u16 = 0x200;

/// Where the glyphs of the built-in font are loaded.
pub const START_FONT_ADDR: u16 = 0x50;

/// Largest program image that fits between the load address and the end of memory.
pub const MAX_ROM_SIZE: usize = 3584;

/// Number of general-purpose registers; the last one is the flag register.
pub const NUM_REGISTERS: usize = 16;

/// Number of the flag register, VF.
pub const FLAG: usize = 15;

/// Number of return addresses that the call stack holds.
pub const STACK_DEPTH: usize = 16;

/// Number of keys on the keypad.
pub const NUM_KEYS: usize = 16;

/// Width of the screen in cells.
pub const VIDEO_WIDTH: usize = 64;

/// Height of the screen in cells.
pub const VIDEO_HEIGHT: usize = 32;

/// Number of cells of the screen.
pub const VIDEO_SIZE: usize = 2048;

/// The byte that a lit cell of the framebuffer holds; a dark cell holds 0.
pub const PIXEL_ON: u8 = 0xFF;

/// The machine as a mathematical value.
///
/// `stack` holds the active return addresses only, oldest first, so its length
/// is the stack pointer. `video` is the screen row by row, cell `y * 64 + x`
/// being `true` when lit.
#[verifier::ext_equal]
pub ghost struct MachineState {
    pub memory: Seq<u8>,
    pub registers: Seq<u8>,
    pub index: u16,
    pub pc: u16,
    pub stack: Seq<u16>,
    pub delay_timer: u8,
    pub sound_timer: u8,
    pub keys: Seq<bool>,
    pub video: Seq<bool>,
}

/// Whether key `k` is pressed and no key below it is.
pub open spec fn is_first_pressed(keys: Seq<bool>, k: int) -> bool {
    &&& 0 <= k < keys.len()
    &&& keys[k]
    &&& forall|j: int| 0 <= j < k ==> !keys[j]
}

impl MachineState {
    /// The sizes that every machine has.
    pub open spec fn wf(self) -> bool {
        &&& self.memory.len() == MEMORY_SIZE
        &&& self.registers.len() == NUM_REGISTERS
        &&& self.stack.len() <= STACK_DEPTH
        &&& self.keys.len() == NUM_KEYS
        &&& self.video.len() == VIDEO_SIZE
    }

    /// The machine right after construction with program image `rom`: the font
    /// at its address, the image at the load address, everything else zero,
    /// no key pressed, a dark screen, and execution about to start at the image.
    pub open spec fn initial(rom: Seq<u8>) -> MachineState {
        MachineState {
            memory: Seq::new(
                MEMORY_SIZE as nat,
                |a: int|
                    if START_FONT_ADDR <= a < START_FONT_ADDR + FONTSET@.len() {
                        FONTSET@[a - START_FONT_ADDR]
                    } else if START_MEM_ADDR <= a < START_MEM_ADDR + rom.len() {
                        rom[a - START_MEM_ADDR]
                    } else {
                        0u8
                    },
            ),
            registers: Seq::new(NUM_REGISTERS as nat, |i: int| 0u8),
            index: 0,
            pc: START_MEM_ADDR,
            stack: Seq::empty(),
            delay_timer: 0,
            sound_timer: 0,
            keys: Seq::new(NUM_KEYS as nat, |i: int| false),
            video: Seq::new(VIDEO_SIZE as nat, |i: int| false),
        }
    }

    /// Register `x`.
    pub open spec fn v(self, x: u8) -> u8 {
        self.registers[x as int]
    }

    /// The machine with register `x` set to `value`.
    pub open spec fn with_v(self, x: u8, value: u8) -> MachineState {
        MachineState { registers: self.registers.update(x as int, value), ..self }
    }

    /// The machine with the program counter moved past one more instruction
    /// when `cond` holds.
    pub open spec fn skip_if(self, cond: bool) -> MachineState {
        if cond {
            MachineState { pc: (self.pc + 2) as u16, ..self }
        } else {
            self
        }
    }

    /// Every cell of the screen goes dark.
    pub open spec fn clear_screen(self) -> MachineState {
        MachineState { video: Seq::new(VIDEO_SIZE as nat, |i: int| false), ..self }
    }

    /// The newest return address leaves the stack and becomes the program
    /// counter. With an empty stack this is an error.
    pub open spec fn ret(self) -> Result<MachineState, Chip8Error> {
        if self.stack.len() == 0 {
            Err(Chip8Error::StackUnderflow)
        } else {
            Ok(MachineState { pc: self.stack.last(), stack: self.stack.drop_last(), ..self })
        }
    }

    /// The program counter becomes `addr`.
    pub open spec fn jump(self, addr: u16) -> MachineState {
        MachineState { pc: addr, ..self }
    }

    /// The program counter goes onto the stack and becomes `addr`. With a
    /// full stack this is an error.
    pub open spec fn call(self, addr: u16) -> Result<MachineState, Chip8Error> {
        if self.stack.len() >= STACK_DEPTH {
            Err(Chip8Error::StackOverflow)
        } else {
            Ok(MachineState { pc: addr, stack: self.stack.push(self.pc), ..self })
        }
    }

    /// Register `x` grows by `byte`, wrapping at eight bits; the flag is
    /// not touched.
    pub open spec fn add_imm(self, x: u8, byte: u8) -> MachineState {
        self.with_v(x, ((self.v(x) + byte) % 256) as u8)
    }

    /// Register `x` becomes the bitwise or of registers `x` and `y`; the flag
    /// is not touched.
    pub open spec fn or_reg(self, x: u8, y: u8) -> MachineState {
        self.with_v(x, self.v(x) | self.v(y))
    }

    /// Register `x` becomes the bitwise and of registers `x` and `y`; the flag
    /// is not touched.
    pub open spec fn and_reg(self, x: u8, y: u8) -> MachineState {
        self.with_v(x, self.v(x) & self.v(y))
    }

    /// Register `x` becomes the bitwise exclusive or of registers `x` and
    /// `y`; the flag is not touched.
    pub open spec fn xor_reg(self, x: u8, y: u8) -> MachineState {
        self.with_v(x, self.v(x) ^ self.v(y))
    }

    /// Register `x` becomes the sum of registers `x` and `y`, wrapping at
    /// eight bits, and the flag tells whether the sum was above 255. The flag
    /// is written first and the sum after it, so with `x` the flag register
    /// the sum stays.
    pub open spec fn add_reg(self, x: u8, y: u8) -> MachineState {
        let sum = self.v(x) + self.v(y);
        self.with_v(FLAG as u8, if sum > 255 { 1u8 } else { 0u8 }).with_v(x, (sum % 256) as u8)
    }

    /// Register `x` becomes register `x` less register `y`, wrapping at eight
    /// bits, and the flag tells whether register `x` was the greater. The
    /// flag is written first and the operands are read after it, so an
    /// operand that is the flag register is read as the new flag.
    pub open spec fn sub_reg(self, x: u8, y: u8) -> MachineState {
        let flagged = self.with_v(FLAG as u8, if self.v(x) > self.v(y) { 1u8 } else { 0u8 });
        flagged.with_v(x, ((flagged.v(x) - flagged.v(y)) % 256) as u8)
    }

    /// Register `x` becomes register `y` less register `x`, wrapping at eight
    /// bits, and the flag tells whether register `y` was the greater. The
    /// order of writing and reading is that of `sub_reg`.
    pub open spec fn subn_reg(self, x: u8, y: u8) -> MachineState {
        let flagged = self.with_v(FLAG as u8, if self.v(y) > self.v(x) { 1u8 } else { 0u8 });
        flagged.with_v(x, ((flagged.v(y) - flagged.v(x)) % 256) as u8)
    }

    /// Register `y` is copied to register `x`, the flag takes its low bit, and
    /// register `x` is then halved; with `x` the flag register, it is the
    /// flag that is halved.
    pub open spec fn shift_right(self, x: u8, y: u8) -> MachineState {
        let copied = self.with_v(x, self.v(y));
        let flagged = copied.with_v(FLAG as u8, (copied.v(x) % 2) as u8);
        flagged.with_v(x, (flagged.v(x) / 2) as u8)
    }

    /// Register `y` is copied to register `x`, the flag takes its high bit, and
    /// register `x` is then doubled, dropping the bit that leaves the byte.
    pub open spec fn shift_left(self, x: u8, y: u8) -> MachineState {
        let copied = self.with_v(x, self.v(y));
        let flagged = copied.with_v(FLAG as u8, (copied.v(x) / 128) as u8);
        flagged.with_v(x, ((flagged.v(x) * 2) % 256) as u8)
    }

    /// The index register becomes `addr`.
    pub open spec fn load_index(self, addr: u16) -> MachineState {
        MachineState { index: addr, ..self }
    }

    /// The program counter becomes `addr` plus register 0.
    pub open spec fn jump_offset(self, addr: u16) -> MachineState {
        MachineState { pc: (self.v(0) + addr) as u16, ..self }
    }

    /// Register `x` becomes the random byte masked with `byte`.
    pub open spec fn rand_and(self, x: u8, byte: u8, random: u8) -> MachineState {
        self.with_v(x, random & byte)
    }

    /// Whether drawing the sprite would turn off a cell that is lit.
    pub open spec fn draw_collides(self, x: u8, y: u8, height: u8) -> bool {
        sprite_collides(
            self.video,
            self.memory,
            self.index as int,
            height as int,
            0,
            self.v(x) as int,
            self.v(y) as int,
        )
    }

    /// The sprite of `height` rows at `index` is drawn with its corner at the
    /// position that registers `x` and `y` hold: every cell under a set bit is
    /// inverted, and the flag becomes 1 if a lit cell went dark and is left as
    /// it was otherwise. Rows that do not all lie in memory are an error.
    pub open spec fn draw(self, x: u8, y: u8, height: u8) -> Result<MachineState, Chip8Error> {
        if height > 0 && self.index + height > MEMORY_SIZE {
            Err(Chip8Error::MemoryOutOfRange)
        } else {
            let video = Seq::new(
                VIDEO_SIZE as nat,
                |cell: int|
                    self.video[cell] != sprite_hits(
                        self.memory,
                        self.index as int,
                        height as int,
                        0,
                        self.v(x) as int,
                        self.v(y) as int,
                        cell,
                    ),
            );
            let registers = if self.draw_collides(x, y, height) {
                self.registers.update(FLAG as int, 1u8)
            } else {
                self.registers
            };
            Ok(MachineState { video, registers, ..self })
        }
    }

    /// The next instruction is skipped if the key that register `x` names is
    /// pressed (`pressed`) or is not pressed (`!pressed`). A register that
    /// names no key of the keypad is an error.
    pub open spec fn skip_key(self, x: u8, pressed: bool) -> Result<MachineState, Chip8Error> {
        if self.v(x) >= NUM_KEYS {
            Err(Chip8Error::KeyOutOfRange)
        } else {
            Ok(self.skip_if(self.keys[self.v(x) as int] == pressed))
        }
    }

    /// With a key pressed, register `x` takes the number of the lowest pressed
    /// key. With none, the program counter goes back by one instruction, so
    /// that the same instruction is fetched again.
    pub open spec fn wait_key(self, x: u8) -> MachineState {
        if exists|k: int| is_first_pressed(self.keys, k) {
            self.with_v(x, (choose|k: int| is_first_pressed(self.keys, k)) as u8)
        } else {
            MachineState { pc: (self.pc - 2) as u16, ..self }
        }
    }

    /// The index register grows by register `x`, wrapping at sixteen bits.
    pub open spec fn add_index(self, x: u8) -> MachineState {
        MachineState { index: ((self.index + self.v(x)) % 0x1_0000) as u16, ..self }
    }

    /// The index register becomes the address of the glyph for the digit in
    /// register `x`.
    pub open spec fn font_addr(self, x: u8) -> MachineState {
        MachineState { index: (START_FONT_ADDR + GLYPH_SIZE * self.v(x)) as u16, ..self }
    }

    /// The three decimal digits of register `x` go to memory at `index`,
    /// hundreds first. Three bytes that do not all lie in memory are an error.
    pub open spec fn bcd(self, x: u8) -> Result<MachineState, Chip8Error> {
        if self.index + 2 >= MEMORY_SIZE {
            Err(Chip8Error::MemoryOutOfRange)
        } else {
            let value = self.v(x);
            let i = self.index as int;
            Ok(
                MachineState {
                    memory: self.memory.update(i, value / 100).update(
                        i + 1,
                        (value / 10) % 10,
                    ).update(i + 2, value % 10),
                    ..self
                },
            )
        }
    }

    /// Registers 0 to `x` go to memory at `index`, and `index` moves past
    /// them. Bytes that do not all lie in memory are an error.
    pub open spec fn store_regs(self, x: u8) -> Result<MachineState, Chip8Error> {
        if self.index + x >= MEMORY_SIZE {
            Err(Chip8Error::MemoryOutOfRange)
        } else {
            Ok(
                MachineState {
                    memory: Seq::new(
                        MEMORY_SIZE as nat,
                        |a: int|
                            if self.index <= a <= self.index + x {
                                self.registers[a - self.index]
                            } else {
                                self.memory[a]
                            },
                    ),
                    index: (self.index + x + 1) as u16,
                    ..self
                },
            )
        }
    }

    /// Registers 0 to `x` are read from memory at `index`, and `index` moves
    /// past what was read. Bytes that do not all lie in memory are an error.
    pub open spec fn load_regs(self, x: u8) -> Result<MachineState, Chip8Error> {
        if self.index + x >= MEMORY_SIZE {
            Err(Chip8Error::MemoryOutOfRange)
        } else {
            Ok(
                MachineState {
                    registers: Seq::new(
                        NUM_REGISTERS as nat,
                        |i: int|
                            if i <= x {
                                self.memory[self.index + i]
                            } else {
                                self.registers[i]
                            },
                    ),
                    index: (self.index + x + 1) as u16,
                    ..self
                },
            )
        }
    }

    /// What one instruction does to the machine, the program counter already
    /// standing behind the instruction. `random` is the byte that the random
    /// source gave; only `RandAnd` reads it.
    pub open spec fn execute(self, instr: Instruction, random: u8) -> Result<
        MachineState,
        Chip8Error,
    > {
        match instr {
            Instruction::ClearScreen => Ok(self.clear_screen()),
            Instruction::Return => self.ret(),
            Instruction::Jump { addr } => Ok(self.jump(addr)),
            Instruction::Call { addr } => self.call(addr),
            Instruction::SkipEqImm { x, byte } => Ok(self.skip_if(self.v(x) == byte)),
            Instruction::SkipNeImm { x, byte } => Ok(self.skip_if(self.v(x) != byte)),
            Instruction::SkipEqReg { x, y } => Ok(self.skip_if(self.v(x) == self.v(y))),
            Instruction::LoadImm { x, byte } => Ok(self.with_v(x, byte)),
            Instruction::AddImm { x, byte } => Ok(self.add_imm(x, byte)),
            Instruction::Move { x, y } => Ok(self.with_v(x, self.v(y))),
            Instruction::Or { x, y } => Ok(self.or_reg(x, y)),
            Instruction::And { x, y } => Ok(self.and_reg(x, y)),
            Instruction::Xor { x, y } => Ok(self.xor_reg(x, y)),
            Instruction::AddReg { x, y } => Ok(self.add_reg(x, y)),
            Instruction::Sub { x, y } => Ok(self.sub_reg(x, y)),
            Instruction::ShiftRight { x, y } => Ok(self.shift_right(x, y)),
            Instruction::SubN { x, y } => Ok(self.subn_reg(x, y)),
            Instruction::ShiftLeft { x, y } => Ok(self.shift_left(x, y)),
            Instruction::SkipNeReg { x, y } => Ok(self.skip_if(self.v(x) != self.v(y))),
            Instruction::LoadIndex { addr } => Ok(self.load_index(addr)),
            Instruction::JumpOffset { addr } => Ok(self.jump_offset(addr)),
            Instruction::RandAnd { x, byte } => Ok(self.rand_and(x, byte, random)),
            Instruction::Draw { x, y, height } => self.draw(x, y, height),
            Instruction::SkipKeyDown { x } => self.skip_key(x, true),
            Instruction::SkipKeyUp { x } => self.skip_key(x, false),
            Instruction::GetDelay { x } => Ok(self.with_v(x, self.delay_timer)),
            Instruction::WaitKey { x } => Ok(self.wait_key(x)),
            Instruction::SetDelay { x } => Ok(MachineState { delay_timer: self.v(x), ..self }),
            Instruction::SetSound { x } => Ok(MachineState { sound_timer: self.v(x), ..self }),
            Instruction::AddIndex { x } => Ok(self.add_index(x)),
            Instruction::FontAddr { x } => Ok(self.font_addr(x)),
            Instruction::Bcd { x } => self.bcd(x),
            Instruction::StoreRegs { x } => self.store_regs(x),
            Instruction::LoadRegs { x } => self.load_regs(x),
            Instruction::Nop => Ok(self),
        }
    }

    /// Whether the two bytes of the next instruction lie inside memory.
    pub open spec fn can_fetch(self) -> bool {
        self.pc + 1 < MEMORY_SIZE
    }

    /// The instruction word at the program counter, high byte first.
    pub open spec fn fetch(self) -> u16 {
        (self.memory[self.pc as int] * 256 + self.memory[self.pc + 1]) as u16
    }

    /// Whether the next cycle executes the random-byte instruction, the only
    /// one that reads the random byte.
    pub open spec fn draws_random(self) -> bool {
        self.can_fetch() && decode_spec(self.fetch()) is RandAnd
    }

    /// Both timers count down by one and stop at zero.
    pub open spec fn tick(self) -> MachineState {
        MachineState {
            delay_timer: if self.delay_timer > 0 {
                (self.delay_timer - 1) as u8
            } else {
                0
            },
            sound_timer: if self.sound_timer > 0 {
                (self.sound_timer - 1) as u8
            } else {
                0
            },
            ..self
        }
    }

    /// One cycle: fetch the instruction at the program counter, move the
    /// counter behind it, execute it, then let the timers count down. A
    /// cycle that cannot be completed is an error.
    pub open spec fn cycle(self, random: u8) -> Result<MachineState, Chip8Error> {
        if !self.can_fetch() {
            Err(Chip8Error::MemoryOutOfRange)
        } else {
            let fetched = MachineState { pc: (self.pc + 2) as u16, ..self };
            match fetched.execute(decode_spec(self.fetch()), random) {
                Ok(done) => Ok(done.tick()),
                Err(e) => Err(e),
            }
        }
    }

    /// What an operation that may fail has done, `expected` being what the
    /// model says of it: on success the machine is the expected one, and on
    /// an error the error is the expected one and the machine is left as it was.
    pub open spec fn settles(
        self,
        expected: Result<MachineState, Chip8Error>,
        after: MachineState,
        result: Result<(), Chip8Error>,
    ) -> bool {
        match expected {
            Ok(next) => result is Ok && after == next,
            Err(e) => result == Err::<(), Chip8Error>(e) && after == self,
        }
    }

    /// What a cycle with random byte `random` has done.
    pub open spec fn cycle_outcome(
        self,
        random: u8,
        after: MachineState,
        result: Result<(), Chip8Error>,
    ) -> bool {
        self.settles(self.cycle(random), after, result)
    }
}

} // verus!
