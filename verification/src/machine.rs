use crate::error::Chip8Error;
use crate::font::{FONTSET, GLYPH_SIZE};
use crate::instruction::{decode, decode_spec, Instruction};
use crate::model::{
    is_first_pressed, MachineState, FLAG, MAX_ROM_SIZE, MEMORY_SIZE, NUM_KEYS, NUM_REGISTERS,
    PIXEL_ON, STACK_DEPTH, START_FONT_ADDR, START_MEM_ADDR, VIDEO_HEIGHT, VIDEO_SIZE, VIDEO_WIDTH,
};
use crate::sprite::{
    lemma_collides_next_column, lemma_sprite_next_column, lemma_sprite_next_row,
    lemma_sprite_nothing_drawn, sprite_collides, sprite_hits,
};
use vstd::prelude::*;

verus! {

/// Writes one cell of a framebuffer.
fn set_cell(video: &mut Vec<u8>, cell: usize, value: u8)
    requires
        cell < old(video)@.len(),
    ensures
        final(video)@ == old(video)@.update(cell as int, value),
    no_unwind
{
    video[cell] = value;
}

/// The machine state and the instruction handlers that work on it. Everything
/// here is deterministic: the one instruction that needs a random byte is
/// handed it.
pub struct Machine {
    registers: Vec<u8>,
    memory: Vec<u8>,
    index: u16,
    prog_counter: u16,
    stack_pointer: u8,
    stack: Vec<u16>,
    sound_timer: u8,
    delay_timer: u8,
    keys: Vec<bool>,
    video: Vec<u8>,
}

impl View for Machine {
    type V = MachineState;

    closed spec fn view(&self) -> MachineState {
        MachineState {
            memory: self.memory@,
            registers: self.registers@,
            index: self.index,
            pc: self.prog_counter,
            stack: self.stack@.take(self.stack_pointer as int),
            delay_timer: self.delay_timer,
            sound_timer: self.sound_timer,
            keys: self.keys@,
            video: Seq::new(VIDEO_SIZE as nat, |cell: int| self.video@[cell] != 0),
        }
    }
}

impl Machine {
    /// The arrays have their fixed sizes, the stack pointer counts at most
    /// sixteen entries, and every cell of the framebuffer is dark or lit.
    #[verifier::type_invariant]
    pub closed spec fn inv(&self) -> bool {
        &&& self.registers@.len() == NUM_REGISTERS
        &&& self.memory@.len() == MEMORY_SIZE
        &&& self.stack@.len() == STACK_DEPTH
        &&& self.stack_pointer <= STACK_DEPTH
        &&& self.keys@.len() == NUM_KEYS
        &&& self.video@.len() == VIDEO_SIZE
        &&& forall|cell: int|
            0 <= cell < VIDEO_SIZE ==> self.video@[cell] == 0 || self.video@[cell] == PIXEL_ON
    }

    /// A machine that meets its invariant is well-formed as a mathematical value.
    pub proof fn lemma_inv_wf(&self)
        requires
            self.inv(),
        ensures
            self@.wf(),
    {
    }

    /// Builds the machine for a program image: the image is copied to the load
    /// address and the font to its own. An image that does not fit is refused.
    pub fn new(rom: &[u8]) -> (made: Result<Machine, Chip8Error>)
        ensures
            rom@.len() > MAX_ROM_SIZE ==> made == Err::<Machine, Chip8Error>(
                Chip8Error::RomTooLarge,
            ),
            rom@.len() <= MAX_ROM_SIZE ==> made is Ok && made->Ok_0@ == MachineState::initial(
                rom@,
            ),
            made is Ok ==> made->Ok_0@.wf(),
    {
        if rom.len() > MAX_ROM_SIZE {
            return Err(Chip8Error::RomTooLarge);
        }
        let mut machine = Machine {
            registers: vec![0u8; NUM_REGISTERS],
            memory: vec![0u8; MEMORY_SIZE],
            index: 0,
            prog_counter: START_MEM_ADDR,
            stack_pointer: 0,
            stack: vec![0u16; STACK_DEPTH],
            sound_timer: 0,
            delay_timer: 0,
            keys: vec![false; NUM_KEYS],
            video: vec![0u8; VIDEO_SIZE],
        };
        machine.load_rom(rom);
        machine.load_fonts();
        Ok(machine)
    }

    /// Copies a program image to the load address.
    fn load_rom(&mut self, data: &[u8])
        requires
            data@.len() <= MAX_ROM_SIZE,
        ensures
            final(self)@ == (MachineState {
                memory: Seq::new(
                    MEMORY_SIZE as nat,
                    |a: int|
                        if START_MEM_ADDR <= a < START_MEM_ADDR + data@.len() {
                            data@[a - START_MEM_ADDR]
                        } else {
                            old(self)@.memory[a]
                        },
                ),
                ..old(self)@
            }),
    {
        proof {
            use_type_invariant(&*self);
        }
        let mut i: usize = 0;
        while i < data.len()
            invariant
                i <= data@.len() <= MAX_ROM_SIZE,
                self.memory@.len() == MEMORY_SIZE,
                forall|a: int|
                    0 <= a < MEMORY_SIZE ==> self.memory@[a] == if START_MEM_ADDR <= a
                        < START_MEM_ADDR + i {
                        data@[a - START_MEM_ADDR]
                    } else {
                        old(self)@.memory[a]
                    },
                self@ == (MachineState { memory: self.memory@, ..old(self)@ }),
            decreases data@.len() - i,
        {
            proof {
                use_type_invariant(&*self);
            }
            self.memory[START_MEM_ADDR as usize + i] = data[i];
            i += 1;
        }
    }

    /// Copies the built-in font to its address.
    fn load_fonts(&mut self)
        ensures
            final(self)@ == (MachineState {
                memory: Seq::new(
                    MEMORY_SIZE as nat,
                    |a: int|
                        if START_FONT_ADDR <= a < START_FONT_ADDR + FONTSET@.len() {
                            FONTSET@[a - START_FONT_ADDR]
                        } else {
                            old(self)@.memory[a]
                        },
                ),
                ..old(self)@
            }),
    {
        proof {
            use_type_invariant(&*self);
        }
        let mut i: usize = 0;
        while i < FONTSET.len()
            invariant
                i <= 80,
                FONTSET@.len() == 80,
                self.memory@.len() == MEMORY_SIZE,
                forall|a: int|
                    0 <= a < MEMORY_SIZE ==> self.memory@[a] == if START_FONT_ADDR <= a
                        < START_FONT_ADDR + i {
                        FONTSET@[a - START_FONT_ADDR]
                    } else {
                        old(self)@.memory[a]
                    },
                self@ == (MachineState { memory: self.memory@, ..old(self)@ }),
            decreases 80 - i,
        {
            proof {
                use_type_invariant(&*self);
            }
            self.memory[START_FONT_ADDR as usize + i] = FONTSET[i];
            i += 1;
        }
    }

    /// Draw sprite: the `height` bytes at `index` are drawn with the corner at
    /// the position in registers `x` and `y`.
    fn op_Dxyn(&mut self, x: u8, y: u8, height: u8) -> (result: Result<(), Chip8Error>)
        requires
            x < 16,
            y < 16,
            height < 16,
        ensures
            old(self)@.settles(old(self)@.draw(x, y, height), final(self)@, result),
    {
        proof {
            use_type_invariant(&*self);
        }
        let x_pos: usize = self.registers[x as usize] as usize;
        let y_pos: usize = self.registers[y as usize] as usize;
        let rows: usize = height as usize;
        if rows > 0 && self.index as usize + rows > MEMORY_SIZE {
            return Err(Chip8Error::MemoryOutOfRange);
        }
        let ghost before = self@;
        let ghost index = before.index as int;
        proof {
            lemma_sprite_nothing_drawn(
                before.video,
                before.memory,
                index,
                x_pos as int,
                y_pos as int,
            );
        }
        let mut row: usize = 0;
        while row < rows
            invariant
                row <= rows < 16,
                rows > 0 ==> index + rows <= MEMORY_SIZE,
                index == before.index,
                x_pos < 256,
                y_pos < 256,
                before.wf(),
                self@ == (MachineState {
                    video: self@.video,
                    registers: self@.registers,
                    ..before
                }),
                forall|cell: int|
                    0 <= cell < VIDEO_SIZE ==> self@.video[cell] == (before.video[cell]
                        != #[trigger] sprite_hits(
                        before.memory,
                        index,
                        row as int,
                        0,
                        x_pos as int,
                        y_pos as int,
                        cell,
                    )),
                self@.registers == if sprite_collides(
                    before.video,
                    before.memory,
                    index,
                    row as int,
                    0,
                    x_pos as int,
                    y_pos as int,
                ) {
                    before.registers.update(FLAG as int, 1u8)
                } else {
                    before.registers
                },
            decreases rows - row,
        {
            proof {
                use_type_invariant(&*self);
            }
            let sprite_byte: u8 = self.memory[self.index as usize + row];
            let mut col: u8 = 0;
            while col < 8
                invariant
                    row < rows < 16,
                    col <= 8,
                    index + rows <= MEMORY_SIZE,
                    index == before.index,
                    x_pos < 256,
                    y_pos < 256,
                    sprite_byte == before.memory[index + row],
                    before.wf(),
                    self@ == (MachineState {
                        video: self@.video,
                        registers: self@.registers,
                        ..before
                    }),
                    forall|cell: int|
                        0 <= cell < VIDEO_SIZE ==> self@.video[cell] == (before.video[cell]
                            != #[trigger] sprite_hits(
                            before.memory,
                            index,
                            row as int,
                            col as int,
                            x_pos as int,
                            y_pos as int,
                            cell,
                        )),
                    self@.registers == if sprite_collides(
                        before.video,
                        before.memory,
                        index,
                        row as int,
                        col as int,
                        x_pos as int,
                        y_pos as int,
                    ) {
                        before.registers.update(FLAG as int, 1u8)
                    } else {
                        before.registers
                    },
                decreases 8 - col,
            {
                proof {
                    use_type_invariant(&*self);
                    lemma_sprite_next_column(
                        before.memory,
                        index,
                        row as int,
                        col as int,
                        x_pos as int,
                        y_pos as int,
                    );
                    lemma_collides_next_column(
                        before.video,
                        before.memory,
                        index,
                        row as int,
                        col as int,
                        x_pos as int,
                        y_pos as int,
                    );
                }
                let sprite_pixel: u8 = sprite_byte & (0x80u8 >> col);
                let cell: usize = ((y_pos + row) % VIDEO_HEIGHT) * VIDEO_WIDTH + ((x_pos
                    + col as usize) % VIDEO_WIDTH);
                if sprite_pixel != 0 {
                    let screen_pixel: u8 = self.video[cell];
                    if screen_pixel == PIXEL_ON {
                        self.registers[FLAG] = 1;
                    }
                    let toggled: u8 = screen_pixel ^ PIXEL_ON;
                    assert(toggled == if screen_pixel == 0 {
                        0xFFu8
                    } else {
                        0u8
                    }) by (bit_vector)
                        requires
                            toggled == screen_pixel ^ 0xFF,
                            screen_pixel == 0 || screen_pixel == 0xFF,
                    ;
                    set_cell(&mut self.video, cell, toggled);
                }
                col += 1;
            }
            proof {
                lemma_sprite_next_row(
                    before.video,
                    before.memory,
                    index,
                    row as int,
                    row + 1,
                    x_pos as int,
                    y_pos as int,
                );
            }
            row += 1;
        }
        assert(self@.video =~= before.draw(x, y, height)->Ok_0.video);
        Ok(())
    }

    /// Wait for a key: the lowest pressed key goes to register `x`; with no
    /// key pressed the instruction is made to run again.
    fn op_Fx0A(&mut self, x: u8)
        requires
            x < 16,
            old(self)@.pc >= 2,
        ensures
            final(self)@ == old(self)@.wait_key(x),
    {
        proof {
            use_type_invariant(&*self);
        }
        let mut pressed = false;
        let mut i: usize = 0;
        while i < NUM_KEYS
            invariant_except_break
                !pressed,
                self@ == old(self)@,
            invariant
                i <= NUM_KEYS,
                x < 16,
                old(self)@.keys.len() == NUM_KEYS,
                forall|j: int| 0 <= j < i ==> !old(self)@.keys[j],
            ensures
                pressed ==> is_first_pressed(old(self)@.keys, i as int) && self@ == old(
                    self,
                )@.with_v(x, i as u8),
                !pressed ==> i == NUM_KEYS && self@ == old(self)@,
            decreases NUM_KEYS - i,
        {
            proof {
                use_type_invariant(&*self);
            }
            if self.keys[i] {
                self.registers[x as usize] = i as u8;
                pressed = true;
                break ;
            }
            i += 1;
        }
        if !pressed {
            proof {
                use_type_invariant(&*self);
            }
            self.prog_counter -= 2;
        }
    }

    /// Clear the screen.
    fn op_00E0(&mut self)
        ensures
            final(self)@ == old(self)@.clear_screen(),
    {
        proof {
            use_type_invariant(&*self);
        }
        let mut cell: usize = 0;
        while cell < VIDEO_SIZE
            invariant
                cell <= VIDEO_SIZE,
                self.video@.len() == VIDEO_SIZE,
                forall|c: int| 0 <= c < cell ==> self.video@[c] == 0,
                self@ == (MachineState { video: self@.video, ..old(self)@ }),
            decreases VIDEO_SIZE - cell,
        {
            proof {
                use_type_invariant(&*self);
            }
            set_cell(&mut self.video, cell, 0);
            cell += 1;
        }
    }

    /// Return from a subroutine.
    fn op_00EE(&mut self) -> (result: Result<(), Chip8Error>)
        ensures
            old(self)@.settles(old(self)@.ret(), final(self)@, result),
    {
        proof {
            use_type_invariant(&*self);
        }
        if self.stack_pointer == 0 {
            return Err(Chip8Error::StackUnderflow);
        }
        self.stack_pointer -= 1;
        self.prog_counter = self.stack[self.stack_pointer as usize];
        assert(self@ =~= old(self)@.ret()->Ok_0);
        Ok(())
    }

    /// Jump to an address.
    fn op_1nnn(&mut self, addr: u16)
        ensures
            final(self)@ == old(self)@.jump(addr),
    {
        proof {
            use_type_invariant(&*self);
        }
        self.prog_counter = addr;
    }

    /// Call the subroutine at an address.
    fn op_2nnn(&mut self, addr: u16) -> (result: Result<(), Chip8Error>)
        ensures
            old(self)@.settles(old(self)@.call(addr), final(self)@, result),
    {
        proof {
            use_type_invariant(&*self);
        }
        if self.stack_pointer as usize >= STACK_DEPTH {
            return Err(Chip8Error::StackOverflow);
        }
        self.stack[self.stack_pointer as usize] = self.prog_counter;
        self.stack_pointer += 1;
        self.prog_counter = addr;
        assert(self@ =~= old(self)@.call(addr)->Ok_0);
        Ok(())
    }

    /// Skip the next instruction if register `x` holds `byte`.
    fn op_3xkk(&mut self, x: u8, byte: u8)
        requires
            x < 16,
            old(self)@.pc <= 0xFFFD,
        ensures
            final(self)@ == old(self)@.skip_if(old(self)@.v(x) == byte),
    {
        proof {
            use_type_invariant(&*self);
        }
        if self.registers[x as usize] == byte {
            self.prog_counter += 2;
        }
    }

    /// Skip the next instruction if register `x` does not hold `byte`.
    fn op_4xkk(&mut self, x: u8, byte: u8)
        requires
            x < 16,
            old(self)@.pc <= 0xFFFD,
        ensures
            final(self)@ == old(self)@.skip_if(old(self)@.v(x) != byte),
    {
        proof {
            use_type_invariant(&*self);
        }
        if self.registers[x as usize] != byte {
            self.prog_counter += 2;
        }
    }

    /// Skip the next instruction if registers `x` and `y` are equal.
    fn op_5xy0(&mut self, x: u8, y: u8)
        requires
            x < 16,
            y < 16,
            old(self)@.pc <= 0xFFFD,
        ensures
            final(self)@ == old(self)@.skip_if(old(self)@.v(x) == old(self)@.v(y)),
    {
        proof {
            use_type_invariant(&*self);
        }
        if self.registers[x as usize] == self.registers[y as usize] {
            self.prog_counter += 2;
        }
    }

    /// Load `byte` into register `x`.
    fn op_6xkk(&mut self, x: u8, byte: u8)
        requires
            x < 16,
        ensures
            final(self)@ == old(self)@.with_v(x, byte),
    {
        proof {
            use_type_invariant(&*self);
        }
        self.registers[x as usize] = byte;
    }

    /// Add `byte` to register `x`, without a carry flag.
    fn op_7xkk(&mut self, x: u8, byte: u8)
        requires
            x < 16,
        ensures
            final(self)@ == old(self)@.add_imm(x, byte),
    {
        proof {
            use_type_invariant(&*self);
        }
        let value: u8 = self.registers[x as usize];
        let sum: u8 = #[verifier::truncate]
        ((value as u16 + byte as u16) as u8);
        assert(sum as int == (value as int + byte as int) % 256) by (bit_vector)
            requires
                sum == (value as u16 + byte as u16) as u8,
        ;
        self.registers[x as usize] = sum;
    }

    /// Copy register `y` to register `x`.
    fn op_8xy0(&mut self, x: u8, y: u8)
        requires
            x < 16,
            y < 16,
        ensures
            final(self)@ == old(self)@.with_v(x, old(self)@.v(y)),
    {
        proof {
            use_type_invariant(&*self);
        }
        self.registers[x as usize] = self.registers[y as usize];
    }

    /// Bitwise or of registers `x` and `y`, into `x`; the flag is not touched.
    fn op_8xy1(&mut self, x: u8, y: u8)
        requires
            x < 16,
            y < 16,
        ensures
            final(self)@ == old(self)@.or_reg(x, y),
    {
        proof {
            use_type_invariant(&*self);
        }
        self.registers[x as usize] = self.registers[x as usize] | self.registers[y as usize];
    }

    /// Bitwise and of registers `x` and `y`, into `x`; the flag is not touched.
    fn op_8xy2(&mut self, x: u8, y: u8)
        requires
            x < 16,
            y < 16,
        ensures
            final(self)@ == old(self)@.and_reg(x, y),
    {
        proof {
            use_type_invariant(&*self);
        }
        self.registers[x as usize] = self.registers[x as usize] & self.registers[y as usize];
    }

    /// Bitwise exclusive or of registers `x` and `y`, into `x`; the flag is
    /// not touched.
    fn op_8xy3(&mut self, x: u8, y: u8)
        requires
            x < 16,
            y < 16,
        ensures
            final(self)@ == old(self)@.xor_reg(x, y),
    {
        proof {
            use_type_invariant(&*self);
        }
        self.registers[x as usize] = self.registers[x as usize] ^ self.registers[y as usize];
    }

    /// Add register `y` to register `x`; the flag tells whether the sum left
    /// the byte.
    fn op_8xy4(&mut self, x: u8, y: u8)
        requires
            x < 16,
            y < 16,
        ensures
            final(self)@ == old(self)@.add_reg(x, y),
    {
        proof {
            use_type_invariant(&*self);
        }
        let sum: usize = self.registers[x as usize] as usize + self.registers[y as usize] as usize;
        if sum > 255 {
            self.registers[FLAG] = 1
        } else {
            self.registers[FLAG] = 0
        }
        let low: u8 = #[verifier::truncate]
        (sum as u8);
        assert(low == sum % 256) by (bit_vector)
            requires
                low == sum as u8,
        ;
        self.registers[x as usize] = low;
    }

    /// Subtract register `y` from register `x`; the flag tells whether `x`
    /// was the greater.
    fn op_8xy5(&mut self, x: u8, y: u8)
        requires
            x < 16,
            y < 16,
        ensures
            final(self)@ == old(self)@.sub_reg(x, y),
    {
        proof {
            use_type_invariant(&*self);
        }
        if self.registers[x as usize] > self.registers[y as usize] {
            self.registers[FLAG] = 1
        } else {
            self.registers[FLAG] = 0
        }
        let minuend: u8 = self.registers[x as usize];
        let subtrahend: u8 = self.registers[y as usize];
        let difference: u8 = minuend.wrapping_sub(subtrahend);
        self.registers[x as usize] = difference;
    }

    /// Shift right: register `x` takes register `y` halved, the flag its low bit.
    fn op_8xy6(&mut self, x: u8, y: u8)
        requires
            x < 16,
            y < 16,
        ensures
            final(self)@ == old(self)@.shift_right(x, y),
    {
        proof {
            use_type_invariant(&*self);
        }
        self.registers[x as usize] = self.registers[y as usize];
        let copied: u8 = self.registers[x as usize];
        assert(copied & 0x1 == copied % 2) by (bit_vector);
        self.registers[FLAG] = copied & 0x1;
        let flagged: u8 = self.registers[x as usize];
        assert(flagged >> 1 == flagged / 2) by (bit_vector);
        self.registers[x as usize] = flagged >> 1;
    }

    /// Subtract register `x` from register `y`, into `x`; the flag tells
    /// whether `y` was the greater.
    fn op_8xy7(&mut self, x: u8, y: u8)
        requires
            x < 16,
            y < 16,
        ensures
            final(self)@ == old(self)@.subn_reg(x, y),
    {
        proof {
            use_type_invariant(&*self);
        }
        if self.registers[y as usize] > self.registers[x as usize] {
            self.registers[FLAG] = 1
        } else {
            self.registers[FLAG] = 0
        }
        let minuend: u8 = self.registers[y as usize];
        let subtrahend: u8 = self.registers[x as usize];
        let difference: u8 = minuend.wrapping_sub(subtrahend);
        self.registers[x as usize] = difference;
    }

    /// Shift left: register `x` takes register `y` doubled, the flag its high bit.
    fn op_8xyE(&mut self, x: u8, y: u8)
        requires
            x < 16,
            y < 16,
        ensures
            final(self)@ == old(self)@.shift_left(x, y),
    {
        proof {
            use_type_invariant(&*self);
        }
        self.registers[x as usize] = self.registers[y as usize];
        let copied: u8 = self.registers[x as usize];
        assert((copied & 0x80) >> 7 == copied / 128) by (bit_vector);
        self.registers[FLAG] = (copied & 0x80) >> 7;
        let flagged: u8 = self.registers[x as usize];
        assert(flagged << 1 == (flagged * 2) % 256) by (bit_vector);
        self.registers[x as usize] = flagged << 1;
    }

    /// Skip the next instruction if registers `x` and `y` differ.
    fn op_9xy0(&mut self, x: u8, y: u8)
        requires
            x < 16,
            y < 16,
            old(self)@.pc <= 0xFFFD,
        ensures
            final(self)@ == old(self)@.skip_if(old(self)@.v(x) != old(self)@.v(y)),
    {
        proof {
            use_type_invariant(&*self);
        }
        if self.registers[x as usize] != self.registers[y as usize] {
            self.prog_counter += 2;
        }
    }

    /// Load an address into the index register.
    fn op_Annn(&mut self, addr: u16)
        ensures
            final(self)@ == old(self)@.load_index(addr),
    {
        proof {
            use_type_invariant(&*self);
        }
        self.index = addr;
    }

    /// Jump to an address plus register 0.
    fn op_Bnnn(&mut self, addr: u16)
        requires
            addr < 0x1000,
        ensures
            final(self)@ == old(self)@.jump_offset(addr),
    {
        proof {
            use_type_invariant(&*self);
        }
        self.prog_counter = self.registers[0x0] as u16 + addr;
    }

    /// Load `random` masked with `byte` into register `x`; `random` is the
    /// byte that the random source gave.
    fn op_Cxkk(&mut self, x: u8, byte: u8, random: u8)
        requires
            x < 16,
        ensures
            final(self)@ == old(self)@.rand_and(x, byte, random),
    {
        proof {
            use_type_invariant(&*self);
        }
        self.registers[x as usize] = random & byte;
    }

    /// Skip the next instruction if the key that register `x` names is pressed.
    fn op_Ex9E(&mut self, x: u8) -> (result: Result<(), Chip8Error>)
        requires
            x < 16,
            old(self)@.pc <= 0xFFFD,
        ensures
            old(self)@.settles(old(self)@.skip_key(x, true), final(self)@, result),
    {
        proof {
            use_type_invariant(&*self);
        }
        let key: usize = self.registers[x as usize] as usize;
        if key >= NUM_KEYS {
            return Err(Chip8Error::KeyOutOfRange);
        }
        if self.keys[key] {
            self.prog_counter += 2;
        }
        Ok(())
    }

    /// Skip the next instruction if the key that register `x` names is not
    /// pressed.
    fn op_ExA1(&mut self, x: u8) -> (result: Result<(), Chip8Error>)
        requires
            x < 16,
            old(self)@.pc <= 0xFFFD,
        ensures
            old(self)@.settles(old(self)@.skip_key(x, false), final(self)@, result),
    {
        proof {
            use_type_invariant(&*self);
        }
        let key: usize = self.registers[x as usize] as usize;
        if key >= NUM_KEYS {
            return Err(Chip8Error::KeyOutOfRange);
        }
        if !self.keys[key] {
            self.prog_counter += 2;
        }
        Ok(())
    }

    /// Read the delay timer into register `x`.
    fn op_Fx07(&mut self, x: u8)
        requires
            x < 16,
        ensures
            final(self)@ == old(self)@.with_v(x, old(self)@.delay_timer),
    {
        proof {
            use_type_invariant(&*self);
        }
        self.registers[x as usize] = self.delay_timer;
    }

    /// Set the delay timer from register `x`.
    fn op_Fx15(&mut self, x: u8)
        requires
            x < 16,
        ensures
            final(self)@ == (MachineState { delay_timer: old(self)@.v(x), ..old(self)@ }),
    {
        proof {
            use_type_invariant(&*self);
        }
        self.delay_timer = self.registers[x as usize];
    }

    /// Set the sound timer from register `x`.
    fn op_Fx18(&mut self, x: u8)
        requires
            x < 16,
        ensures
            final(self)@ == (MachineState { sound_timer: old(self)@.v(x), ..old(self)@ }),
    {
        proof {
            use_type_invariant(&*self);
        }
        self.sound_timer = self.registers[x as usize];
    }

    /// Add register `x` to the index register, wrapping at sixteen bits.
    fn op_Fx1E(&mut self, x: u8)
        requires
            x < 16,
        ensures
            final(self)@ == old(self)@.add_index(x),
    {
        proof {
            use_type_invariant(&*self);
        }
        self.index = self.index.wrapping_add(self.registers[x as usize] as u16);
    }

    /// Point the index register at the glyph for the digit in register `x`.
    fn op_Fx29(&mut self, x: u8)
        requires
            x < 16,
        ensures
            final(self)@ == old(self)@.font_addr(x),
    {
        proof {
            use_type_invariant(&*self);
        }
        let digit: u16 = self.registers[x as usize] as u16;
        self.index = START_FONT_ADDR + GLYPH_SIZE * digit;
    }

    /// Store the decimal digits of register `x` at the index register.
    fn op_Fx33(&mut self, x: u8) -> (result: Result<(), Chip8Error>)
        requires
            x < 16,
        ensures
            old(self)@.settles(old(self)@.bcd(x), final(self)@, result),
    {
        proof {
            use_type_invariant(&*self);
        }
        let mut value: u8 = self.registers[x as usize];
        let idx: usize = self.index as usize;
        if idx + 2 >= MEMORY_SIZE {
            return Err(Chip8Error::MemoryOutOfRange);
        }
        self.memory[idx + 2] = value % 10;
        value /= 10;
        self.memory[idx + 1] = value % 10;
        value /= 10;
        self.memory[idx] = value % 10;
        assert(self@ =~= old(self)@.bcd(x)->Ok_0);
        Ok(())
    }

    /// Store registers 0 to `x` at the index register and move it past them.
    fn op_Fx55(&mut self, x: u8) -> (result: Result<(), Chip8Error>)
        requires
            x < 16,
        ensures
            old(self)@.settles(old(self)@.store_regs(x), final(self)@, result),
    {
        proof {
            use_type_invariant(&*self);
        }
        let last: usize = x as usize;
        let base: usize = self.index as usize;
        if base + last >= MEMORY_SIZE {
            return Err(Chip8Error::MemoryOutOfRange);
        }
        let mut i: usize = 0;
        while i <= last
            invariant
                i <= last + 1,
                last < 16,
                base == old(self)@.index,
                base + last < MEMORY_SIZE,
                old(self)@.wf(),
                self.memory@.len() == MEMORY_SIZE,
                forall|a: int|
                    0 <= a < MEMORY_SIZE ==> self.memory@[a] == if base <= a < base + i {
                        old(self)@.registers[a - base]
                    } else {
                        old(self)@.memory[a]
                    },
                self@ == (MachineState { memory: self.memory@, ..old(self)@ }),
            decreases last + 1 - i,
        {
            proof {
                use_type_invariant(&*self);
            }
            self.memory[base + i] = self.registers[i];
            i += 1;
        }
        proof {
            use_type_invariant(&*self);
        }
        self.index += x as u16 + 1;
        assert(self@ =~= old(self)@.store_regs(x)->Ok_0);
        Ok(())
    }

    /// Load registers 0 to `x` from the index register on and move it past
    /// what was read.
    fn op_Fx65(&mut self, x: u8) -> (result: Result<(), Chip8Error>)
        requires
            x < 16,
        ensures
            old(self)@.settles(old(self)@.load_regs(x), final(self)@, result),
    {
        proof {
            use_type_invariant(&*self);
        }
        let last: usize = x as usize;
        let base: usize = self.index as usize;
        if base + last >= MEMORY_SIZE {
            return Err(Chip8Error::MemoryOutOfRange);
        }
        let mut i: usize = 0;
        while i <= last
            invariant
                i <= last + 1,
                last < 16,
                base == old(self)@.index,
                base + last < MEMORY_SIZE,
                old(self)@.wf(),
                self.registers@.len() == NUM_REGISTERS,
                forall|r: int|
                    0 <= r < NUM_REGISTERS ==> self.registers@[r] == if r < i {
                        old(self)@.memory[base + r]
                    } else {
                        old(self)@.registers[r]
                    },
                self@ == (MachineState { registers: self.registers@, ..old(self)@ }),
            decreases last + 1 - i,
        {
            proof {
                use_type_invariant(&*self);
            }
            self.registers[i] = self.memory[base + i];
            i += 1;
        }
        proof {
            use_type_invariant(&*self);
        }
        self.index += x as u16 + 1;
        assert(self@ =~= old(self)@.load_regs(x)->Ok_0);
        Ok(())
    }

    /// What runs for an instruction word with no handler: nothing.
    fn op_null(&mut self)
        ensures
            final(self)@ == old(self)@,
    {
    }

    /// Runs the handler of one decoded instruction. The program counter
    /// already stands behind the instruction.
    fn execute(&mut self, instr: Instruction, random: u8) -> (result: Result<(), Chip8Error>)
        requires
            instr.wf(),
            2 <= old(self)@.pc <= 0xFFFD,
        ensures
            old(self)@.settles(old(self)@.execute(instr, random), final(self)@, result),
    {
        match instr {
            Instruction::ClearScreen => {
                self.op_00E0();
                Ok(())
            },
            Instruction::Return => self.op_00EE(),
            Instruction::Jump { addr } => {
                self.op_1nnn(addr);
                Ok(())
            },
            Instruction::Call { addr } => self.op_2nnn(addr),
            Instruction::SkipEqImm { x, byte } => {
                self.op_3xkk(x, byte);
                Ok(())
            },
            Instruction::SkipNeImm { x, byte } => {
                self.op_4xkk(x, byte);
                Ok(())
            },
            Instruction::SkipEqReg { x, y } => {
                self.op_5xy0(x, y);
                Ok(())
            },
            Instruction::LoadImm { x, byte } => {
                self.op_6xkk(x, byte);
                Ok(())
            },
            Instruction::AddImm { x, byte } => {
                self.op_7xkk(x, byte);
                Ok(())
            },
            Instruction::Move { x, y } => {
                self.op_8xy0(x, y);
                Ok(())
            },
            Instruction::Or { x, y } => {
                self.op_8xy1(x, y);
                Ok(())
            },
            Instruction::And { x, y } => {
                self.op_8xy2(x, y);
                Ok(())
            },
            Instruction::Xor { x, y } => {
                self.op_8xy3(x, y);
                Ok(())
            },
            Instruction::AddReg { x, y } => {
                self.op_8xy4(x, y);
                Ok(())
            },
            Instruction::Sub { x, y } => {
                self.op_8xy5(x, y);
                Ok(())
            },
            Instruction::ShiftRight { x, y } => {
                self.op_8xy6(x, y);
                Ok(())
            },
            Instruction::SubN { x, y } => {
                self.op_8xy7(x, y);
                Ok(())
            },
            Instruction::ShiftLeft { x, y } => {
                self.op_8xyE(x, y);
                Ok(())
            },
            Instruction::SkipNeReg { x, y } => {
                self.op_9xy0(x, y);
                Ok(())
            },
            Instruction::LoadIndex { addr } => {
                self.op_Annn(addr);
                Ok(())
            },
            Instruction::JumpOffset { addr } => {
                self.op_Bnnn(addr);
                Ok(())
            },
            Instruction::RandAnd { x, byte } => {
                self.op_Cxkk(x, byte, random);
                Ok(())
            },
            Instruction::Draw { x, y, height } => self.op_Dxyn(x, y, height),
            Instruction::SkipKeyDown { x } => self.op_Ex9E(x),
            Instruction::SkipKeyUp { x } => self.op_ExA1(x),
            Instruction::GetDelay { x } => {
                self.op_Fx07(x);
                Ok(())
            },
            Instruction::WaitKey { x } => {
                self.op_Fx0A(x);
                Ok(())
            },
            Instruction::SetDelay { x } => {
                self.op_Fx15(x);
                Ok(())
            },
            Instruction::SetSound { x } => {
                self.op_Fx18(x);
                Ok(())
            },
            Instruction::AddIndex { x } => {
                self.op_Fx1E(x);
                Ok(())
            },
            Instruction::FontAddr { x } => {
                self.op_Fx29(x);
                Ok(())
            },
            Instruction::Bcd { x } => self.op_Fx33(x),
            Instruction::StoreRegs { x } => self.op_Fx55(x),
            Instruction::LoadRegs { x } => self.op_Fx65(x),
            Instruction::Nop => {
                self.op_null();
                Ok(())
            },
        }
    }

    /// The instruction that the next cycle will execute, or `None` when the
    /// program counter stands where no whole instruction can be read.
    pub fn next_instruction(&self) -> (next: Option<Instruction>)
        ensures
            next == if self@.can_fetch() {
                Some(decode_spec(self@.fetch()))
            } else {
                None
            },
    {
        proof {
            use_type_invariant(self);
        }
        let pc: usize = self.prog_counter as usize;
        if pc + 1 >= MEMORY_SIZE {
            return None;
        }
        let high: u8 = self.memory[pc];
        let low: u8 = self.memory[pc + 1];
        let opcode: u16 = ((high as u16) << 8) | low as u16;
        assert(opcode == high * 256 + low) by (bit_vector)
            requires
                opcode == ((high as u16) << 8) | low as u16,
        ;
        Some(decode(opcode))
    }

    /// Executes one cycle: fetches the instruction at the program counter,
    /// moves the counter behind it, runs the instruction's handler, and lets
    /// both timers count down. `random` is the byte that the random source
    /// gave for this cycle. A cycle that fails leaves the machine as it was.
    pub fn cycle(&mut self, random: u8) -> (result: Result<(), Chip8Error>)
        ensures
            old(self)@.cycle_outcome(random, final(self)@, result),
            final(self)@.wf(),
    {
        proof {
            use_type_invariant(&*self);
        }
        let instr = match self.next_instruction() {
            Some(instr) => instr,
            None => {
                return Err(Chip8Error::MemoryOutOfRange);
            },
        };
        self.prog_counter += 2;
        match self.execute(instr, random) {
            Ok(()) => {},
            Err(e) => {
                proof {
                    use_type_invariant(&*self);
                }
                self.prog_counter -= 2;
                return Err(e);
            },
        }
        proof {
            use_type_invariant(&*self);
        }
        if self.delay_timer > 0 {
            self.delay_timer -= 1
        }
        if self.sound_timer > 0 {
            self.sound_timer -= 1
        }
        Ok(())
    }

    /// Presses or releases a key of the keypad. A key that the keypad does
    /// not have is refused.
    pub fn set_key(&mut self, key: usize, pressed: bool) -> (result: Result<(), Chip8Error>)
        ensures
            key < NUM_KEYS ==> result is Ok && final(self)@ == (MachineState {
                keys: old(self)@.keys.update(key as int, pressed),
                ..old(self)@
            }),
            key >= NUM_KEYS ==> result == Err::<(), Chip8Error>(Chip8Error::KeyOutOfRange)
                && final(self)@ == old(self)@,
            final(self)@.wf(),
    {
        proof {
            use_type_invariant(&*self);
        }
        if key >= NUM_KEYS {
            return Err(Chip8Error::KeyOutOfRange);
        }
        self.keys[key] = pressed;
        Ok(())
    }

    /// The keypad: one flag for each key, `true` while it is pressed.
    pub fn keys(&self) -> (keys: &Vec<bool>)
        ensures
            keys@ == self@.keys,
            keys@.len() == NUM_KEYS,
    {
        proof {
            use_type_invariant(self);
        }
        &self.keys
    }

    /// The framebuffer, row by row: a lit cell holds `PIXEL_ON`, a dark one 0.
    pub fn video(&self) -> (video: &Vec<u8>)
        ensures
            video@.len() == VIDEO_SIZE,
            self@.video.len() == VIDEO_SIZE,
            forall|cell: int|
                0 <= cell < VIDEO_SIZE ==> video@[cell] == if self@.video[cell] {
                    PIXEL_ON
                } else {
                    0u8
                },
    {
        proof {
            use_type_invariant(self);
        }
        &self.video
    }

    /// The sixteen general-purpose registers.
    pub fn registers(&self) -> (registers: &Vec<u8>)
        ensures
            registers@ == self@.registers,
            registers@.len() == NUM_REGISTERS,
    {
        proof {
            use_type_invariant(self);
        }
        &self.registers
    }

    /// The whole memory.
    pub fn memory(&self) -> (memory: &Vec<u8>)
        ensures
            memory@ == self@.memory,
            memory@.len() == MEMORY_SIZE,
    {
        proof {
            use_type_invariant(self);
        }
        &self.memory
    }

    /// The index register.
    pub fn index(&self) -> (index: u16)
        ensures
            index == self@.index,
    {
        self.index
    }

    /// The program counter.
    pub fn prog_counter(&self) -> (pc: u16)
        ensures
            pc == self@.pc,
    {
        self.prog_counter
    }

    /// The number of return addresses on the call stack.
    pub fn stack_pointer(&self) -> (depth: u8)
        ensures
            depth == self@.stack.len(),
            depth <= STACK_DEPTH,
    {
        proof {
            use_type_invariant(self);
        }
        self.stack_pointer
    }

    /// The return address at a depth of the call stack, the oldest call
    /// being at depth 0; `None` above the top of the stack.
    pub fn return_address(&self, depth: usize) -> (addr: Option<u16>)
        ensures
            addr == if depth < self@.stack.len() {
                Some(self@.stack[depth as int])
            } else {
                None
            },
    {
        proof {
            use_type_invariant(self);
        }
        if depth < self.stack_pointer as usize {
            Some(self.stack[depth])
        } else {
            None
        }
    }

    /// The delay timer.
    pub fn delay_timer(&self) -> (timer: u8)
        ensures
            timer == self@.delay_timer,
    {
        self.delay_timer
    }

    /// The sound timer.
    pub fn sound_timer(&self) -> (timer: u8)
        ensures
            timer == self@.sound_timer,
    {
        self.sound_timer
    }
}

} // verus!
