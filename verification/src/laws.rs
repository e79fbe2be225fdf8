use crate::error::Chip8Error;
use crate::instruction::{
    addr_of, byte_of, decode_spec, family_of, lemma_decode_wf, low_nibble_of, x_of, y_of,
    Instruction,
};
use crate::model::{MachineState, MEMORY_SIZE, NUM_KEYS, STACK_DEPTH};
use vstd::prelude::*;

verus! {

/// The instruction word that is written for an instruction: the family
/// nibble, then the operands, then the selector within the family. `Nop`
/// stands for every word without a handler; the word given for it is one of
/// them.
pub open spec fn opcode_of(instr: Instruction) -> int {
    match instr {
        Instruction::ClearScreen => 0x00E0,
        Instruction::Return => 0x00EE,
        Instruction::Jump { addr } => 0x1000 + addr,
        Instruction::Call { addr } => 0x2000 + addr,
        Instruction::SkipEqImm { x, byte } => 0x3000 + x * 0x100 + byte,
        Instruction::SkipNeImm { x, byte } => 0x4000 + x * 0x100 + byte,
        Instruction::SkipEqReg { x, y } => 0x5000 + x * 0x100 + y * 0x10,
        Instruction::LoadImm { x, byte } => 0x6000 + x * 0x100 + byte,
        Instruction::AddImm { x, byte } => 0x7000 + x * 0x100 + byte,
        Instruction::Move { x, y } => 0x8000 + x * 0x100 + y * 0x10,
        Instruction::Or { x, y } => 0x8001 + x * 0x100 + y * 0x10,
        Instruction::And { x, y } => 0x8002 + x * 0x100 + y * 0x10,
        Instruction::Xor { x, y } => 0x8003 + x * 0x100 + y * 0x10,
        Instruction::AddReg { x, y } => 0x8004 + x * 0x100 + y * 0x10,
        Instruction::Sub { x, y } => 0x8005 + x * 0x100 + y * 0x10,
        Instruction::ShiftRight { x, y } => 0x8006 + x * 0x100 + y * 0x10,
        Instruction::SubN { x, y } => 0x8007 + x * 0x100 + y * 0x10,
        Instruction::ShiftLeft { x, y } => 0x800E + x * 0x100 + y * 0x10,
        Instruction::SkipNeReg { x, y } => 0x9000 + x * 0x100 + y * 0x10,
        Instruction::LoadIndex { addr } => 0xA000 + addr,
        Instruction::JumpOffset { addr } => 0xB000 + addr,
        Instruction::RandAnd { x, byte } => 0xC000 + x * 0x100 + byte,
        Instruction::Draw { x, y, height } => 0xD000 + x * 0x100 + y * 0x10 + height,
        Instruction::SkipKeyDown { x } => 0xE09E + x * 0x100,
        Instruction::SkipKeyUp { x } => 0xE0A1 + x * 0x100,
        Instruction::GetDelay { x } => 0xF007 + x * 0x100,
        Instruction::WaitKey { x } => 0xF00A + x * 0x100,
        Instruction::SetDelay { x } => 0xF015 + x * 0x100,
        Instruction::SetSound { x } => 0xF018 + x * 0x100,
        Instruction::AddIndex { x } => 0xF01E + x * 0x100,
        Instruction::FontAddr { x } => 0xF029 + x * 0x100,
        Instruction::Bcd { x } => 0xF033 + x * 0x100,
        Instruction::StoreRegs { x } => 0xF055 + x * 0x100,
        Instruction::LoadRegs { x } => 0xF065 + x * 0x100,
        Instruction::Nop => 0x0001,
    }
}

/// Decoding selects the handler that the instruction set assigns: the word written for an
/// instruction decodes to that instruction, with its operands.
pub proof fn lemma_decode_selects_handler(instr: Instruction)
    requires
        instr.wf(),
    ensures
        0 <= opcode_of(instr) <= 0xFFFF,
        decode_spec(opcode_of(instr) as u16) == instr,
{
    match instr {
        Instruction::ClearScreen => lemma_word_fields(0x0, 0x0, 0xE, 0x0),
        Instruction::Return => lemma_word_fields(0x0, 0x0, 0xE, 0xE),
        Instruction::Jump { addr } => lemma_word_fields(
            0x1,
            addr as int / 0x100,
            (addr as int / 0x10) % 0x10,
            addr as int % 0x10,
        ),
        Instruction::Call { addr } => lemma_word_fields(
            0x2,
            addr as int / 0x100,
            (addr as int / 0x10) % 0x10,
            addr as int % 0x10,
        ),
        Instruction::SkipEqImm { x, byte } => lemma_word_fields(
            0x3,
            x as int,
            byte as int / 0x10,
            byte as int % 0x10,
        ),
        Instruction::SkipNeImm { x, byte } => lemma_word_fields(
            0x4,
            x as int,
            byte as int / 0x10,
            byte as int % 0x10,
        ),
        Instruction::SkipEqReg { x, y } => lemma_word_fields(0x5, x as int, y as int, 0x0),
        Instruction::LoadImm { x, byte } => lemma_word_fields(
            0x6,
            x as int,
            byte as int / 0x10,
            byte as int % 0x10,
        ),
        Instruction::AddImm { x, byte } => lemma_word_fields(
            0x7,
            x as int,
            byte as int / 0x10,
            byte as int % 0x10,
        ),
        Instruction::Move { x, y } => lemma_word_fields(0x8, x as int, y as int, 0x0),
        Instruction::Or { x, y } => lemma_word_fields(0x8, x as int, y as int, 0x1),
        Instruction::And { x, y } => lemma_word_fields(0x8, x as int, y as int, 0x2),
        Instruction::Xor { x, y } => lemma_word_fields(0x8, x as int, y as int, 0x3),
        Instruction::AddReg { x, y } => lemma_word_fields(0x8, x as int, y as int, 0x4),
        Instruction::Sub { x, y } => lemma_word_fields(0x8, x as int, y as int, 0x5),
        Instruction::ShiftRight { x, y } => lemma_word_fields(0x8, x as int, y as int, 0x6),
        Instruction::SubN { x, y } => lemma_word_fields(0x8, x as int, y as int, 0x7),
        Instruction::ShiftLeft { x, y } => lemma_word_fields(0x8, x as int, y as int, 0xE),
        Instruction::SkipNeReg { x, y } => lemma_word_fields(0x9, x as int, y as int, 0x0),
        Instruction::LoadIndex { addr } => lemma_word_fields(
            0xA,
            addr as int / 0x100,
            (addr as int / 0x10) % 0x10,
            addr as int % 0x10,
        ),
        Instruction::JumpOffset { addr } => lemma_word_fields(
            0xB,
            addr as int / 0x100,
            (addr as int / 0x10) % 0x10,
            addr as int % 0x10,
        ),
        Instruction::RandAnd { x, byte } => lemma_word_fields(
            0xC,
            x as int,
            byte as int / 0x10,
            byte as int % 0x10,
        ),
        Instruction::Draw { x, y, height } => lemma_word_fields(
            0xD,
            x as int,
            y as int,
            height as int,
        ),
        Instruction::SkipKeyDown { x } => lemma_word_fields(0xE, x as int, 0x9, 0xE),
        Instruction::SkipKeyUp { x } => lemma_word_fields(0xE, x as int, 0xA, 0x1),
        Instruction::GetDelay { x } => lemma_word_fields(0xF, x as int, 0x0, 0x7),
        Instruction::WaitKey { x } => lemma_word_fields(0xF, x as int, 0x0, 0xA),
        Instruction::SetDelay { x } => lemma_word_fields(0xF, x as int, 0x1, 0x5),
        Instruction::SetSound { x } => lemma_word_fields(0xF, x as int, 0x1, 0x8),
        Instruction::AddIndex { x } => lemma_word_fields(0xF, x as int, 0x1, 0xE),
        Instruction::FontAddr { x } => lemma_word_fields(0xF, x as int, 0x2, 0x9),
        Instruction::Bcd { x } => lemma_word_fields(0xF, x as int, 0x3, 0x3),
        Instruction::StoreRegs { x } => lemma_word_fields(0xF, x as int, 0x5, 0x5),
        Instruction::LoadRegs { x } => lemma_word_fields(0xF, x as int, 0x6, 0x5),
        Instruction::Nop => lemma_word_fields(0x0, 0x0, 0x0, 0x1),
    }
}

/// The fields of the word made of four nibbles are those nibbles.
proof fn lemma_word_fields(family: int, x: int, y: int, low: int)
    requires
        0 <= family < 16,
        0 <= x < 16,
        0 <= y < 16,
        0 <= low < 16,
    ensures
        ({
            let word = (family * 0x1000 + x * 0x100 + y * 0x10 + low) as u16;
            &&& word == family * 0x1000 + x * 0x100 + y * 0x10 + low
            &&& family_of(word) == family
            &&& x_of(word) == x
            &&& y_of(word) == y
            &&& low_nibble_of(word) == low
            &&& byte_of(word) == y * 0x10 + low
            &&& addr_of(word) == x * 0x100 + y * 0x10 + low
        }),
{
    let f = family as u16;
    let a = x as u16;
    let b = y as u16;
    let c = low as u16;
    let word = (family * 0x1000 + x * 0x100 + y * 0x10 + low) as u16;
    assert(word / 0x1000 == f && (word / 0x100) % 0x10 == a && (word / 0x10) % 0x10 == b && word
        % 0x10 == c && word % 0x100 == b * 0x10 + c && word % 0x1000 == a * 0x100 + b * 0x10 + c)
        by (bit_vector)
        requires
            f < 16,
            a < 16,
            b < 16,
            c < 16,
            word == f * 0x1000 + a * 0x100 + b * 0x10 + c,
    ;
}

/// A word decodes to `Nop` exactly when its family has a table and the
/// word's selector has no entry in it.
pub proof fn lemma_decode_nop(opcode: u16)
    ensures
        decode_spec(opcode) is Nop <==> {
            let family = opcode / 0x1000;
            let low = opcode % 0x10;
            let byte = opcode % 0x100;
            ||| family == 0x0 && low != 0x0 && low != 0xE
            ||| family == 0x8 && low > 0x7 && low != 0xE
            ||| family == 0xE && low != 0x1 && low != 0xE
            ||| family == 0xF && byte != 0x07 && byte != 0x0A && byte != 0x15 && byte != 0x18
                && byte != 0x1E && byte != 0x29 && byte != 0x33 && byte != 0x55 && byte != 0x65
        },
{
}

/// A word without a handler is a no-op: its cycle succeeds and only moves
/// the program counter behind the word and lets the timers count down.
pub proof fn lemma_nop_cycle(s: MachineState, random: u8)
    requires
        s.wf(),
        s.can_fetch(),
        decode_spec(s.fetch()) is Nop,
    ensures
        s.cycle(random) == Ok::<MachineState, Chip8Error>(
            (MachineState { pc: (s.pc + 2) as u16, ..s }).tick(),
        ),
{
}

/// A cycle keeps the machine well-formed: the sizes of memory, register
/// file, keypad and screen stay, and the stack never holds more than sixteen
/// return addresses.
pub proof fn lemma_cycle_preserves_wf(s: MachineState, random: u8)
    requires
        s.wf(),
    ensures
        s.cycle(random) matches Ok(next) ==> next.wf(),
{
    if s.can_fetch() {
        let fetched = MachineState { pc: (s.pc + 2) as u16, ..s };
        lemma_decode_wf(s.fetch());
        lemma_execute_preserves_wf(fetched, decode_spec(s.fetch()), random);
    }
}

/// An instruction keeps the machine well-formed.
pub proof fn lemma_execute_preserves_wf(s: MachineState, instr: Instruction, random: u8)
    requires
        s.wf(),
        instr.wf(),
    ensures
        s.execute(instr, random) matches Ok(next) ==> next.wf(),
{
    match instr {
        Instruction::ClearScreen => {},
        Instruction::Return => {},
        Instruction::Jump { addr } => {},
        Instruction::Call { addr } => {},
        Instruction::SkipEqImm { x, byte } => {},
        Instruction::SkipNeImm { x, byte } => {},
        Instruction::SkipEqReg { x, y } => {},
        Instruction::LoadImm { x, byte } => {},
        Instruction::AddImm { x, byte } => {},
        Instruction::Move { x, y } => {},
        Instruction::Or { x, y } => {},
        Instruction::And { x, y } => {},
        Instruction::Xor { x, y } => {},
        Instruction::AddReg { x, y } => {},
        Instruction::Sub { x, y } => {},
        Instruction::ShiftRight { x, y } => {},
        Instruction::SubN { x, y } => {},
        Instruction::ShiftLeft { x, y } => {},
        Instruction::SkipNeReg { x, y } => {},
        Instruction::LoadIndex { addr } => {},
        Instruction::JumpOffset { addr } => {},
        Instruction::RandAnd { x, byte } => {},
        Instruction::Draw { x, y, height } => {},
        Instruction::SkipKeyDown { x } => {},
        Instruction::SkipKeyUp { x } => {},
        Instruction::GetDelay { x } => {},
        Instruction::WaitKey { x } => {},
        Instruction::SetDelay { x } => {},
        Instruction::SetSound { x } => {},
        Instruction::AddIndex { x } => {},
        Instruction::FontAddr { x } => {},
        Instruction::Bcd { x } => {},
        Instruction::StoreRegs { x } => {},
        Instruction::LoadRegs { x } => {},
        Instruction::Nop => {},
    }
}

/// Only the random-byte instruction reads the random byte: a cycle that
/// executes any other instruction is the same whatever the byte is.
pub proof fn lemma_random_unread(s: MachineState, random1: u8, random2: u8)
    requires
        !s.draws_random(),
    ensures
        s.cycle(random1) == s.cycle(random2),
{
}

/// The error that the next cycle ends in, or `None` when it succeeds: the
/// instruction cannot be fetched, the stack is empty on a return or full on
/// a call, a sprite, three digits or a run of registers do not lie in memory,
/// or a keypad skip names a key that does not exist.
pub open spec fn failure_of(s: MachineState) -> Option<Chip8Error> {
    if !s.can_fetch() {
        Some(Chip8Error::MemoryOutOfRange)
    } else {
        match decode_spec(s.fetch()) {
            Instruction::Return => if s.stack.len() == 0 {
                Some(Chip8Error::StackUnderflow)
            } else {
                None
            },
            Instruction::Call { .. } => if s.stack.len() >= STACK_DEPTH {
                Some(Chip8Error::StackOverflow)
            } else {
                None
            },
            Instruction::Draw { height, .. } => if height > 0 && s.index + height > MEMORY_SIZE {
                Some(Chip8Error::MemoryOutOfRange)
            } else {
                None
            },
            Instruction::Bcd { .. } => if s.index + 2 >= MEMORY_SIZE {
                Some(Chip8Error::MemoryOutOfRange)
            } else {
                None
            },
            Instruction::StoreRegs { x } | Instruction::LoadRegs { x } => if s.index + x
                >= MEMORY_SIZE {
                Some(Chip8Error::MemoryOutOfRange)
            } else {
                None
            },
            Instruction::SkipKeyDown { x } | Instruction::SkipKeyUp { x } => if s.v(x)
                >= NUM_KEYS {
                Some(Chip8Error::KeyOutOfRange)
            } else {
                None
            },
            _ => None,
        }
    }
}

/// A cycle fails exactly on the machines that `failure_of` names, with the
/// error that it names.
pub proof fn lemma_cycle_failures(s: MachineState, random: u8)
    ensures
        s.cycle(random) is Ok <==> failure_of(s) is None,
        s.cycle(random) matches Err(e) ==> failure_of(s) == Some(e),
{
}

/// Whether a cycle succeeds does not depend on the random byte, and a cycle
/// that fails fails in the same way whatever the byte is.
pub proof fn lemma_failure_ignores_random(s: MachineState, random1: u8, random2: u8)
    ensures
        s.cycle(random1) is Ok <==> s.cycle(random2) is Ok,
        s.cycle(random1) is Err ==> s.cycle(random2) == s.cycle(random1),
{
}

/// Call and return form a round trip: a call from a machine whose stack
/// has room succeeds and jumps to the address, and a return right after it
/// gives back the machine as it was before the call, with the program counter
/// and the depth of the stack that it had.
pub proof fn lemma_call_return(s: MachineState, addr: u16, random: u8)
    requires
        s.wf(),
        s.stack.len() < STACK_DEPTH,
    ensures
        s.execute(Instruction::Call { addr }, random) matches Ok(called) && called.pc == addr
            && called.stack.len() == s.stack.len() + 1 && called.execute(
            Instruction::Return,
            random,
        ) == Ok::<MachineState, Chip8Error>(s),
{
    let called = s.call(addr)->Ok_0;
    assert(called.ret()->Ok_0 =~= s);
}

/// The round trip in whole cycles: when the word at the program counter is a
/// call and the word at its target is a return, two cycles leave the program
/// counter behind the call and the stack as it was.
pub proof fn lemma_call_return_cycles(s: MachineState, addr: u16, random: u8)
    requires
        s.wf(),
        s.can_fetch(),
        s.stack.len() < STACK_DEPTH,
        decode_spec(s.fetch()) == (Instruction::Call { addr }),
        addr + 1 < s.memory.len(),
        decode_spec((MachineState { pc: addr, ..s }).fetch()) == Instruction::Return,
    ensures
        s.cycle(random) is Ok,
        s.cycle(random)->Ok_0.pc == addr,
        s.cycle(random)->Ok_0.cycle(random) is Ok,
        s.cycle(random)->Ok_0.cycle(random)->Ok_0.pc == s.pc + 2,
        s.cycle(random)->Ok_0.cycle(random)->Ok_0.stack == s.stack,
{
}

/// The condition of a skip instruction, or `None` for an instruction that
/// is not a skip or names a key that the keypad does not have.
pub open spec fn skip_condition(s: MachineState, instr: Instruction) -> Option<bool> {
    match instr {
        Instruction::SkipEqImm { x, byte } => Some(s.v(x) == byte),
        Instruction::SkipNeImm { x, byte } => Some(s.v(x) != byte),
        Instruction::SkipEqReg { x, y } => Some(s.v(x) == s.v(y)),
        Instruction::SkipNeReg { x, y } => Some(s.v(x) != s.v(y)),
        Instruction::SkipKeyDown { x } => if s.v(x) < NUM_KEYS {
            Some(s.keys[s.v(x) as int])
        } else {
            None
        },
        Instruction::SkipKeyUp { x } => if s.v(x) < NUM_KEYS {
            Some(!s.keys[s.v(x) as int])
        } else {
            None
        },
        _ => None,
    }
}

/// A skip instruction advances the program counter by four when its
/// condition holds and by two when it does not, and changes nothing else but
/// the timers.
pub proof fn lemma_skip_advance(s: MachineState, random: u8)
    requires
        s.wf(),
        s.can_fetch(),
        skip_condition(s, decode_spec(s.fetch())) is Some,
    ensures
        s.cycle(random) matches Ok(next) && next.pc == s.pc + (if skip_condition(
            s,
            decode_spec(s.fetch()),
        )->Some_0 {
            4int
        } else {
            2int
        }) && next == (MachineState { pc: next.pc, ..s }).tick(),
{
}

/// Timer decay: a cycle whose instruction does not set the delay timer
/// lowers it by exactly one, and leaves it at zero once it is there.
pub proof fn lemma_delay_timer_decay(s: MachineState, random: u8)
    requires
        s.wf(),
        s.cycle(random) is Ok,
        !(decode_spec(s.fetch()) is SetDelay),
    ensures
        s.cycle(random)->Ok_0.delay_timer == if s.delay_timer > 0 {
            s.delay_timer - 1
        } else {
            0
        },
{
}

/// The sound timer decays as the delay timer does.
pub proof fn lemma_sound_timer_decay(s: MachineState, random: u8)
    requires
        s.wf(),
        s.cycle(random) is Ok,
        !(decode_spec(s.fetch()) is SetSound),
    ensures
        s.cycle(random)->Ok_0.sound_timer == if s.sound_timer > 0 {
            s.sound_timer - 1
        } else {
            0
        },
{
}

/// The decay also follows an instruction that sets a timer: after the cycle
/// the timer is one below the value that was set, or zero.
pub proof fn lemma_set_timer_then_decay(s: MachineState, x: u8, random: u8)
    requires
        s.wf(),
        s.can_fetch(),
        x < 16,
    ensures
        decode_spec(s.fetch()) == (Instruction::SetDelay { x }) ==> s.cycle(random) is Ok
            && s.cycle(random)->Ok_0.delay_timer == if s.v(x) > 0 {
            s.v(x) - 1
        } else {
            0
        },
        decode_spec(s.fetch()) == (Instruction::SetSound { x }) ==> s.cycle(random) is Ok
            && s.cycle(random)->Ok_0.sound_timer == if s.v(x) > 0 {
            s.v(x) - 1
        } else {
            0
        },
{
}

/// The machine after one cycle for every byte of `randoms`, each cycle
/// being given its byte, or the first error on the way.
pub open spec fn cycles(s: MachineState, randoms: Seq<u8>) -> Result<MachineState, Chip8Error>
    decreases randoms.len(),
{
    if randoms.len() == 0 {
        Ok(s)
    } else {
        match cycles(s, randoms.drop_last()) {
            Ok(before_last) => before_last.cycle(randoms.last()),
            Err(e) => Err(e),
        }
    }
}

/// Whether none of those cycles executes the instruction that sets the
/// delay timer.
pub open spec fn delay_timer_untouched(s: MachineState, randoms: Seq<u8>) -> bool
    decreases randoms.len(),
{
    randoms.len() == 0 || (delay_timer_untouched(s, randoms.drop_last()) && match cycles(
        s,
        randoms.drop_last(),
    ) {
        Ok(before_last) => !(decode_spec(before_last.fetch()) is SetDelay),
        Err(_) => true,
    })
}

/// Timer decay over any number of cycles: as long as no instruction sets
/// the delay timer, it has gone down by one for every cycle, and once at zero
/// it stays there.
pub proof fn lemma_delay_timer_after_cycles(s: MachineState, randoms: Seq<u8>)
    requires
        s.wf(),
        cycles(s, randoms) is Ok,
        delay_timer_untouched(s, randoms),
    ensures
        cycles(s, randoms)->Ok_0.wf(),
        cycles(s, randoms)->Ok_0.delay_timer == if s.delay_timer >= randoms.len() {
            s.delay_timer - randoms.len()
        } else {
            0
        },
    decreases randoms.len(),
{
    if randoms.len() > 0 {
        lemma_delay_timer_after_cycles(s, randoms.drop_last());
        let before_last = cycles(s, randoms.drop_last())->Ok_0;
        lemma_cycle_preserves_wf(before_last, randoms.last());
        lemma_delay_timer_decay(before_last, randoms.last());
    }
}

} // verus!
