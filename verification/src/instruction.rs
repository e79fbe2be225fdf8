use vstd::prelude::*;

verus! {

/// One decoded instruction. Register operands are register numbers, `addr` is a
/// twelve-bit address and `byte` an immediate value.
#[derive(Clone, Copy, Debug, PartialEq, Eq, Structural)]
pub enum Instruction {
    ClearScreen,
    Return,
    Jump { addr: u16 },
    Call { addr: u16 },
    SkipEqImm { x: u8, byte: u8 },
    SkipNeImm { x: u8, byte: u8 },
    SkipEqReg { x: u8, y: u8 },
    LoadImm { x: u8, byte: u8 },
    AddImm { x: u8, byte: u8 },
    Move { x: u8, y: u8 },
    Or { x: u8, y: u8 },
    And { x: u8, y: u8 },
    Xor { x: u8, y: u8 },
    AddReg { x: u8, y: u8 },
    Sub { x: u8, y: u8 },
    ShiftRight { x: u8, y: u8 },
    SubN { x: u8, y: u8 },
    ShiftLeft { x: u8, y: u8 },
    SkipNeReg { x: u8, y: u8 },
    LoadIndex { addr: u16 },
    JumpOffset { addr: u16 },
    RandAnd { x: u8, byte: u8 },
    Draw { x: u8, y: u8, height: u8 },
    SkipKeyDown { x: u8 },
    SkipKeyUp { x: u8 },
    GetDelay { x: u8 },
    WaitKey { x: u8 },
    SetDelay { x: u8 },
    SetSound { x: u8 },
    AddIndex { x: u8 },
    FontAddr { x: u8 },
    Bcd { x: u8 },
    StoreRegs { x: u8 },
    LoadRegs { x: u8 },
    /// An instruction word that no handler is assigned to; executing it changes nothing.
    Nop,
}

/// The primary selector: the most significant of the four nibbles.
pub open spec fn family_of(opcode: u16) -> int {
    opcode as int / 0x1000
}

/// The second nibble, the number of register `x`.
pub open spec fn x_of(opcode: u16) -> u8 {
    ((opcode as int / 0x100) % 0x10) as u8
}

/// The third nibble, the number of register `y`.
pub open spec fn y_of(opcode: u16) -> u8 {
    ((opcode as int / 0x10) % 0x10) as u8
}

/// The last nibble.
pub open spec fn low_nibble_of(opcode: u16) -> u8 {
    (opcode as int % 0x10) as u8
}

/// The low byte, an immediate operand.
pub open spec fn byte_of(opcode: u16) -> u8 {
    (opcode as int % 0x100) as u8
}

/// The low twelve bits, an address operand.
pub open spec fn addr_of(opcode: u16) -> u16 {
    (opcode as int % 0x1000) as u16
}

/// Family 0: the last nibble selects clear-screen or return.
pub open spec fn table_0_spec(opcode: u16) -> Instruction {
    let n = low_nibble_of(opcode);
    if n == 0x0 {
        Instruction::ClearScreen
    } else if n == 0xE {
        Instruction::Return
    } else {
        Instruction::Nop
    }
}

/// Family 8: the last nibble selects one of nine register-to-register operations.
pub open spec fn table_8_spec(opcode: u16) -> Instruction {
    let x = x_of(opcode);
    let y = y_of(opcode);
    let n = low_nibble_of(opcode);
    if n == 0x0 {
        Instruction::Move { x, y }
    } else if n == 0x1 {
        Instruction::Or { x, y }
    } else if n == 0x2 {
        Instruction::And { x, y }
    } else if n == 0x3 {
        Instruction::Xor { x, y }
    } else if n == 0x4 {
        Instruction::AddReg { x, y }
    } else if n == 0x5 {
        Instruction::Sub { x, y }
    } else if n == 0x6 {
        Instruction::ShiftRight { x, y }
    } else if n == 0x7 {
        Instruction::SubN { x, y }
    } else if n == 0xE {
        Instruction::ShiftLeft { x, y }
    } else {
        Instruction::Nop
    }
}

/// Family E: the last nibble selects one of the two keypad skips.
pub open spec fn table_E_spec(opcode: u16) -> Instruction {
    let x = x_of(opcode);
    let n = low_nibble_of(opcode);
    if n == 0x1 {
        Instruction::SkipKeyUp { x }
    } else if n == 0xE {
        Instruction::SkipKeyDown { x }
    } else {
        Instruction::Nop
    }
}

/// Family F: the low byte selects one of nine timer, index and memory operations.
pub open spec fn table_F_spec(opcode: u16) -> Instruction {
    let x = x_of(opcode);
    let kk = byte_of(opcode);
    if kk == 0x07 {
        Instruction::GetDelay { x }
    } else if kk == 0x0A {
        Instruction::WaitKey { x }
    } else if kk == 0x15 {
        Instruction::SetDelay { x }
    } else if kk == 0x18 {
        Instruction::SetSound { x }
    } else if kk == 0x1E {
        Instruction::AddIndex { x }
    } else if kk == 0x29 {
        Instruction::FontAddr { x }
    } else if kk == 0x33 {
        Instruction::Bcd { x }
    } else if kk == 0x55 {
        Instruction::StoreRegs { x }
    } else if kk == 0x65 {
        Instruction::LoadRegs { x }
    } else {
        Instruction::Nop
    }
}

/// The instruction that a sixteen-bit word stands for. The first nibble selects
/// the instruction directly, except for families 0, 8, E and F, where a second
/// selector picks it from the family's table. A word with no handler is `Nop`.
pub open spec fn decode_spec(opcode: u16) -> Instruction {
    let family = family_of(opcode);
    let x = x_of(opcode);
    let y = y_of(opcode);
    let byte = byte_of(opcode);
    let addr = addr_of(opcode);
    if family == 0x0 {
        table_0_spec(opcode)
    } else if family == 0x1 {
        Instruction::Jump { addr }
    } else if family == 0x2 {
        Instruction::Call { addr }
    } else if family == 0x3 {
        Instruction::SkipEqImm { x, byte }
    } else if family == 0x4 {
        Instruction::SkipNeImm { x, byte }
    } else if family == 0x5 {
        Instruction::SkipEqReg { x, y }
    } else if family == 0x6 {
        Instruction::LoadImm { x, byte }
    } else if family == 0x7 {
        Instruction::AddImm { x, byte }
    } else if family == 0x8 {
        table_8_spec(opcode)
    } else if family == 0x9 {
        Instruction::SkipNeReg { x, y }
    } else if family == 0xA {
        Instruction::LoadIndex { addr }
    } else if family == 0xB {
        Instruction::JumpOffset { addr }
    } else if family == 0xC {
        Instruction::RandAnd { x, byte }
    } else if family == 0xD {
        Instruction::Draw { x, y, height: low_nibble_of(opcode) }
    } else if family == 0xE {
        table_E_spec(opcode)
    } else {
        table_F_spec(opcode)
    }
}

impl Instruction {
    /// Register numbers and the sprite height are nibbles, addresses have twelve bits.
    pub open spec fn wf(self) -> bool {
        match self {
            Instruction::ClearScreen | Instruction::Return | Instruction::Nop => true,
            Instruction::Jump { addr }
            | Instruction::Call { addr }
            | Instruction::LoadIndex { addr }
            | Instruction::JumpOffset { addr } => addr < 0x1000,
            Instruction::SkipEqImm { x, .. }
            | Instruction::SkipNeImm { x, .. }
            | Instruction::LoadImm { x, .. }
            | Instruction::AddImm { x, .. }
            | Instruction::RandAnd { x, .. }
            | Instruction::SkipKeyDown { x }
            | Instruction::SkipKeyUp { x }
            | Instruction::GetDelay { x }
            | Instruction::WaitKey { x }
            | Instruction::SetDelay { x }
            | Instruction::SetSound { x }
            | Instruction::AddIndex { x }
            | Instruction::FontAddr { x }
            | Instruction::Bcd { x }
            | Instruction::StoreRegs { x }
            | Instruction::LoadRegs { x } => x < 16,
            Instruction::SkipEqReg { x, y }
            | Instruction::Move { x, y }
            | Instruction::Or { x, y }
            | Instruction::And { x, y }
            | Instruction::Xor { x, y }
            | Instruction::AddReg { x, y }
            | Instruction::Sub { x, y }
            | Instruction::ShiftRight { x, y }
            | Instruction::SubN { x, y }
            | Instruction::ShiftLeft { x, y }
            | Instruction::SkipNeReg { x, y } => x < 16 && y < 16,
            Instruction::Draw { x, y, height } => x < 16 && y < 16 && height < 16,
        }
    }
}

/// Every instruction word decodes to a well-formed instruction.
pub proof fn lemma_decode_wf(opcode: u16)
    ensures
        decode_spec(opcode).wf(),
{
}

/// The operand fields of an instruction word, cut out with masks and shifts,
/// are its nibbles, low byte and low twelve bits.
proof fn lemma_fields(opcode: u16)
    ensures
        (opcode >> 12) as int == family_of(opcode),
        (((opcode & 0x0F00) >> 8) as u8) == x_of(opcode),
        (((opcode & 0x00F0) >> 4) as u8) == y_of(opcode),
        ((opcode & 0x000F) as u8) == low_nibble_of(opcode),
        ((opcode & 0x00FF) as u8) == byte_of(opcode),
        (opcode & 0x0FFF) == addr_of(opcode),
{
    assert(opcode >> 12 == opcode / 0x1000) by (bit_vector);
    assert((opcode & 0x0F00) >> 8 == (opcode / 0x100) % 0x10) by (bit_vector);
    assert((opcode & 0x00F0) >> 4 == (opcode / 0x10) % 0x10) by (bit_vector);
    assert(opcode & 0x000F == opcode % 0x10) by (bit_vector);
    assert(opcode & 0x00FF == opcode % 0x100) by (bit_vector);
    assert(opcode & 0x0FFF == opcode % 0x1000) by (bit_vector);
}

fn table_0(opcode: u16) -> (instr: Instruction)
    ensures
        instr == table_0_spec(opcode),
{
    proof {
        lemma_fields(opcode);
    }
    let n: u8 = (opcode & 0x000F) as u8;
    match n {
        0x0 => Instruction::ClearScreen,
        0xE => Instruction::Return,
        _ => Instruction::Nop,
    }
}

fn table_8(opcode: u16) -> (instr: Instruction)
    ensures
        instr == table_8_spec(opcode),
{
    proof {
        lemma_fields(opcode);
    }
    let x: u8 = ((opcode & 0x0F00) >> 8) as u8;
    let y: u8 = ((opcode & 0x00F0) >> 4) as u8;
    let n: u8 = (opcode & 0x000F) as u8;
    match n {
        0x0 => Instruction::Move { x, y },
        0x1 => Instruction::Or { x, y },
        0x2 => Instruction::And { x, y },
        0x3 => Instruction::Xor { x, y },
        0x4 => Instruction::AddReg { x, y },
        0x5 => Instruction::Sub { x, y },
        0x6 => Instruction::ShiftRight { x, y },
        0x7 => Instruction::SubN { x, y },
        0xE => Instruction::ShiftLeft { x, y },
        _ => Instruction::Nop,
    }
}

fn table_E(opcode: u16) -> (instr: Instruction)
    ensures
        instr == table_E_spec(opcode),
{
    proof {
        lemma_fields(opcode);
    }
    let x: u8 = ((opcode & 0x0F00) >> 8) as u8;
    let n: u8 = (opcode & 0x000F) as u8;
    match n {
        0x1 => Instruction::SkipKeyUp { x },
        0xE => Instruction::SkipKeyDown { x },
        _ => Instruction::Nop,
    }
}

fn table_F(opcode: u16) -> (instr: Instruction)
    ensures
        instr == table_F_spec(opcode),
{
    proof {
        lemma_fields(opcode);
    }
    let x: u8 = ((opcode & 0x0F00) >> 8) as u8;
    let kk: u8 = (opcode & 0x00FF) as u8;
    match kk {
        0x07 => Instruction::GetDelay { x },
        0x0A => Instruction::WaitKey { x },
        0x15 => Instruction::SetDelay { x },
        0x18 => Instruction::SetSound { x },
        0x1E => Instruction::AddIndex { x },
        0x29 => Instruction::FontAddr { x },
        0x33 => Instruction::Bcd { x },
        0x55 => Instruction::StoreRegs { x },
        0x65 => Instruction::LoadRegs { x },
        _ => Instruction::Nop,
    }
}

/// Decodes an instruction word.
pub fn decode(opcode: u16) -> (instr: Instruction)
    ensures
        instr == decode_spec(opcode),
        instr.wf(),
{
    proof {
        lemma_fields(opcode);
    }
    let x: u8 = ((opcode & 0x0F00) >> 8) as u8;
    let y: u8 = ((opcode & 0x00F0) >> 4) as u8;
    let n: u8 = (opcode & 0x000F) as u8;
    let byte: u8 = (opcode & 0x00FF) as u8;
    let addr: u16 = opcode & 0x0FFF;
    match opcode >> 12 {
        0x0 => table_0(opcode),
        0x1 => Instruction::Jump { addr },
        0x2 => Instruction::Call { addr },
        0x3 => Instruction::SkipEqImm { x, byte },
        0x4 => Instruction::SkipNeImm { x, byte },
        0x5 => Instruction::SkipEqReg { x, y },
        0x6 => Instruction::LoadImm { x, byte },
        0x7 => Instruction::AddImm { x, byte },
        0x8 => table_8(opcode),
        0x9 => Instruction::SkipNeReg { x, y },
        0xA => Instruction::LoadIndex { addr },
        0xB => Instruction::JumpOffset { addr },
        0xC => Instruction::RandAnd { x, byte },
        0xD => Instruction::Draw { x, y, height: n },
        0xE => table_E(opcode),
        _ => table_F(opcode),
    }
}

} // verus!
