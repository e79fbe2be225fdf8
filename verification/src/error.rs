use vstd::prelude::*;

verus! {

/// Why the machine could not be built or could not complete a cycle.
#[derive(Clone, Copy, Debug, PartialEq, Eq, Structural)]
pub enum Chip8Error {
    /// The program image does not fit between the load address and the end of memory.
    RomTooLarge,
    /// A return was executed while the call stack was empty.
    StackUnderflow,
    /// A call was executed while the call stack already held sixteen return addresses.
    StackOverflow,
    /// An instruction fetch or a memory-referencing instruction reached past the last byte of memory.
    MemoryOutOfRange,
    /// A keypad instruction named a key that the sixteen-key keypad does not have.
    KeyOutOfRange,
}

} // verus!
