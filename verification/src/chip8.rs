use crate::error::Chip8Error;
use crate::input::{ends_emulation, keypad_index, HostEvent, Key};
use crate::instruction::Instruction;
use crate::laws::lemma_failure_ignores_random;
use crate::machine::Machine;
use crate::model::{MachineState, MAX_ROM_SIZE, NUM_KEYS};
use crate::rng::{random_word, thread_rng};
use rand::rngs::ThreadRng;
use vstd::prelude::*;

verus! {

/// The emulator: the machine together with the random source that the
/// random-byte instruction draws from.
pub struct Chip8 {
    machine: Machine,
    rng: ThreadRng,
}

impl View for Chip8 {
    type V = MachineState;

    closed spec fn view(&self) -> MachineState {
        self.machine@
    }
}

impl Chip8 {
    /// Builds the emulator for a program image, which is loaded at the load
    /// address. An image that does not fit in memory is refused.
    pub fn new(rom: &[u8]) -> (made: Result<Chip8, Chip8Error>)
        ensures
            rom@.len() > MAX_ROM_SIZE ==> made == Err::<Chip8, Chip8Error>(
                Chip8Error::RomTooLarge,
            ),
            rom@.len() <= MAX_ROM_SIZE ==> made is Ok && made->Ok_0@ == MachineState::initial(
                rom@,
            ),
            made is Ok ==> made->Ok_0@.wf(),
    {
        match Machine::new(rom) {
            Ok(machine) => Ok(Chip8 { machine, rng: thread_rng() }),
            Err(e) => Err(e),
        }
    }

    /// Executes one cycle. A random byte is drawn only when the instruction
    /// at the program counter is the random-byte instruction, and the cycle
    /// is the machine's cycle with that byte; which byte was drawn is not
    /// known. No other instruction reads the byte, and whether the cycle
    /// succeeds does not depend on it. A cycle that fails leaves the machine
    /// as it was.
    pub fn cycle(&mut self) -> (result: Result<(), Chip8Error>)
        ensures
            exists|random: u8| #[trigger]
                old(self)@.cycle_outcome(random, final(self)@, result),
            !old(self)@.draws_random() ==> old(self)@.cycle_outcome(0, final(self)@, result),
            result is Ok <==> old(self)@.cycle(0) is Ok,
            final(self)@.wf(),
    {
        let random: u8 = match self.machine.next_instruction() {
            Some(Instruction::RandAnd { .. }) => random_word(&mut self.rng) as u8,
            _ => 0,
        };
        let result = self.machine.cycle(random);
        proof {
            assert(old(self)@.cycle_outcome(random, self@, result));
            lemma_failure_ignores_random(old(self)@, random, 0);
        }
        result
    }

    /// The machine, for reading its state.
    pub fn machine(&self) -> (machine: &Machine)
        ensures
            machine@ == self@,
    {
        &self.machine
    }

    /// Presses or releases a key of the keypad. A key that the keypad does
    /// not have is refused.
    pub fn set_key(&mut self, key: usize, pressed: bool) -> (result: Result<(), Chip8Error>)
        ensures
            key < NUM_KEYS ==> result is Ok && final(self)@ == (MachineState {
                keys: old(self)@.keys.update(key as int, pressed),
                ..old(self)@
            }),
            key >= NUM_KEYS ==> result == Err::<(), Chip8Error>(Chip8Error::KeyOutOfRange)
                && final(self)@ == old(self)@,
            final(self)@.wf(),
    {
        self.machine.set_key(key, pressed)
    }

    /// Takes in one event of the host. Key events reach the keypad through
    /// the keyboard layout. The result tells whether the emulation goes on:
    /// it ends when the window is closed or Escape or Caps Lock goes down.
    pub fn handle_event(&mut self, event: HostEvent) -> (running: bool)
        ensures
            running == !ends_emulation(event),
            final(self)@ == old(self)@.after_event(event),
            final(self)@.wf(),
    {
        proof {
            use_type_invariant(&self.machine);
            self.machine.lemma_inv_wf();
        }
        match event {
            HostEvent::Quit | HostEvent::KeyDown(Key::Escape) | HostEvent::KeyDown(
                Key::CapsLock,
            ) => false,
            HostEvent::KeyDown(key) => {
                match keypad_index(key) {
                    Some(index) => {
                        let _ = self.machine.set_key(index, true);
                    },
                    None => {},
                }
                true
            },
            HostEvent::KeyUp(key) => {
                match keypad_index(key) {
                    Some(index) => {
                        let _ = self.machine.set_key(index, false);
                    },
                    None => {},
                }
                true
            },
            HostEvent::Other => true,
        }
    }
}

} // verus!
