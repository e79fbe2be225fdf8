use crate::model::{MachineState, NUM_KEYS};
use vstd::prelude::*;

verus! {

/// A key of the host's keyboard, as far as the emulator tells keys apart:
/// the sixteen keys that stand for the keypad, the two keys that end the
/// emulation, and every other key.
#[derive(Clone, Copy, Debug, PartialEq, Eq, Structural)]
pub enum Key {
    X,
    Num1,
    Num2,
    Num3,
    Q,
    W,
    E,
    A,
    S,
    D,
    Z,
    C,
    Num4,
    R,
    F,
    V,
    Escape,
    CapsLock,
    Other,
}

/// What the host reports between two cycles.
#[derive(Clone, Copy, Debug, PartialEq, Eq, Structural)]
pub enum HostEvent {
    /// The window was closed.
    Quit,
    /// A key went down.
    KeyDown(Key),
    /// A key went up.
    KeyUp(Key),
    /// Anything else.
    Other,
}

/// The key of the keypad that a key of the host's keyboard stands for. The
/// left block of the keyboard is laid over the keypad: `1 2 3 4`, `Q W E R`,
/// `A S D F`, `Z X C V` stand for `1 2 3 C`, `4 5 6 D`, `7 8 9 E`, `A 0 B F`.
pub open spec fn keypad_index_spec(key: Key) -> Option<usize> {
    match key {
        Key::X => Some(0x0usize),
        Key::Num1 => Some(0x1usize),
        Key::Num2 => Some(0x2usize),
        Key::Num3 => Some(0x3usize),
        Key::Q => Some(0x4usize),
        Key::W => Some(0x5usize),
        Key::E => Some(0x6usize),
        Key::A => Some(0x7usize),
        Key::S => Some(0x8usize),
        Key::D => Some(0x9usize),
        Key::Z => Some(0xAusize),
        Key::C => Some(0xBusize),
        Key::Num4 => Some(0xCusize),
        Key::R => Some(0xDusize),
        Key::F => Some(0xEusize),
        Key::V => Some(0xFusize),
        Key::Escape | Key::CapsLock | Key::Other => None,
    }
}

/// Whether an event ends the emulation: the window was closed, or Escape or
/// Caps Lock went down.
pub open spec fn ends_emulation(event: HostEvent) -> bool {
    event == HostEvent::Quit || event == HostEvent::KeyDown(Key::Escape) || event
        == HostEvent::KeyDown(Key::CapsLock)
}

impl MachineState {
    /// The machine after the host reported an event: a key that stands for
    /// a key of the keypad presses it when it goes down and releases it when
    /// it goes up; nothing else changes the machine.
    pub open spec fn after_event(self, event: HostEvent) -> MachineState {
        match event {
            HostEvent::KeyDown(key) => match keypad_index_spec(key) {
                Some(index) => MachineState { keys: self.keys.update(index as int, true), ..self },
                None => self,
            },
            HostEvent::KeyUp(key) => match keypad_index_spec(key) {
                Some(index) => MachineState {
                    keys: self.keys.update(index as int, false),
                    ..self
                },
                None => self,
            },
            _ => self,
        }
    }
}

/// The key of the keypad that a key of the host's keyboard stands for, if any.
pub fn keypad_index(key: Key) -> (index: Option<usize>)
    ensures
        index == keypad_index_spec(key),
        index matches Some(i) ==> i < NUM_KEYS,
{
    match key {
        Key::X => Some(0x0),
        Key::Num1 => Some(0x1),
        Key::Num2 => Some(0x2),
        Key::Num3 => Some(0x3),
        Key::Q => Some(0x4),
        Key::W => Some(0x5),
        Key::E => Some(0x6),
        Key::A => Some(0x7),
        Key::S => Some(0x8),
        Key::D => Some(0x9),
        Key::Z => Some(0xA),
        Key::C => Some(0xB),
        Key::Num4 => Some(0xC),
        Key::R => Some(0xD),
        Key::F => Some(0xE),
        Key::V => Some(0xF),
        Key::Escape | Key::CapsLock | Key::Other => None,
    }
}

} // verus!
