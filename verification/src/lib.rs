//! A CHIP-8 virtual machine: machine state, instruction decoding and the
//! per-cycle interpreter, with every operation specified over a mathematical
//! model of the machine and proved against it.
#![allow(non_snake_case)]

pub mod chip8;
pub mod clock;
pub mod display;
pub mod error;
pub mod font;
pub mod input;
pub mod instruction;
pub mod laws;
pub mod machine;
pub mod model;
mod rng;
pub mod sprite;

pub use chip8::Chip8;
pub use clock::{cycle_due, elapsed_or_none, now};
pub use display::{render_tiles, tile_color, Tile};
pub use error::Chip8Error;
pub use input::{keypad_index, HostEvent, Key};
pub use instruction::{decode, Instruction};
pub use machine::Machine;
pub use model::MachineState;
