//! An interpreter for the CHIP-8 family of 8-bit fantasy machines: memory,
//! registers, opcode decoding, the execution engine, the shared countdown
//! timers, the decisions of the clock that ticks them, and the display and
//! keypad that the engine reads and writes.

pub mod chip9;
pub mod clock;
pub mod color;
pub mod cpu;
pub mod display;
pub mod error;
pub mod keyboard;
pub mod memory;
pub mod opcode;
pub mod timer;

pub use chip9::Chip9;
pub use clock::{ClockAction, ClockCommand, ClockEvent, ClockState};
pub use color::Color;
pub use cpu::CPU;
pub use display::{Display, DISPLAY_HEIGHT, DISPLAY_WIDTH};
pub use error::Chip9Error;
pub use keyboard::Keyboard;
pub use memory::{Memory, PROGRAM_START};
pub use opcode::OpCode;
pub use timer::Timer;
