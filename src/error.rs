use vstd::prelude::*;

verus! {

/// The failures of the machine: a program image that does not fit in memory,
/// and an instruction word that names no instruction.
#[derive(Clone, Copy, Debug, PartialEq, Eq, Structural)]
pub enum Chip9Error {
    /// The image holds `.0` bytes where only `.1` fit above the program start.
    ProgramTooLarge(usize, usize),
    /// The word fetched at the program counter decodes to no instruction.
    UnrecognizedOpcode(u16),
}

} // verus!
