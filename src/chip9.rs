use vstd::prelude::*;

use crate::cpu::{step_spec, CPU};
use crate::display::{Display, DISPLAY_SIZE};
use crate::error::Chip9Error;
use crate::keyboard::{Keyboard, KEY_COUNT};
use crate::memory::{fresh_memory, loaded, PROGRAM_CAPACITY, PROGRAM_START};

verus! {

/// A whole machine: the engine with the display and keypad it works on.
pub struct Chip9 {
    pub cpu: CPU,
    pub display: Display,
    pub keyboard: Keyboard,
}

impl Chip9 {
    /// The engine, the display and the keypad are each well formed.
    pub open spec fn wf(&self) -> bool {
        self.cpu.wf() && self.display.wf() && self.keyboard.wf()
    }

    /// A machine at power-on, with a dark display and no key held.
    pub fn new() -> (c: Chip9)
        ensures
            c.wf(),
            c.cpu@.pc == PROGRAM_START,
            c.cpu@.mem == fresh_memory(),
            forall|p: int| 0 <= p < DISPLAY_SIZE ==> !c.display@[p],
            forall|k: int| 0 <= k < KEY_COUNT ==> !c.keyboard@[k],
    {
        let cpu = CPU::new();
        let display = Display::new();
        let keyboard = Keyboard::new();
        Chip9 { cpu, display, keyboard }
    }

    /// Runs one instruction against the display and the keypad as they stand.
    pub fn tick(&mut self) -> (r: Result<(), Chip9Error>)
        requires
            old(self).wf(),
        ensures
            final(self).wf(),
            final(self).keyboard@ == old(self).keyboard@,
            exists|outside: u8|
                #[trigger] step_spec(
                    old(self).cpu@,
                    old(self).keyboard@,
                    old(self).display@,
                    outside,
                ) == (r, final(self).cpu@, final(self).display@),
    {
        self.cpu.execute(&mut self.display, &self.keyboard)
    }

    /// Writes a program image at the program start; an image longer than the
    /// space above it is refused and nothing changes.
    pub fn load_program(&mut self, program: &[u8]) -> (r: Result<(), Chip9Error>)
        requires
            old(self).wf(),
        ensures
            final(self).wf(),
            final(self).display@ == old(self).display@,
            final(self).keyboard@ == old(self).keyboard@,
            program@.len() > PROGRAM_CAPACITY ==> r == Err::<(), Chip9Error>(
                Chip9Error::ProgramTooLarge(program@.len() as usize, PROGRAM_CAPACITY),
            ) && final(self).cpu@ == old(self).cpu@,
            program@.len() <= PROGRAM_CAPACITY ==> r is Ok && final(self).cpu@.mem == loaded(
                old(self).cpu@.mem,
                program@,
            ) && final(self).cpu@.pc == old(self).cpu@.pc,
    {
        self.cpu.load_program(program)
    }
}

} // verus!
