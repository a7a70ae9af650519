use vstd::prelude::*;

use crate::error::Chip9Error;

verus! {

/// Bytes in the address space: addresses are twelve bits wide.
pub const MEMORY_SIZE: usize = 4096;

/// Where a program image is loaded, above the font table.
pub const PROGRAM_START: u16 = 0x200;

/// The bytes available to a program image.
pub const PROGRAM_CAPACITY: usize = 3584;

/// Bytes in the whole font table: sixteen digit sprites.
pub const FONT_SIZE: usize = 80;

/// The sprites of the hexadecimal digits `0` to `F`, five rows each; digit
/// `d` starts at `d * 5`.
pub const FONT: [u8; 80] = [
    0xF0, 0x90, 0x90, 0x90, 0xF0, // 0
    0x20, 0x60, 0x20, 0x20, 0x70, // 1
    0xF0, 0x10, 0xF0, 0x80, 0xF0, // 2
    0xF0, 0x10, 0xF0, 0x10, 0xF0, // 3
    0x90, 0x90, 0xF0, 0x10, 0x10, // 4
    0xF0, 0x80, 0xF0, 0x10, 0xF0, // 5
    0xF0, 0x80, 0xF0, 0x90, 0xF0, // 6
    0xF0, 0x10, 0x20, 0x40, 0x40, // 7
    0xF0, 0x90, 0xF0, 0x90, 0xF0, // 8
    0xF0, 0x90, 0xF0, 0x10, 0xF0, // 9
    0xF0, 0x90, 0xF0, 0x90, 0x90, // A
    0xE0, 0x90, 0xE0, 0x90, 0xE0, // B
    0xF0, 0x80, 0x80, 0x80, 0xF0, // C
    0xE0, 0x90, 0x90, 0x90, 0xE0, // D
    0xF0, 0x80, 0xF0, 0x80, 0xF0, // E
    0xF0, 0x80, 0xF0, 0x80, 0x80, // F
];

/// The address `a` wrapped to twelve bits.
pub open spec fn wrap(a: int) -> int {
    a % 0x1000
}

/// The big-endian word at `a` and the address after it.
pub open spec fn word_at(mem: Seq<u8>, a: int) -> u16 {
    (mem[wrap(a)] * 0x100 + mem[wrap(a + 1)]) as u16
}

/// Memory after a program image of `image.len()` bytes is written at the
/// program start: everything else is kept.
pub open spec fn loaded(mem: Seq<u8>, image: Seq<u8>) -> Seq<u8> {
    mem.subrange(0, PROGRAM_START as int) + image + mem.subrange(
        PROGRAM_START as int + image.len(),
        MEMORY_SIZE as int,
    )
}

/// The address space at power-on: the font table from address 0, zeros above it.
pub open spec fn fresh_memory() -> Seq<u8> {
    Seq::new(MEMORY_SIZE as nat, |i: int| if i < FONT_SIZE { FONT@[i] } else { 0 })
}

/// The flat address space: 4096 bytes, the font table at the bottom.
pub struct Memory {
    data: Vec<u8>,
}

impl View for Memory {
    type V = Seq<u8>;

    closed spec fn view(&self) -> Seq<u8> {
        self.data@
    }
}

impl Memory {
    /// The address space holds exactly 4096 bytes.
    pub open spec fn wf(&self) -> bool {
        self@.len() == MEMORY_SIZE
    }

    /// A fresh address space: the font table from address 0, zeros above it.
    pub fn new() -> (m: Memory)
        ensures
            m.wf(),
            m@ == fresh_memory(),
    {
        let mut data: Vec<u8> = Vec::new();
        let mut i: usize = 0;
        while i < FONT_SIZE
            invariant
                i <= FONT_SIZE,
                data@ == FONT@.subrange(0, i as int),
            decreases FONT_SIZE - i,
        {
            data.push(FONT[i]);
            i += 1;
        }
        while i < MEMORY_SIZE
            invariant
                FONT_SIZE <= i <= MEMORY_SIZE,
                data@.len() == i,
                data@.subrange(0, FONT_SIZE as int) == FONT@,
                forall|j: int| FONT_SIZE <= j < i ==> data@[j] == 0,
            decreases MEMORY_SIZE - i,
        {
            data.push(0);
            i += 1;
            assert(data@.subrange(0, FONT_SIZE as int) =~= FONT@);
        }
        assert(data@ =~= fresh_memory());
        Memory { data }
    }

    /// Writes a program image at the program start. An image longer than the
    /// space above the program start is refused and memory is left as it was.
    pub fn load(&mut self, image: &[u8]) -> (r: Result<(), Chip9Error>)
        requires
            old(self).wf(),
        ensures
            final(self).wf(),
            image@.len() > PROGRAM_CAPACITY ==> r == Err::<(), Chip9Error>(
                Chip9Error::ProgramTooLarge(image@.len() as usize, PROGRAM_CAPACITY),
            ) && final(self)@ == old(self)@,
            image@.len() <= PROGRAM_CAPACITY ==> r is Ok && final(self)@ == loaded(
                old(self)@,
                image@,
            ),
    {
        let len = image.len();
        if len > PROGRAM_CAPACITY {
            return Err(Chip9Error::ProgramTooLarge(len, PROGRAM_CAPACITY));
        }
        let ghost before = self@;
        let start = PROGRAM_START as usize;
        let mut i: usize = 0;
        while i < len
            invariant
                len == image@.len(),
                len <= PROGRAM_CAPACITY,
                start == PROGRAM_START,
                i <= len,
                self@.len() == MEMORY_SIZE,
                forall|j: int|
                    0 <= j < MEMORY_SIZE ==> #[trigger] self@[j] == if start <= j < start + i {
                        image@[j - start]
                    } else {
                        before[j]
                    },
            decreases len - i,
        {
            self.data.set(start + i, image[i]);
            i += 1;
        }
        assert(self@ =~= loaded(before, image@));
        Ok(())
    }

    /// The byte at `addr`, wrapped to twelve bits.
    pub fn read_byte(&self, addr: u16) -> (r: u8)
        requires
            self.wf(),
        ensures
            r == self@[wrap(addr as int)],
    {
        self.data[(addr % 0x1000) as usize]
    }

    /// Writes the byte at `addr`, wrapped to twelve bits.
    pub fn write_byte(&mut self, addr: u16, value: u8)
        requires
            old(self).wf(),
        ensures
            final(self).wf(),
            final(self)@ == old(self)@.update(wrap(addr as int), value),
    {
        self.data.set((addr % 0x1000) as usize, value);
    }

    /// The big-endian instruction word at `addr`.
    pub fn fetch_instruction(&self, addr: u16) -> (r: u16)
        requires
            self.wf(),
        ensures
            r == word_at(self@, addr as int),
    {
        let hi = self.read_byte(addr) as u16;
        let lo = self.read_byte(((addr as u32 + 1) % 0x1000) as u16) as u16;
        hi * 0x100 + lo
    }
}

} // verus!
