use vstd::prelude::*;

use std::sync::Arc;

use crate::display::{collides, drawn, Display, DISPLAY_SIZE};
use crate::error::Chip9Error;
use crate::keyboard::{first_pressed, key_down, Keyboard};
use crate::memory::{fresh_memory, loaded, word_at, wrap, Memory, PROGRAM_CAPACITY, PROGRAM_START};
use crate::opcode::{decode_result, decode_spec, OpCode};
use crate::timer::Timer;

verus! {

/// General registers `V0` to `VF`.
pub const REGISTER_COUNT: usize = 16;

/// The register that carries carry, borrow, shifted-out bit and collision.
pub const FLAG: usize = 15;

/// Return addresses the stack holds. The stack pointer wraps around it: a
/// call seventeen deep overwrites the oldest return address, and a return
/// with no call pending jumps to whatever address the slot holds. Neither
/// touches memory or any other state.
pub const STACK_DEPTH: usize = 16;

/// The state of the engine that instructions read and write: the register
/// file, the index register, program counter, stack pointer, return stack and
/// memory. The two timers are shared with the clock and are not part of it.
pub struct Machine {
    pub regs: Seq<u8>,
    pub idx: u16,
    pub pc: u16,
    pub sp: u8,
    pub stack: Seq<u16>,
    pub mem: Seq<u8>,
}

/// Sixteen registers, twelve-bit addresses, a stack pointer inside the stack
/// and a full address space.
pub open spec fn machine_wf(m: Machine) -> bool {
    &&& m.regs.len() == REGISTER_COUNT
    &&& m.idx < 0x1000
    &&& m.pc < 0x1000
    &&& m.sp < STACK_DEPTH
    &&& m.stack.len() == STACK_DEPTH
    &&& forall|i: int| 0 <= i < STACK_DEPTH ==> #[trigger] m.stack[i] < 0x1000
    &&& m.mem.len() == 0x1000
}

/// The address two bytes further on, wrapped to twelve bits.
pub open spec fn next(a: u16) -> u16 {
    wrap(a + 2) as u16
}

/// The machine once the instruction at the program counter has been read
/// and the counter moved past it.
pub open spec fn fetched(m: Machine) -> Machine {
    Machine { pc: next(m.pc), ..m }
}

/// Register `i` set to `v`.
pub open spec fn with_reg(m: Machine, i: int, v: u8) -> Machine {
    Machine { regs: m.regs.update(i, v), ..m }
}

/// The flag register set to `flag`, then register `x` to `v`.
pub open spec fn with_flag_then(m: Machine, x: u8, flag: u8, v: u8) -> Machine {
    with_reg(with_reg(m, FLAG as int, flag), x as int, v)
}

/// The next instruction skipped where `cond` holds.
pub open spec fn skip_if(m: Machine, cond: bool) -> Machine {
    if cond {
        Machine { pc: next(m.pc), ..m }
    } else {
        m
    }
}

/// The `n` bytes from the index register on, wrapping.
pub open spec fn sprite_at(m: Machine, n: u8) -> Seq<u8> {
    Seq::new(n as nat, |k: int| m.mem[wrap(m.idx + k)])
}

/// Registers `0..=x` written to memory from the index register on, and the
/// index register moved past them.
pub open spec fn store_regs_spec(m: Machine, x: u8) -> Machine {
    Machine {
        mem: Seq::new(
            m.mem.len(),
            |a: int|
                if wrap(a - m.idx + 0x1000) <= x {
                    m.regs[wrap(a - m.idx + 0x1000)]
                } else {
                    m.mem[a]
                },
        ),
        idx: wrap(m.idx + x + 1) as u16,
        ..m
    }
}

/// Registers `0..=x` read from memory from the index register on, and the
/// index register moved past them.
pub open spec fn load_regs_spec(m: Machine, x: u8) -> Machine {
    Machine {
        regs: Seq::new(
            m.regs.len(),
            |i: int|
                if i <= x {
                    m.mem[wrap(m.idx + i)]
                } else {
                    m.regs[i]
                },
        ),
        idx: wrap(m.idx + x + 1) as u16,
        ..m
    }
}

/// The hundreds, tens and ones of register `x` written from the index register on.
pub open spec fn bcd_spec(m: Machine, x: u8) -> Machine {
    let v = m.regs[x as int];
    Machine {
        mem: m.mem.update(wrap(m.idx as int), v / 100).update(
            wrap(m.idx + 1),
            ((v % 100) / 10) as u8,
        ).update(wrap(m.idx + 2), v % 10),
        ..m
    }
}

/// What one instruction does to the machine and the grid, the program counter
/// already moved past it. `keys` is the pressed state of the keypad. `outside`
/// is the one value that comes from outside the machine: the random byte of
/// `RandomByte` and the delay timer's reading for `LoadDelay`; no other
/// instruction reads it.
pub open spec fn exec_op(m: Machine, op: OpCode, keys: Seq<bool>, grid: Seq<bool>, outside: u8) -> (
    Machine,
    Seq<bool>,
) {
    let r = m.regs;
    match op {
        OpCode::NoOp => (m, grid),
        OpCode::ClearScreen => (m, Seq::new(DISPLAY_SIZE as nat, |p: int| false)),
        OpCode::Return => (
            Machine { pc: m.stack[m.sp as int], sp: ((m.sp + STACK_DEPTH - 1) % STACK_DEPTH as int) as u8, ..m },
            grid,
        ),
        OpCode::Jump(a) => (Machine { pc: a, ..m }, grid),
        OpCode::Call(a) => {
            let sp = ((m.sp + 1) % STACK_DEPTH as int) as u8;
            (Machine { pc: a, sp, stack: m.stack.update(sp as int, m.pc), ..m }, grid)
        },
        OpCode::SkipEqualByte(x, kk) => (skip_if(m, r[x as int] == kk), grid),
        OpCode::SkipNotEqualByte(x, kk) => (skip_if(m, r[x as int] != kk), grid),
        OpCode::SkipEqualReg(x, y) => (skip_if(m, r[x as int] == r[y as int]), grid),
        OpCode::LoadByte(x, kk) => (with_reg(m, x as int, kk), grid),
        OpCode::AddByte(x, kk) => (with_reg(m, x as int, ((r[x as int] + kk) % 0x100) as u8), grid),
        OpCode::LoadReg(x, y) => (with_reg(m, x as int, r[y as int]), grid),
        OpCode::OrReg(x, y) => (with_reg(m, x as int, r[x as int] | r[y as int]), grid),
        OpCode::AndReg(x, y) => (with_reg(m, x as int, r[x as int] & r[y as int]), grid),
        OpCode::XorReg(x, y) => (with_reg(m, x as int, r[x as int] ^ r[y as int]), grid),
        OpCode::AddReg(x, y) => {
            let sum = r[x as int] + r[y as int];
            (with_flag_then(m, x, if sum > 0xFF { 1 } else { 0 }, (sum % 0x100) as u8), grid)
        },
        OpCode::SubReg(x, y) => (
            with_flag_then(
                m,
                x,
                if r[x as int] >= r[y as int] { 1 } else { 0 },
                ((r[x as int] - r[y as int] + 0x100) % 0x100) as u8,
            ),
            grid,
        ),
        OpCode::ShiftRight(x, _) => (
            with_flag_then(m, x, r[x as int] % 2, r[x as int] / 2),
            grid,
        ),
        OpCode::SubNot(x, y) => (
            with_flag_then(
                m,
                x,
                if r[y as int] >= r[x as int] { 1 } else { 0 },
                ((r[y as int] - r[x as int] + 0x100) % 0x100) as u8,
            ),
            grid,
        ),
        OpCode::ShiftLeft(x, _) => (
            with_flag_then(m, x, r[x as int] / 0x80, ((r[x as int] * 2) % 0x100) as u8),
            grid,
        ),
        OpCode::SkipNotEqualReg(x, y) => (skip_if(m, r[x as int] != r[y as int]), grid),
        OpCode::LoadIndex(a) => (Machine { idx: a, ..m }, grid),
        OpCode::JumpV0(a) => (Machine { pc: wrap(a + r[0]) as u16, ..m }, grid),
        OpCode::RandomByte(x, kk) => (with_reg(m, x as int, kk & outside), grid),
        OpCode::Draw(x, y, n) => {
            let sprite = sprite_at(m, n);
            let hit = collides(grid, sprite, r[x as int] as int, r[y as int] as int, n as int);
            (
                with_reg(m, FLAG as int, if hit { 1 } else { 0 }),
                drawn(grid, sprite, r[x as int] as int, r[y as int] as int),
            )
        },
        OpCode::SkipKeyPressed(x) => (skip_if(m, key_down(keys, r[x as int] as int)), grid),
        OpCode::SkipKeyNotPressed(x) => (skip_if(m, !key_down(keys, r[x as int] as int)), grid),
        OpCode::LoadDelay(x) => (with_reg(m, x as int, outside), grid),
        OpCode::WaitKey(x) => match first_pressed(keys) {
            Some(k) => (with_reg(m, x as int, k), grid),
            None => (Machine { pc: wrap(m.pc + 0x1000 - 2) as u16, ..m }, grid),
        },
        OpCode::SetDelay(_) => (m, grid),
        OpCode::SetSound(_) => (m, grid),
        OpCode::AddToIndex(x) => (Machine { idx: wrap(m.idx + r[x as int]) as u16, ..m }, grid),
        OpCode::LoadFont(x) => (Machine { idx: (5 * r[x as int]) as u16, ..m }, grid),
        OpCode::LoadBCD(x) => (bcd_spec(m, x), grid),
        OpCode::StoreRegs(x) => (store_regs_spec(m, x), grid),
        OpCode::LoadRegs(x) => (load_regs_spec(m, x), grid),
    }
}

/// One fetch-decode-execute cycle: the result, the machine and the grid
/// afterwards. A word that decodes to nothing leaves everything but the moved
/// program counter as it was.
pub open spec fn step_spec(m: Machine, keys: Seq<bool>, grid: Seq<bool>, outside: u8) -> (
    Result<(), Chip9Error>,
    Machine,
    Seq<bool>,
) {
    let w = word_at(m.mem, m.pc as int);
    match decode_spec(w) {
        None => (Err(Chip9Error::UnrecognizedOpcode(w)), fetched(m), grid),
        Some(op) => {
            let (m2, g2) = exec_op(fetched(m), op, keys, grid, outside);
            (Ok(()), m2, g2)
        },
    }
}

/// Storing registers `0..=x` and loading them back from the same index gives
/// the stored values back, leaves the registers above `x` alone, and moves the
/// index register by `x + 1` both times; whatever ran in between, as long as
/// it left memory and the index register as the store did and as it was.
pub proof fn lemma_store_load_regs(
    m: Machine,
    between: Machine,
    x: u8,
    keys: Seq<bool>,
    grid: Seq<bool>,
    outside: u8,
)
    requires
        machine_wf(m),
        machine_wf(between),
        x < REGISTER_COUNT,
        between.mem == exec_op(m, OpCode::StoreRegs(x), keys, grid, outside).0.mem,
        between.idx == m.idx,
    ensures
        exec_op(m, OpCode::StoreRegs(x), keys, grid, outside).0.idx == wrap(m.idx + x + 1),
        exec_op(between, OpCode::LoadRegs(x), keys, grid, outside).0.idx == wrap(m.idx + x + 1),
        forall|i: int|
            0 <= i <= x ==> #[trigger] exec_op(
                between,
                OpCode::LoadRegs(x),
                keys,
                grid,
                outside,
            ).0.regs[i] == m.regs[i],
        forall|i: int|
            x < i < REGISTER_COUNT ==> #[trigger] exec_op(
                between,
                OpCode::LoadRegs(x),
                keys,
                grid,
                outside,
            ).0.regs[i] == between.regs[i],
{
    let stored = exec_op(m, OpCode::StoreRegs(x), keys, grid, outside).0;
    assert(stored == store_regs_spec(m, x));
    let back = exec_op(between, OpCode::LoadRegs(x), keys, grid, outside).0;
    assert(back == load_regs_spec(between, x));
    assert forall|i: int| 0 <= i <= x implies #[trigger] back.regs[i] == m.regs[i] by {
        lemma_wrap_offset(m.idx as int, i);
    }
}

/// An address `i` bytes past `idx`, wrapped, lies `i` bytes past it.
proof fn lemma_wrap_offset(idx: int, i: int)
    requires
        0 <= idx < 0x1000,
        0 <= i < REGISTER_COUNT,
    ensures
        wrap(wrap(idx + i) - idx + 0x1000) == i,
{
}

/// An instruction that waits for a key, with no key held, leaves the machine
/// exactly as it was, so the same instruction is fetched next; with a key
/// held, the lowest one is loaded into its register and the program counter
/// moves on past it.
pub proof fn lemma_wait_key(m: Machine, x: u8, keys: Seq<bool>, grid: Seq<bool>, outside: u8)
    requires
        machine_wf(m),
        decode_spec(word_at(m.mem, m.pc as int)) == Some(OpCode::WaitKey(x)),
    ensures
        first_pressed(keys) is None ==> step_spec(m, keys, grid, outside) == (
            Ok::<(), Chip9Error>(()),
            m,
            grid,
        ),
        first_pressed(keys) matches Some(k) ==> step_spec(m, keys, grid, outside) == (
            Ok::<(), Chip9Error>(()),
            with_reg(fetched(m), x as int, k),
            grid,
        ),
{
    let f = fetched(m);
    let e = exec_op(f, OpCode::WaitKey(x), keys, grid, outside);
    assert(step_spec(m, keys, grid, outside) == (Ok::<(), Chip9Error>(()), e.0, e.1));
    lemma_wait_key_op(f, x, keys, grid, outside);
    if first_pressed(keys) is None {
        lemma_rewind(m.pc);
        assert(e.0 == m);
    }
}

/// What the instruction that waits for a key does once fetched.
proof fn lemma_wait_key_op(f: Machine, x: u8, keys: Seq<bool>, grid: Seq<bool>, outside: u8)
    ensures
        exec_op(f, OpCode::WaitKey(x), keys, grid, outside).1 == grid,
        first_pressed(keys) is None ==> exec_op(f, OpCode::WaitKey(x), keys, grid, outside).0 == (
        Machine { pc: wrap(f.pc + 0x1000 - 2) as u16, ..f }),
        first_pressed(keys) matches Some(k) ==> exec_op(f, OpCode::WaitKey(x), keys, grid, outside).0
            == with_reg(f, x as int, k),
{
}

/// Moving the program counter on by two and back by two gives it back.
proof fn lemma_rewind(pc: u16)
    requires
        pc < 0x1000,
    ensures
        wrap(next(pc) + 0x1000 - 2) == pc,
{
}

/// Relies on `rand::random`: a byte drawn from the thread-local generator.
/// Nothing is known of which byte.
#[verifier::external_body]
fn random_byte() -> (r: u8) {
    rand::random::<u8>()
}

/// The execution engine: registers, memory, the return stack and handles on
/// the delay and sound timers, which a clock ticks from another thread.
pub struct CPU {
    regs: Vec<u8>,
    idx: u16,
    dt: Arc<Timer>,
    st: Arc<Timer>,
    pc: u16,
    sp: u8,
    stack: Vec<u16>,
    mem: Memory,
}

impl View for CPU {
    type V = Machine;

    closed spec fn view(&self) -> Machine {
        Machine {
            regs: self.regs@,
            idx: self.idx,
            pc: self.pc,
            sp: self.sp,
            stack: self.stack@,
            mem: self.mem@,
        }
    }
}

impl CPU {
    /// The machine state is well formed.
    pub open spec fn wf(&self) -> bool {
        machine_wf(self@)
    }

    /// A machine at power-on: registers, index, stack and stack pointer at
    /// zero, the program counter at the program start, the font table loaded
    /// and both timers at zero.
    pub fn new() -> (c: CPU)
        ensures
            c.wf(),
            forall|i: int| 0 <= i < REGISTER_COUNT ==> #[trigger] c@.regs[i] == 0,
            c@.idx == 0,
            c@.pc == PROGRAM_START,
            c@.sp == 0,
            forall|i: int| 0 <= i < STACK_DEPTH ==> #[trigger] c@.stack[i] == 0,
            c@.mem == fresh_memory(),
    {
        let mut regs: Vec<u8> = Vec::new();
        let mut stack: Vec<u16> = Vec::new();
        let mut i: usize = 0;
        while i < REGISTER_COUNT
            invariant
                i <= REGISTER_COUNT,
                regs@.len() == i,
                stack@.len() == i,
                forall|j: int| 0 <= j < i ==> regs@[j] == 0 && stack@[j] == 0,
            decreases REGISTER_COUNT - i,
        {
            regs.push(0);
            stack.push(0);
            i += 1;
        }
        let mem = Memory::new();
        let dt = Arc::new(Timer::new());
        let st = Arc::new(Timer::new());
        CPU { regs, idx: 0, dt, st, pc: PROGRAM_START, sp: 0, stack, mem }
    }

    /// Writes a program image at the program start; an image longer than the
    /// space above it is refused and nothing changes.
    pub fn load_program(&mut self, program: &[u8]) -> (r: Result<(), Chip9Error>)
        requires
            old(self).wf(),
        ensures
            final(self).wf(),
            program@.len() > PROGRAM_CAPACITY ==> r == Err::<(), Chip9Error>(
                Chip9Error::ProgramTooLarge(program@.len() as usize, PROGRAM_CAPACITY),
            ) && final(self)@ == old(self)@,
            program@.len() <= PROGRAM_CAPACITY ==> r is Ok && final(self)@ == (Machine {
                mem: loaded(old(self)@.mem, program@),
                ..old(self)@
            }),
    {
        let r = self.mem.load(program);
        proof {
            if program@.len() <= PROGRAM_CAPACITY {
                assert(self@.mem =~= loaded(old(self)@.mem, program@));
            }
        }
        r
    }

    /// General register `i`.
    pub fn register(&self, i: usize) -> (r: u8)
        requires
            self.wf(),
            i < REGISTER_COUNT,
        ensures
            r == self@.regs[i as int],
    {
        self.regs[i]
    }

    /// The index register.
    pub fn index(&self) -> (r: u16)
        ensures
            r == self@.idx,
    {
        self.idx
    }

    /// The program counter.
    pub fn program_counter(&self) -> (r: u16)
        ensures
            r == self@.pc,
    {
        self.pc
    }

    /// The stack pointer.
    pub fn stack_pointer(&self) -> (r: u8)
        ensures
            r == self@.sp,
    {
        self.sp
    }

    /// The address space.
    pub fn memory(&self) -> (r: &Memory)
        ensures
            r@ == self@.mem,
    {
        &self.mem
    }

    /// The sound timer's current value; the clock may change it at any time.
    pub fn sound_timer(&self) -> (r: u8) {
        self.st.get()
    }

    /// The delay timer's current value; the clock may change it at any time.
    pub fn delay_timer(&self) -> (r: u8) {
        self.dt.get()
    }

    /// Shared handles on the delay and the sound timer, for the clock that ticks them.
    pub fn timers(&self) -> (r: (Arc<Timer>, Arc<Timer>)) {
        (self.dt.clone(), self.st.clone())
    }

    /// Reads the instruction word at the program counter, moves the counter
    /// past it and decodes it.
    fn fetch(&mut self) -> (r: Result<OpCode, Chip9Error>)
        requires
            old(self).wf(),
        ensures
            final(self).wf(),
            final(self)@ == fetched(old(self)@),
            r == decode_result(word_at(old(self)@.mem, old(self)@.pc as int)),
            r matches Ok(op) ==> op.wf(),
    {
        let instruction = self.mem.fetch_instruction(self.pc);
        self.pc = (self.pc + 2) % 0x1000;
        OpCode::decode(instruction)
    }

    /// Sets register `x` to `v`.
    fn set_reg(&mut self, x: u8, v: u8)
        requires
            old(self).wf(),
            x < REGISTER_COUNT,
        ensures
            final(self).wf(),
            final(self)@ == with_reg(old(self)@, x as int, v),
    {
        self.regs.set(x as usize, v);
    }

    /// Skips the next instruction where `cond` holds.
    fn skip_next_if(&mut self, cond: bool)
        requires
            old(self).wf(),
        ensures
            final(self).wf(),
            final(self)@ == skip_if(old(self)@, cond),
    {
        if cond {
            self.pc = (self.pc + 2) % 0x1000;
        }
    }

    /// `00EE`: returns to the address on top of the stack.
    fn return_subroutine(&mut self)
        requires
            old(self).wf(),
        ensures
            final(self).wf(),
            final(self)@ == exec_op(old(self)@, OpCode::Return, Seq::empty(), Seq::empty(), 0).0,
    {
        self.pc = self.stack[self.sp as usize];
        self.sp = (self.sp + 15) % 16;
    }

    /// `2nnn`: pushes the program counter and jumps to `addr`.
    fn call_addr(&mut self, addr: u16)
        requires
            old(self).wf(),
            addr < 0x1000,
        ensures
            final(self).wf(),
            final(self)@ == exec_op(old(self)@, OpCode::Call(addr), Seq::empty(), Seq::empty(), 0).0,
    {
        self.sp = (self.sp + 1) % 16;
        self.stack.set(self.sp as usize, self.pc);
        self.pc = addr;
    }

    /// `8xy4`: adds `Vy` to `Vx`, the flag set to the carry.
    fn add_reg(&mut self, x: u8, y: u8)
        requires
            old(self).wf(),
            x < REGISTER_COUNT,
            y < REGISTER_COUNT,
        ensures
            final(self).wf(),
            final(self)@ == exec_op(old(self)@, OpCode::AddReg(x, y), Seq::empty(), Seq::empty(), 0).0,
    {
        let sum = self.regs[x as usize] as u16 + self.regs[y as usize] as u16;
        self.set_reg(FLAG as u8, if sum > 0xFF { 1 } else { 0 });
        self.set_reg(x, (sum % 0x100) as u8);
    }

    /// `8xy5`: subtracts `Vy` from `Vx`, the flag set where no borrow was needed.
    fn sub_reg(&mut self, x: u8, y: u8)
        requires
            old(self).wf(),
            x < REGISTER_COUNT,
            y < REGISTER_COUNT,
        ensures
            final(self).wf(),
            final(self)@ == exec_op(old(self)@, OpCode::SubReg(x, y), Seq::empty(), Seq::empty(), 0).0,
    {
        let a = self.regs[x as usize];
        let b = self.regs[y as usize];
        self.set_reg(FLAG as u8, if a >= b { 1 } else { 0 });
        self.set_reg(x, ((a as u16 + 0x100 - b as u16) % 0x100) as u8);
    }

    /// `8xy7`: sets `Vx` to `Vy - Vx`, the flag set where no borrow was needed.
    fn subn_reg(&mut self, x: u8, y: u8)
        requires
            old(self).wf(),
            x < REGISTER_COUNT,
            y < REGISTER_COUNT,
        ensures
            final(self).wf(),
            final(self)@ == exec_op(old(self)@, OpCode::SubNot(x, y), Seq::empty(), Seq::empty(), 0).0,
    {
        let a = self.regs[x as usize];
        let b = self.regs[y as usize];
        self.set_reg(FLAG as u8, if b >= a { 1 } else { 0 });
        self.set_reg(x, ((b as u16 + 0x100 - a as u16) % 0x100) as u8);
    }

    /// `8xy6`: shifts `Vx` right by one, the flag set to the bit shifted out.
    fn shr_reg(&mut self, x: u8, y: u8)
        requires
            old(self).wf(),
            x < REGISTER_COUNT,
        ensures
            final(self).wf(),
            final(self)@ == exec_op(old(self)@, OpCode::ShiftRight(x, y), Seq::empty(), Seq::empty(), 0).0,
    {
        let v = self.regs[x as usize];
        self.set_reg(FLAG as u8, v % 2);
        self.set_reg(x, v / 2);
    }

    /// `8xyE`: shifts `Vx` left by one, the flag set to the bit shifted out.
    fn shl_reg(&mut self, x: u8, y: u8)
        requires
            old(self).wf(),
            x < REGISTER_COUNT,
        ensures
            final(self).wf(),
            final(self)@ == exec_op(old(self)@, OpCode::ShiftLeft(x, y), Seq::empty(), Seq::empty(), 0).0,
    {
        let v = self.regs[x as usize];
        self.set_reg(FLAG as u8, v / 0x80);
        self.set_reg(x, ((v as u16 * 2) % 0x100) as u8);
    }

    /// `Dxyn`: XORs the `n`-byte sprite at the index register onto the display
    /// at `(Vx, Vy)`, the flag set where a lit pixel was put out.
    fn draw(&mut self, x: u8, y: u8, n: u8, display: &mut Display)
        requires
            old(self).wf(),
            old(display).wf(),
            x < REGISTER_COUNT,
            y < REGISTER_COUNT,
            n < 0x10,
        ensures
            final(self).wf(),
            final(display).wf(),
            (final(self)@, final(display)@) == exec_op(
                old(self)@,
                OpCode::Draw(x, y, n),
                Seq::empty(),
                old(display)@,
                0,
            ),
    {
        let mut sprite: Vec<u8> = Vec::new();
        let mut k: u16 = 0;
        while k < n as u16
            invariant
                self.wf(),
                k <= n,
                sprite@ == sprite_at(self@, n).subrange(0, k as int),
            decreases n - k,
        {
            sprite.push(self.mem.read_byte(self.idx + k));
            k += 1;
        }
        assert(sprite@ =~= sprite_at(self@, n));
        let vx = self.regs[x as usize];
        let vy = self.regs[y as usize];
        let collision = display.draw(vx as usize, vy as usize, sprite.as_slice());
        self.set_reg(FLAG as u8, if collision { 1 } else { 0 });
    }

    /// `Fx0A`: loads the lowest held key into `Vx`; with no key held, moves the
    /// program counter back so that this instruction is fetched again.
    fn wait_key(&mut self, x: u8, keyboard: &Keyboard)
        requires
            old(self).wf(),
            keyboard.wf(),
            x < REGISTER_COUNT,
        ensures
            final(self).wf(),
            final(self)@ == exec_op(old(self)@, OpCode::WaitKey(x), keyboard@, Seq::empty(), 0).0,
    {
        match keyboard.get_key_press() {
            Some(key) => self.set_reg(x, key),
            None => {
                self.pc = (self.pc + 0x1000 - 2) % 0x1000;
            },
        }
    }

    /// `Fx33`: writes the hundreds, tens and ones of `Vx` from the index register on.
    fn load_bcd(&mut self, x: u8)
        requires
            old(self).wf(),
            x < REGISTER_COUNT,
        ensures
            final(self).wf(),
            final(self)@ == bcd_spec(old(self)@, x),
    {
        let v = self.regs[x as usize];
        self.mem.write_byte(self.idx, v / 100);
        self.mem.write_byte(self.idx + 1, (v % 100) / 10);
        self.mem.write_byte(self.idx + 2, v % 10);
    }

    /// `Fx55`: writes `V0` to `Vx` to memory from the index register on, then
    /// moves the index register past them.
    fn store_regs(&mut self, x: u8)
        requires
            old(self).wf(),
            x < REGISTER_COUNT,
        ensures
            final(self).wf(),
            final(self)@ == store_regs_spec(old(self)@, x),
    {
        let ghost m0 = self@;
        let mut i: u16 = 0;
        while i <= x as u16
            invariant
                self.wf(),
                x < REGISTER_COUNT,
                i <= x + 1,
                self@.regs == m0.regs,
                self@.idx == m0.idx,
                self@.pc == m0.pc,
                self@.sp == m0.sp,
                self@.stack == m0.stack,
                forall|a: int|
                    0 <= a < 0x1000 ==> #[trigger] self@.mem[a] == if wrap(a - m0.idx + 0x1000) < i {
                        m0.regs[wrap(a - m0.idx + 0x1000)]
                    } else {
                        m0.mem[a]
                    },
            decreases x + 1 - i,
        {
            let v = self.regs[i as usize];
            self.mem.write_byte(self.idx + i, v);
            i += 1;
        }
        self.idx = (self.idx + x as u16 + 1) % 0x1000;
        assert(self@.mem =~= store_regs_spec(m0, x).mem);
    }

    /// `Fx65`: reads `V0` to `Vx` from memory from the index register on, then
    /// moves the index register past them.
    fn load_regs(&mut self, x: u8)
        requires
            old(self).wf(),
            x < REGISTER_COUNT,
        ensures
            final(self).wf(),
            final(self)@ == load_regs_spec(old(self)@, x),
    {
        let ghost m0 = self@;
        let mut i: u16 = 0;
        while i <= x as u16
            invariant
                self.wf(),
                x < REGISTER_COUNT,
                i <= x + 1,
                self@.mem == m0.mem,
                self@.idx == m0.idx,
                self@.pc == m0.pc,
                self@.sp == m0.sp,
                self@.stack == m0.stack,
                forall|j: int|
                    0 <= j < REGISTER_COUNT ==> #[trigger] self@.regs[j] == if j < i {
                        m0.mem[wrap(m0.idx + j)]
                    } else {
                        m0.regs[j]
                    },
            decreases x + 1 - i,
        {
            let v = self.mem.read_byte(self.idx + i);
            self.set_reg(i as u8, v);
            i += 1;
        }
        self.idx = (self.idx + x as u16 + 1) % 0x1000;
        assert(self@.regs =~= load_regs_spec(m0, x).regs);
    }

    /// Carries out one decoded instruction, the program counter already moved
    /// past it. `outside` is the random byte for `RandomByte` and the delay
    /// timer's reading for `LoadDelay`. `SetDelay` and `SetSound` load the
    /// shared timers, which lie outside the machine state.
    pub fn run_op(&mut self, op: OpCode, display: &mut Display, keyboard: &Keyboard, outside: u8)
        requires
            old(self).wf(),
            old(display).wf(),
            keyboard.wf(),
            op.wf(),
        ensures
            final(self).wf(),
            final(display).wf(),
            (final(self)@, final(display)@) == exec_op(
                old(self)@,
                op,
                keyboard@,
                old(display)@,
                outside,
            ),
    {
        match op {
            OpCode::NoOp => {},
            OpCode::ClearScreen => {
                display.clear();
                assert(display@ =~= Seq::new(DISPLAY_SIZE as nat, |p: int| false));
            },
            OpCode::Return => self.return_subroutine(),
            OpCode::Jump(addr) => {
                self.pc = addr;
            },
            OpCode::Call(addr) => self.call_addr(addr),
            OpCode::SkipEqualByte(x, byte) => {
                let c = self.regs[x as usize] == byte;
                self.skip_next_if(c);
            },
            OpCode::SkipNotEqualByte(x, byte) => {
                let c = self.regs[x as usize] != byte;
                self.skip_next_if(c);
            },
            OpCode::SkipEqualReg(x, y) => {
                let c = self.regs[x as usize] == self.regs[y as usize];
                self.skip_next_if(c);
            },
            OpCode::LoadByte(x, byte) => self.set_reg(x, byte),
            OpCode::AddByte(x, byte) => {
                let v = ((self.regs[x as usize] as u16 + byte as u16) % 0x100) as u8;
                self.set_reg(x, v);
            },
            OpCode::LoadReg(x, y) => {
                let v = self.regs[y as usize];
                self.set_reg(x, v);
            },
            OpCode::OrReg(x, y) => {
                let v = self.regs[x as usize] | self.regs[y as usize];
                self.set_reg(x, v);
            },
            OpCode::AndReg(x, y) => {
                let v = self.regs[x as usize] & self.regs[y as usize];
                self.set_reg(x, v);
            },
            OpCode::XorReg(x, y) => {
                let v = self.regs[x as usize] ^ self.regs[y as usize];
                self.set_reg(x, v);
            },
            OpCode::AddReg(x, y) => self.add_reg(x, y),
            OpCode::SubReg(x, y) => self.sub_reg(x, y),
            OpCode::ShiftRight(x, y) => self.shr_reg(x, y),
            OpCode::SubNot(x, y) => self.subn_reg(x, y),
            OpCode::ShiftLeft(x, y) => self.shl_reg(x, y),
            OpCode::SkipNotEqualReg(x, y) => {
                let c = self.regs[x as usize] != self.regs[y as usize];
                self.skip_next_if(c);
            },
            OpCode::LoadIndex(addr) => {
                self.idx = addr;
            },
            OpCode::JumpV0(addr) => {
                self.pc = (addr + self.regs[0] as u16) % 0x1000;
            },
            OpCode::RandomByte(x, byte) => self.set_reg(x, byte & outside),
            OpCode::Draw(x, y, n) => self.draw(x, y, n, display),
            OpCode::SkipKeyPressed(x) => {
                let c = keyboard.is_key_pressed(self.regs[x as usize]);
                self.skip_next_if(c);
            },
            OpCode::SkipKeyNotPressed(x) => {
                let c = !keyboard.is_key_pressed(self.regs[x as usize]);
                self.skip_next_if(c);
            },
            OpCode::LoadDelay(x) => self.set_reg(x, outside),
            OpCode::WaitKey(x) => self.wait_key(x, keyboard),
            OpCode::SetDelay(x) => self.dt.load(self.regs[x as usize]),
            OpCode::SetSound(x) => self.st.load(self.regs[x as usize]),
            OpCode::AddToIndex(x) => {
                self.idx = (self.idx + self.regs[x as usize] as u16) % 0x1000;
            },
            OpCode::LoadFont(x) => {
                self.idx = 5 * self.regs[x as usize] as u16;
            },
            OpCode::LoadBCD(x) => self.load_bcd(x),
            OpCode::StoreRegs(x) => self.store_regs(x),
            OpCode::LoadRegs(x) => self.load_regs(x),
        }
    }

    /// One fetch-decode-execute cycle: reads the word at the program counter,
    /// moves the counter past it, decodes it and carries it out. A word that
    /// names no instruction is returned as an error, with nothing else done.
    /// The random byte or delay timer reading that an instruction may take is
    /// drawn here; the result holds for whichever value came.
    pub fn execute(&mut self, display: &mut Display, keyboard: &Keyboard) -> (r: Result<
        (),
        Chip9Error,
    >)
        requires
            old(self).wf(),
            old(display).wf(),
            keyboard.wf(),
        ensures
            final(self).wf(),
            final(display).wf(),
            exists|outside: u8|
                #[trigger] step_spec(old(self)@, keyboard@, old(display)@, outside) == (
                    r,
                    final(self)@,
                    final(display)@,
                ),
    {
        let fetched = self.fetch();
        match fetched {
            Err(e) => {
                assert(step_spec(old(self)@, keyboard@, old(display)@, 0) == (
                    Err::<(), Chip9Error>(e),
                    self@,
                    display@,
                ));
                Err(e)
            },
            Ok(op) => {
                let outside = match op {
                    OpCode::RandomByte(_, _) => random_byte(),
                    OpCode::LoadDelay(_) => self.dt.get(),
                    _ => 0,
                };
                self.run_op(op, display, keyboard, outside);
                assert(step_spec(old(self)@, keyboard@, old(display)@, outside) == (
                    Ok::<(), Chip9Error>(()),
                    self@,
                    display@,
                ));
                Ok(())
            },
        }
    }
}

} // verus!
