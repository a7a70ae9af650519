use vstd::prelude::*;

use crate::error::Chip9Error;

verus! {

/// The family of an instruction word: its top nibble.
pub open spec fn family(w: u16) -> u16 {
    w / 0x1000
}

/// The second nibble, which names register `x`.
pub open spec fn nib_x(w: u16) -> u8 {
    ((w / 0x100) % 0x10) as u8
}

/// The third nibble, which names register `y`.
pub open spec fn nib_y(w: u16) -> u8 {
    ((w / 0x10) % 0x10) as u8
}

/// The lowest nibble.
pub open spec fn nib_n(w: u16) -> u8 {
    (w % 0x10) as u8
}

/// The low byte, an immediate operand.
pub open spec fn low_byte(w: u16) -> u8 {
    (w % 0x100) as u8
}

/// The low twelve bits, an address operand.
pub open spec fn low_addr(w: u16) -> u16 {
    w % 0x1000
}

/// One decoded instruction. Register operands are nibbles (`0..16`), address
/// operands are twelve bits wide (`0..0x1000`).
#[derive(Clone, Copy, Debug, PartialEq, Eq, Structural)]
pub enum OpCode {
    /// `0nnn` other than `00E0` and `00EE`: a machine routine call, ignored.
    NoOp,
    /// `00E0`
    ClearScreen,
    /// `00EE`
    Return,
    /// `1nnn`
    Jump(u16),
    /// `2nnn`
    Call(u16),
    /// `3xkk`
    SkipEqualByte(u8, u8),
    /// `4xkk`
    SkipNotEqualByte(u8, u8),
    /// `5xy0`
    SkipEqualReg(u8, u8),
    /// `6xkk`
    LoadByte(u8, u8),
    /// `7xkk`
    AddByte(u8, u8),
    /// `8xy0`
    LoadReg(u8, u8),
    /// `8xy1`
    OrReg(u8, u8),
    /// `8xy2`
    AndReg(u8, u8),
    /// `8xy3`
    XorReg(u8, u8),
    /// `8xy4`
    AddReg(u8, u8),
    /// `8xy5`
    SubReg(u8, u8),
    /// `8xy6`
    ShiftRight(u8, u8),
    /// `8xy7`
    SubNot(u8, u8),
    /// `8xyE`
    ShiftLeft(u8, u8),
    /// `9xy0`
    SkipNotEqualReg(u8, u8),
    /// `Annn`
    LoadIndex(u16),
    /// `Bnnn`
    JumpV0(u16),
    /// `Cxkk`
    RandomByte(u8, u8),
    /// `Dxyn`
    Draw(u8, u8, u8),
    /// `Ex9E`
    SkipKeyPressed(u8),
    /// `ExA1`
    SkipKeyNotPressed(u8),
    /// `Fx07`
    LoadDelay(u8),
    /// `Fx0A`
    WaitKey(u8),
    /// `Fx15`
    SetDelay(u8),
    /// `Fx18`
    SetSound(u8),
    /// `Fx1E`
    AddToIndex(u8),
    /// `Fx29`
    LoadFont(u8),
    /// `Fx33`
    LoadBCD(u8),
    /// `Fx55`
    StoreRegs(u8),
    /// `Fx65`
    LoadRegs(u8),
}

/// The instruction that a word encodes, or `None` where it matches no pattern.
#[verifier::opaque]
pub open spec fn decode_spec(w: u16) -> Option<OpCode> {
    let x = nib_x(w);
    let y = nib_y(w);
    let n = nib_n(w);
    let kk = low_byte(w);
    let nnn = low_addr(w);
    if family(w) == 0x0 {
        if w == 0x00E0 {
            Some(OpCode::ClearScreen)
        } else if w == 0x00EE {
            Some(OpCode::Return)
        } else {
            Some(OpCode::NoOp)
        }
    } else if family(w) == 0x1 {
        Some(OpCode::Jump(nnn))
    } else if family(w) == 0x2 {
        Some(OpCode::Call(nnn))
    } else if family(w) == 0x3 {
        Some(OpCode::SkipEqualByte(x, kk))
    } else if family(w) == 0x4 {
        Some(OpCode::SkipNotEqualByte(x, kk))
    } else if family(w) == 0x5 {
        if n == 0 { Some(OpCode::SkipEqualReg(x, y)) } else { None }
    } else if family(w) == 0x6 {
        Some(OpCode::LoadByte(x, kk))
    } else if family(w) == 0x7 {
        Some(OpCode::AddByte(x, kk))
    } else if family(w) == 0x8 {
        if n == 0x0 {
            Some(OpCode::LoadReg(x, y))
        } else if n == 0x1 {
            Some(OpCode::OrReg(x, y))
        } else if n == 0x2 {
            Some(OpCode::AndReg(x, y))
        } else if n == 0x3 {
            Some(OpCode::XorReg(x, y))
        } else if n == 0x4 {
            Some(OpCode::AddReg(x, y))
        } else if n == 0x5 {
            Some(OpCode::SubReg(x, y))
        } else if n == 0x6 {
            Some(OpCode::ShiftRight(x, y))
        } else if n == 0x7 {
            Some(OpCode::SubNot(x, y))
        } else if n == 0xE {
            Some(OpCode::ShiftLeft(x, y))
        } else {
            None
        }
    } else if family(w) == 0x9 {
        if n == 0 { Some(OpCode::SkipNotEqualReg(x, y)) } else { None }
    } else if family(w) == 0xA {
        Some(OpCode::LoadIndex(nnn))
    } else if family(w) == 0xB {
        Some(OpCode::JumpV0(nnn))
    } else if family(w) == 0xC {
        Some(OpCode::RandomByte(x, kk))
    } else if family(w) == 0xD {
        Some(OpCode::Draw(x, y, n))
    } else if family(w) == 0xE {
        if kk == 0x9E {
            Some(OpCode::SkipKeyPressed(x))
        } else if kk == 0xA1 {
            Some(OpCode::SkipKeyNotPressed(x))
        } else {
            None
        }
    } else {
        if kk == 0x07 {
            Some(OpCode::LoadDelay(x))
        } else if kk == 0x0A {
            Some(OpCode::WaitKey(x))
        } else if kk == 0x15 {
            Some(OpCode::SetDelay(x))
        } else if kk == 0x18 {
            Some(OpCode::SetSound(x))
        } else if kk == 0x1E {
            Some(OpCode::AddToIndex(x))
        } else if kk == 0x29 {
            Some(OpCode::LoadFont(x))
        } else if kk == 0x33 {
            Some(OpCode::LoadBCD(x))
        } else if kk == 0x55 {
            Some(OpCode::StoreRegs(x))
        } else if kk == 0x65 {
            Some(OpCode::LoadRegs(x))
        } else {
            None
        }
    }
}

/// What decoding a word yields: the instruction, or the word as an error.
pub open spec fn decode_result(w: u16) -> Result<OpCode, Chip9Error> {
    match decode_spec(w) {
        Some(op) => Ok(op),
        None => Err(Chip9Error::UnrecognizedOpcode(w)),
    }
}

/// The word `h x y n`, four nibbles from the top down.
pub open spec fn word(h: int, x: int, y: int, n: int) -> u16 {
    (h * 0x1000 + x * 0x100 + y * 0x10 + n) as u16
}

/// The word `h x kk`.
pub open spec fn word_byte(h: int, x: int, kk: int) -> u16 {
    (h * 0x1000 + x * 0x100 + kk) as u16
}

/// A word is the sum of its nibbles, and its low byte and low address are
/// made of its lower nibbles.
proof fn lemma_split(w: u16)
    ensures
        w as int == family(w) * 0x1000 + nib_x(w) * 0x100 + nib_y(w) * 0x10 + nib_n(w),
        family(w) < 0x10,
        nib_x(w) < 0x10,
        nib_y(w) < 0x10,
        nib_n(w) < 0x10,
        low_byte(w) as int == nib_y(w) * 0x10 + nib_n(w),
        low_addr(w) as int == nib_x(w) * 0x100 + low_byte(w),
{
    let a = w as int;
    let q1 = a / 0x10;
    let q2 = q1 / 0x10;
    let q3 = q2 / 0x10;
    assert(a == 0x10 * q1 + a % 0x10);
    assert(q1 == 0x10 * q2 + q1 % 0x10);
    assert(q2 == 0x10 * q3 + q2 % 0x10);
    assert(a == 0x1000 * q3 + 0x100 * (q2 % 0x10) + 0x10 * (q1 % 0x10) + a % 0x10);
    assert(a / 0x100 == q2);
    assert(a / 0x1000 == q3);
    assert(a % 0x100 == 0x10 * (q1 % 0x10) + a % 0x10);
    assert(a % 0x1000 == 0x100 * (q2 % 0x10) + a % 0x100);
}

/// The nibbles of `h x y n` are `h`, `x`, `y` and `n`.
proof fn lemma_join(h: int, x: int, y: int, n: int)
    requires
        0 <= h < 0x10,
        0 <= x < 0x10,
        0 <= y < 0x10,
        0 <= n < 0x10,
    ensures
        family(word(h, x, y, n)) == h,
        nib_x(word(h, x, y, n)) == x,
        nib_y(word(h, x, y, n)) == y,
        nib_n(word(h, x, y, n)) == n,
        low_byte(word(h, x, y, n)) == y * 0x10 + n,
        low_addr(word(h, x, y, n)) == x * 0x100 + y * 0x10 + n,
{
    let w = word(h, x, y, n);
    assert(w as int == h * 0x1000 + x * 0x100 + y * 0x10 + n);
    lemma_split(w);
}

/// Every well-formed instruction is decoded back from its own encoding.
pub proof fn lemma_decode_encode(op: OpCode)
    requires
        op.wf(),
    ensures
        decode_spec(op.encode()) == Some(op),
{
    reveal(decode_spec);
    let w = op.encode();
    match op {
        OpCode::Jump(a) | OpCode::Call(a) | OpCode::LoadIndex(a) | OpCode::JumpV0(a) => {
            lemma_split(w);
            lemma_join(family(w) as int, (a / 0x100) as int, ((a / 0x10) % 0x10) as int, (a % 0x10) as int);
        },
        OpCode::SkipEqualByte(x, kk) | OpCode::SkipNotEqualByte(x, kk) | OpCode::LoadByte(x, kk)
        | OpCode::AddByte(x, kk) | OpCode::RandomByte(x, kk) => {
            lemma_join(family(w) as int, x as int, (kk / 0x10) as int, (kk % 0x10) as int);
        },
        OpCode::SkipEqualReg(x, y) | OpCode::SkipNotEqualReg(x, y) | OpCode::LoadReg(x, y)
        | OpCode::OrReg(x, y) | OpCode::AndReg(x, y) | OpCode::XorReg(x, y) | OpCode::AddReg(x, y)
        | OpCode::SubReg(x, y) | OpCode::ShiftRight(x, y) | OpCode::SubNot(x, y)
        | OpCode::ShiftLeft(x, y) => {
            lemma_join(family(w) as int, x as int, y as int, nib_n(w) as int);
        },
        OpCode::Draw(x, y, n) => {
            lemma_join(0xD, x as int, y as int, n as int);
        },
        OpCode::SkipKeyPressed(x) | OpCode::SkipKeyNotPressed(x) | OpCode::LoadDelay(x)
        | OpCode::WaitKey(x) | OpCode::SetDelay(x) | OpCode::SetSound(x) | OpCode::AddToIndex(x)
        | OpCode::LoadFont(x) | OpCode::LoadBCD(x) | OpCode::StoreRegs(x) | OpCode::LoadRegs(x) => {
            lemma_join(family(w) as int, x as int, nib_y(w) as int, nib_n(w) as int);
        },
        _ => {},
    }
}

/// Every word that decodes to an instruction other than the ignored `0nnn`
/// is that instruction's encoding: no operand bit is lost or misplaced.
pub proof fn lemma_encode_decode(w: u16)
    requires
        decode_spec(w) is Some,
        decode_spec(w) != Some(OpCode::NoOp),
    ensures
        decode_spec(w).unwrap().encode() == w,
        decode_spec(w).unwrap().wf(),
{
    reveal(decode_spec);
    lemma_split(w);
}

impl OpCode {
    /// Register operands are nibbles and addresses are twelve bits wide.
    pub open spec fn wf(self) -> bool {
        match self {
            OpCode::Jump(a) | OpCode::Call(a) | OpCode::LoadIndex(a) | OpCode::JumpV0(a) => a
                < 0x1000,
            OpCode::SkipEqualByte(x, _) | OpCode::SkipNotEqualByte(x, _) | OpCode::LoadByte(x, _)
            | OpCode::AddByte(x, _) | OpCode::RandomByte(x, _) => x < 0x10,
            OpCode::SkipEqualReg(x, y) | OpCode::LoadReg(x, y) | OpCode::OrReg(x, y)
            | OpCode::AndReg(x, y) | OpCode::XorReg(x, y) | OpCode::AddReg(x, y) | OpCode::SubReg(
                x,
                y,
            ) | OpCode::ShiftRight(x, y) | OpCode::SubNot(x, y) | OpCode::ShiftLeft(x, y)
            | OpCode::SkipNotEqualReg(x, y) => x < 0x10 && y < 0x10,
            OpCode::Draw(x, y, n) => x < 0x10 && y < 0x10 && n < 0x10,
            OpCode::SkipKeyPressed(x) | OpCode::SkipKeyNotPressed(x) | OpCode::LoadDelay(x)
            | OpCode::WaitKey(x) | OpCode::SetDelay(x) | OpCode::SetSound(x) | OpCode::AddToIndex(x)
            | OpCode::LoadFont(x) | OpCode::LoadBCD(x) | OpCode::StoreRegs(x) | OpCode::LoadRegs(
                x,
            ) => x < 0x10,
            _ => true,
        }
    }

    /// The canonical word of an instruction (`0000` for the ignored `0nnn`).
    pub open spec fn encode(self) -> u16 {
        match self {
            OpCode::NoOp => 0x0000,
            OpCode::ClearScreen => 0x00E0,
            OpCode::Return => 0x00EE,
            OpCode::Jump(a) => (0x1000 + a) as u16,
            OpCode::Call(a) => (0x2000 + a) as u16,
            OpCode::SkipEqualByte(x, kk) => word_byte(0x3, x as int, kk as int),
            OpCode::SkipNotEqualByte(x, kk) => word_byte(0x4, x as int, kk as int),
            OpCode::SkipEqualReg(x, y) => word(0x5, x as int, y as int, 0x0),
            OpCode::LoadByte(x, kk) => word_byte(0x6, x as int, kk as int),
            OpCode::AddByte(x, kk) => word_byte(0x7, x as int, kk as int),
            OpCode::LoadReg(x, y) => word(0x8, x as int, y as int, 0x0),
            OpCode::OrReg(x, y) => word(0x8, x as int, y as int, 0x1),
            OpCode::AndReg(x, y) => word(0x8, x as int, y as int, 0x2),
            OpCode::XorReg(x, y) => word(0x8, x as int, y as int, 0x3),
            OpCode::AddReg(x, y) => word(0x8, x as int, y as int, 0x4),
            OpCode::SubReg(x, y) => word(0x8, x as int, y as int, 0x5),
            OpCode::ShiftRight(x, y) => word(0x8, x as int, y as int, 0x6),
            OpCode::SubNot(x, y) => word(0x8, x as int, y as int, 0x7),
            OpCode::ShiftLeft(x, y) => word(0x8, x as int, y as int, 0xE),
            OpCode::SkipNotEqualReg(x, y) => word(0x9, x as int, y as int, 0x0),
            OpCode::LoadIndex(a) => (0xA000 + a) as u16,
            OpCode::JumpV0(a) => (0xB000 + a) as u16,
            OpCode::RandomByte(x, kk) => word_byte(0xC, x as int, kk as int),
            OpCode::Draw(x, y, n) => word(0xD, x as int, y as int, n as int),
            OpCode::SkipKeyPressed(x) => word_byte(0xE, x as int, 0x9E),
            OpCode::SkipKeyNotPressed(x) => word_byte(0xE, x as int, 0xA1),
            OpCode::LoadDelay(x) => word_byte(0xF, x as int, 0x07),
            OpCode::WaitKey(x) => word_byte(0xF, x as int, 0x0A),
            OpCode::SetDelay(x) => word_byte(0xF, x as int, 0x15),
            OpCode::SetSound(x) => word_byte(0xF, x as int, 0x18),
            OpCode::AddToIndex(x) => word_byte(0xF, x as int, 0x1E),
            OpCode::LoadFont(x) => word_byte(0xF, x as int, 0x29),
            OpCode::LoadBCD(x) => word_byte(0xF, x as int, 0x33),
            OpCode::StoreRegs(x) => word_byte(0xF, x as int, 0x55),
            OpCode::LoadRegs(x) => word_byte(0xF, x as int, 0x65),
        }
    }

    /// Decodes an instruction word: the top nibble selects a family, the
    /// lower nibbles or the low byte select within it and give the operands.
    pub fn decode(w: u16) -> (r: Result<OpCode, Chip9Error>)
        ensures
            r == decode_result(w),
            r matches Ok(op) ==> op.wf(),
    {
        proof {
            reveal(decode_spec);
        }
        let h: u16 = w / 0x1000;
        let x: u8 = ((w / 0x100) % 0x10) as u8;
        let y: u8 = ((w / 0x10) % 0x10) as u8;
        let n: u8 = (w % 0x10) as u8;
        let kk: u8 = (w % 0x100) as u8;
        let nnn: u16 = w % 0x1000;
        let op = if h == 0x0 {
            if w == 0x00E0 {
                Some(OpCode::ClearScreen)
            } else if w == 0x00EE {
                Some(OpCode::Return)
            } else {
                Some(OpCode::NoOp)
            }
        } else if h == 0x1 {
            Some(OpCode::Jump(nnn))
        } else if h == 0x2 {
            Some(OpCode::Call(nnn))
        } else if h == 0x3 {
            Some(OpCode::SkipEqualByte(x, kk))
        } else if h == 0x4 {
            Some(OpCode::SkipNotEqualByte(x, kk))
        } else if h == 0x5 {
            if n == 0 { Some(OpCode::SkipEqualReg(x, y)) } else { None }
        } else if h == 0x6 {
            Some(OpCode::LoadByte(x, kk))
        } else if h == 0x7 {
            Some(OpCode::AddByte(x, kk))
        } else if h == 0x8 {
            match n {
                0x0 => Some(OpCode::LoadReg(x, y)),
                0x1 => Some(OpCode::OrReg(x, y)),
                0x2 => Some(OpCode::AndReg(x, y)),
                0x3 => Some(OpCode::XorReg(x, y)),
                0x4 => Some(OpCode::AddReg(x, y)),
                0x5 => Some(OpCode::SubReg(x, y)),
                0x6 => Some(OpCode::ShiftRight(x, y)),
                0x7 => Some(OpCode::SubNot(x, y)),
                0xE => Some(OpCode::ShiftLeft(x, y)),
                _ => None,
            }
        } else if h == 0x9 {
            if n == 0 { Some(OpCode::SkipNotEqualReg(x, y)) } else { None }
        } else if h == 0xA {
            Some(OpCode::LoadIndex(nnn))
        } else if h == 0xB {
            Some(OpCode::JumpV0(nnn))
        } else if h == 0xC {
            Some(OpCode::RandomByte(x, kk))
        } else if h == 0xD {
            Some(OpCode::Draw(x, y, n))
        } else if h == 0xE {
            match kk {
                0x9E => Some(OpCode::SkipKeyPressed(x)),
                0xA1 => Some(OpCode::SkipKeyNotPressed(x)),
                _ => None,
            }
        } else {
            match kk {
                0x07 => Some(OpCode::LoadDelay(x)),
                0x0A => Some(OpCode::WaitKey(x)),
                0x15 => Some(OpCode::SetDelay(x)),
                0x18 => Some(OpCode::SetSound(x)),
                0x1E => Some(OpCode::AddToIndex(x)),
                0x29 => Some(OpCode::LoadFont(x)),
                0x33 => Some(OpCode::LoadBCD(x)),
                0x55 => Some(OpCode::StoreRegs(x)),
                0x65 => Some(OpCode::LoadRegs(x)),
                _ => None,
            }
        };
        match op {
            Some(op) => Ok(op),
            None => Err(Chip9Error::UnrecognizedOpcode(w)),
        }
    }
}

} // verus!
