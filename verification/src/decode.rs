use vstd::prelude::*;

verus! {

/// The closed set of instruction variants. Field meanings: `x` and `y` are
/// register indices (low nibble only, so below 16), `kk` an immediate byte,
/// `nnn` a 12-bit address, `n` a 4-bit sprite height.
#[derive(Clone, Copy, Debug, PartialEq, Eq, Structural)]
pub enum Instruction {
    /// Zero the framebuffer.
    Cls,
    /// Return from the most recent call.
    Ret,
    /// Unconditional absolute jump to `nnn`.
    Jump(u16),
    /// Push the program counter and jump to `nnn`.
    Call(u16),
    /// Skip the next instruction if `v[x] == kk`.
    SkipEqImm(u8, u8),
    /// Skip the next instruction if `v[x] != kk`.
    SkipNeImm(u8, u8),
    /// Skip the next instruction if `v[x] == v[y]`.
    SkipEqReg(u8, u8),
    /// `v[x] = kk`.
    LoadImm(u8, u8),
    /// `v[x] += kk`, wrapping, no flag.
    AddImm(u8, u8),
    /// `v[x] = v[y]`.
    Assign(u8, u8),
    /// `v[x] |= v[y]`.
    Or(u8, u8),
    /// `v[x] &= v[y]`.
    And(u8, u8),
    /// `v[x] ^= v[y]`.
    Xor(u8, u8),
    /// `v[x] += v[y]`, flag = carry.
    Add(u8, u8),
    /// `v[x] -= v[y]`, flag = 1 when no borrow.
    Sub(u8, u8),
    /// `v[x] = v[y] >> 1`, flag = the bit shifted out of `v[y]`.
    Shr(u8, u8),
    /// `v[x] = v[y] - v[x]`, flag = 1 when no borrow.
    SubFrom(u8, u8),
    /// `v[x] = v[y] << 1`, flag = the high bit of `v[y]`, unshifted.
    Shl(u8, u8),
    /// Skip the next instruction if `v[x] != v[y]`.
    SkipNeReg(u8, u8),
    /// `index = nnn`.
    SetIndex(u16),
    /// Jump to `nnn + v[0]`, then two more.
    JumpOffset(u16),
    /// `v[x] = random byte & kk`.
    Random(u8, u8),
    /// Draw the `n`-row sprite at `memory[index..]` at `(v[x], v[y])`.
    Draw(u8, u8, u8),
    /// Skip the next instruction if key `v[x]` is pressed.
    SkipKey(u8),
    /// Skip the next instruction if key `v[x]` is not pressed; clear the
    /// latch when it is.
    SkipNoKey(u8),
    /// `v[x] = delay timer`.
    ReadDelay(u8),
    /// Block until some key is pressed, then record it in `v[x]`.
    WaitKey(u8),
    /// `delay timer = v[x]`.
    SetDelay(u8),
    /// `sound timer = v[x]`.
    SetSound(u8),
    /// `index += v[x]`, wrapping, no flag.
    AddIndex(u8),
    /// `index = v[x] * 5`, the address of glyph `v[x]`.
    Glyph(u8),
    /// Write the decimal digits of `v[x]` at `memory[index..index+3)`.
    Bcd(u8),
    /// Copy `v[0..x)` into `memory[index..index+x)`.
    StoreRegs(u8),
    /// Copy `memory[index..index+x)` into `v[0..x)`.
    LoadRegs(u8),
}

/// Bounds on the decoded operand fields, guaranteed by `decode`.
pub open spec fn instruction_wf(ins: Instruction) -> bool {
    match ins {
        Instruction::Cls => true,
        Instruction::Ret => true,
        Instruction::Jump(nnn) => nnn <= 0xFFF,
        Instruction::Call(nnn) => nnn <= 0xFFF,
        Instruction::SkipEqImm(x, _kk) => x < 16,
        Instruction::SkipNeImm(x, _kk) => x < 16,
        Instruction::SkipEqReg(x, y) => x < 16 && y < 16,
        Instruction::LoadImm(x, _kk) => x < 16,
        Instruction::AddImm(x, _kk) => x < 16,
        Instruction::Assign(x, y) => x < 16 && y < 16,
        Instruction::Or(x, y) => x < 16 && y < 16,
        Instruction::And(x, y) => x < 16 && y < 16,
        Instruction::Xor(x, y) => x < 16 && y < 16,
        Instruction::Add(x, y) => x < 16 && y < 16,
        Instruction::Sub(x, y) => x < 16 && y < 16,
        Instruction::Shr(x, y) => x < 16 && y < 16,
        Instruction::SubFrom(x, y) => x < 16 && y < 16,
        Instruction::Shl(x, y) => x < 16 && y < 16,
        Instruction::SkipNeReg(x, y) => x < 16 && y < 16,
        Instruction::SetIndex(nnn) => nnn <= 0xFFF,
        Instruction::JumpOffset(nnn) => nnn <= 0xFFF,
        Instruction::Random(x, _kk) => x < 16,
        Instruction::Draw(x, y, n) => x < 16 && y < 16 && n < 16,
        Instruction::SkipKey(x) => x < 16,
        Instruction::SkipNoKey(x) => x < 16,
        Instruction::ReadDelay(x) => x < 16,
        Instruction::WaitKey(x) => x < 16,
        Instruction::SetDelay(x) => x < 16,
        Instruction::SetSound(x) => x < 16,
        Instruction::AddIndex(x) => x < 16,
        Instruction::Glyph(x) => x < 16,
        Instruction::Bcd(x) => x < 16,
        Instruction::StoreRegs(x) => x < 16,
        Instruction::LoadRegs(x) => x < 16,
    }
}

/// What a 16-bit instruction word means: `None` is a decode failure, an
/// unknown family or an unknown sub-opcode of a known family.
pub open spec fn spec_decode(op: u16) -> Option<Instruction> {
    let x = ((op >> 8) & 0xF) as u8;
    let y = ((op >> 4) & 0xF) as u8;
    let n = (op & 0xF) as u8;
    let kk = (op & 0xFF) as u8;
    let nnn = op & 0xFFF;
    if op & 0xF000 == 0x0000 {
        if op & 0x00FF == 0x00E0 {
            Some(Instruction::Cls)
        } else if op & 0x00FF == 0x00EE {
            Some(Instruction::Ret)
        } else {
            None
        }
    } else if op & 0xF000 == 0x1000 {
        Some(Instruction::Jump(nnn))
    } else if op & 0xF000 == 0x2000 {
        Some(Instruction::Call(nnn))
    } else if op & 0xF000 == 0x3000 {
        Some(Instruction::SkipEqImm(x, kk))
    } else if op & 0xF000 == 0x4000 {
        Some(Instruction::SkipNeImm(x, kk))
    } else if op & 0xF000 == 0x5000 {
        Some(Instruction::SkipEqReg(x, y))
    } else if op & 0xF000 == 0x6000 {
        Some(Instruction::LoadImm(x, kk))
    } else if op & 0xF000 == 0x7000 {
        Some(Instruction::AddImm(x, kk))
    } else if op & 0xF000 == 0x8000 {
        if op & 0x000F == 0x0000 {
            Some(Instruction::Assign(x, y))
        } else if op & 0x000F == 0x0001 {
            Some(Instruction::Or(x, y))
        } else if op & 0x000F == 0x0002 {
            Some(Instruction::And(x, y))
        } else if op & 0x000F == 0x0003 {
            Some(Instruction::Xor(x, y))
        } else if op & 0x000F == 0x0004 {
            Some(Instruction::Add(x, y))
        } else if op & 0x000F == 0x0005 {
            Some(Instruction::Sub(x, y))
        } else if op & 0x000F == 0x0006 {
            Some(Instruction::Shr(x, y))
        } else if op & 0x000F == 0x0007 {
            Some(Instruction::SubFrom(x, y))
        } else if op & 0x000F == 0x0008 {
            Some(Instruction::Shl(x, y))
        } else {
            None
        }
    } else if op & 0xF000 == 0x9000 {
        Some(Instruction::SkipNeReg(x, y))
    } else if op & 0xF000 == 0xA000 {
        Some(Instruction::SetIndex(nnn))
    } else if op & 0xF000 == 0xB000 {
        Some(Instruction::JumpOffset(nnn))
    } else if op & 0xF000 == 0xC000 {
        Some(Instruction::Random(x, kk))
    } else if op & 0xF000 == 0xD000 {
        Some(Instruction::Draw(x, y, n))
    } else if op & 0xF000 == 0xE000 {
        if op & 0x00FF == 0x009E {
            Some(Instruction::SkipKey(x))
        } else if op & 0x00FF == 0x00A1 {
            Some(Instruction::SkipNoKey(x))
        } else {
            None
        }
    } else {
        if op & 0x00FF == 0x0007 {
            Some(Instruction::ReadDelay(x))
        } else if op & 0x00FF == 0x000A {
            Some(Instruction::WaitKey(x))
        } else if op & 0x00FF == 0x0015 {
            Some(Instruction::SetDelay(x))
        } else if op & 0x00FF == 0x0018 {
            Some(Instruction::SetSound(x))
        } else if op & 0x00FF == 0x001E {
            Some(Instruction::AddIndex(x))
        } else if op & 0x00FF == 0x0029 {
            Some(Instruction::Glyph(x))
        } else if op & 0x00FF == 0x0033 {
            Some(Instruction::Bcd(x))
        } else if op & 0x00FF == 0x0055 {
            Some(Instruction::StoreRegs(x))
        } else if op & 0x00FF == 0x0065 {
            Some(Instruction::LoadRegs(x))
        } else {
            None
        }
    }
}

/// The decoded operand fields are small by construction.
pub proof fn lemma_field_bounds(op: u16)
    by (bit_vector)
    ensures
        ((op >> 8) & 0xF) < 16,
        ((op >> 4) & 0xF) < 16,
        (op & 0xF) < 16,
        (op & 0xFF) <= 0xFF,
        (op & 0xFFF) <= 0xFFF,
{
}

/// Every successfully decoded instruction has well-formed fields.
pub proof fn lemma_decode_wf(op: u16)
    ensures
        spec_decode(op) matches Some(ins) ==> instruction_wf(ins),
{
    lemma_field_bounds(op);
}

/// Extract the instruction variant and operand fields from one
/// instruction word.
pub fn decode(op: u16) -> (r: Option<Instruction>)
    ensures
        r == spec_decode(op),
        r matches Some(ins) ==> instruction_wf(ins),
{
    proof {
        lemma_decode_wf(op);
    }
    let x: u8 = ((op >> 8) & 0xF) as u8;
    let y: u8 = ((op >> 4) & 0xF) as u8;
    let n: u8 = (op & 0xF) as u8;
    let kk: u8 = (op & 0xFF) as u8;
    let nnn: u16 = op & 0xFFF;
    if op & 0xF000 == 0x0000 {
        if op & 0x00FF == 0x00E0 {
            Some(Instruction::Cls)
        } else if op & 0x00FF == 0x00EE {
            Some(Instruction::Ret)
        } else {
            None
        }
    } else if op & 0xF000 == 0x1000 {
        Some(Instruction::Jump(nnn))
    } else if op & 0xF000 == 0x2000 {
        Some(Instruction::Call(nnn))
    } else if op & 0xF000 == 0x3000 {
        Some(Instruction::SkipEqImm(x, kk))
    } else if op & 0xF000 == 0x4000 {
        Some(Instruction::SkipNeImm(x, kk))
    } else if op & 0xF000 == 0x5000 {
        Some(Instruction::SkipEqReg(x, y))
    } else if op & 0xF000 == 0x6000 {
        Some(Instruction::LoadImm(x, kk))
    } else if op & 0xF000 == 0x7000 {
        Some(Instruction::AddImm(x, kk))
    } else if op & 0xF000 == 0x8000 {
        if op & 0x000F == 0x0000 {
            Some(Instruction::Assign(x, y))
        } else if op & 0x000F == 0x0001 {
            Some(Instruction::Or(x, y))
        } else if op & 0x000F == 0x0002 {
            Some(Instruction::And(x, y))
        } else if op & 0x000F == 0x0003 {
            Some(Instruction::Xor(x, y))
        } else if op & 0x000F == 0x0004 {
            Some(Instruction::Add(x, y))
        } else if op & 0x000F == 0x0005 {
            Some(Instruction::Sub(x, y))
        } else if op & 0x000F == 0x0006 {
            Some(Instruction::Shr(x, y))
        } else if op & 0x000F == 0x0007 {
            Some(Instruction::SubFrom(x, y))
        } else if op & 0x000F == 0x0008 {
            Some(Instruction::Shl(x, y))
        } else {
            None
        }
    } else if op & 0xF000 == 0x9000 {
        Some(Instruction::SkipNeReg(x, y))
    } else if op & 0xF000 == 0xA000 {
        Some(Instruction::SetIndex(nnn))
    } else if op & 0xF000 == 0xB000 {
        Some(Instruction::JumpOffset(nnn))
    } else if op & 0xF000 == 0xC000 {
        Some(Instruction::Random(x, kk))
    } else if op & 0xF000 == 0xD000 {
        Some(Instruction::Draw(x, y, n))
    } else if op & 0xF000 == 0xE000 {
        if op & 0x00FF == 0x009E {
            Some(Instruction::SkipKey(x))
        } else if op & 0x00FF == 0x00A1 {
            Some(Instruction::SkipNoKey(x))
        } else {
            None
        }
    } else {
        if op & 0x00FF == 0x0007 {
            Some(Instruction::ReadDelay(x))
        } else if op & 0x00FF == 0x000A {
            Some(Instruction::WaitKey(x))
        } else if op & 0x00FF == 0x0015 {
            Some(Instruction::SetDelay(x))
        } else if op & 0x00FF == 0x0018 {
            Some(Instruction::SetSound(x))
        } else if op & 0x00FF == 0x001E {
            Some(Instruction::AddIndex(x))
        } else if op & 0x00FF == 0x0029 {
            Some(Instruction::Glyph(x))
        } else if op & 0x00FF == 0x0033 {
            Some(Instruction::Bcd(x))
        } else if op & 0x00FF == 0x0055 {
            Some(Instruction::StoreRegs(x))
        } else if op & 0x00FF == 0x0065 {
            Some(Instruction::LoadRegs(x))
        } else {
            None
        }
    }
}

} // verus!
