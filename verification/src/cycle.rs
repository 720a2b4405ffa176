use vstd::prelude::*;

use crate::decode::{decode, spec_decode, Instruction};
use crate::draw::{draw_collides, draw_rows};
use crate::error::VmError;
use crate::vm::{DISPLAY_SIZE, MEMORY_SIZE, PROGRAM_START, VM};

verus! {

/// The general registers are untouched.
pub open spec fn same_regs(a: VM, b: VM) -> bool {
    b.v@ == a.v@
}

/// The index register is untouched.
pub open spec fn same_index(a: VM, b: VM) -> bool {
    b.i == a.i
}

/// The call stack and its pointer are untouched.
pub open spec fn same_stack(a: VM, b: VM) -> bool {
    b.stack@ == a.stack@ && b.sp == a.sp
}

/// Memory is untouched.
pub open spec fn same_memory(a: VM, b: VM) -> bool {
    b.memory@ == a.memory@
}

/// The framebuffer and the redraw flag are untouched.
pub open spec fn same_screen(a: VM, b: VM) -> bool {
    b.display@ == a.display@ && b.drawflag == a.drawflag
}

/// The input latch is untouched.
pub open spec fn same_keys(a: VM, b: VM) -> bool {
    b.keypad@ == a.keypad@
}

/// Both timers are untouched.
pub open spec fn same_timers(a: VM, b: VM) -> bool {
    b.delay == a.delay && b.sound == a.sound
}

/// Everything but the general registers and the program counter is
/// untouched.
pub open spec fn frame_regs_pc(a: VM, b: VM) -> bool {
    same_index(a, b) && same_stack(a, b) && same_memory(a, b) && same_screen(a, b) && same_keys(
        a,
        b,
    ) && same_timers(a, b)
}

/// Only the program counter may move.
pub open spec fn frame_pc(a: VM, b: VM) -> bool {
    same_regs(a, b) && frame_regs_pc(a, b)
}

/// Everything but the index register and the program counter is untouched.
pub open spec fn frame_index_pc(a: VM, b: VM) -> bool {
    same_regs(a, b) && same_stack(a, b) && same_memory(a, b) && same_screen(a, b) && same_keys(
        a,
        b,
    ) && same_timers(a, b)
}

/// Everything but memory and the program counter is untouched.
pub open spec fn frame_mem_pc(a: VM, b: VM) -> bool {
    same_regs(a, b) && same_index(a, b) && same_stack(a, b) && same_screen(a, b) && same_keys(
        a,
        b,
    ) && same_timers(a, b)
}

/// Everything but the call stack and the program counter is untouched.
pub open spec fn frame_stack_pc(a: VM, b: VM) -> bool {
    same_regs(a, b) && same_index(a, b) && same_memory(a, b) && same_screen(a, b) && same_keys(
        a,
        b,
    ) && same_timers(a, b)
}

/// Everything but the input latch and the program counter is untouched.
pub open spec fn frame_keys_pc(a: VM, b: VM) -> bool {
    same_regs(a, b) && same_index(a, b) && same_stack(a, b) && same_memory(a, b) && same_screen(
        a,
        b,
    ) && same_timers(a, b)
}

/// Everything but the timers and the program counter is untouched.
pub open spec fn frame_timers_pc(a: VM, b: VM) -> bool {
    same_regs(a, b) && same_index(a, b) && same_stack(a, b) && same_memory(a, b) && same_screen(
        a,
        b,
    ) && same_keys(a, b)
}

/// Everything but the framebuffer, redraw flag, registers and program
/// counter is untouched.
pub open spec fn frame_screen_regs_pc(a: VM, b: VM) -> bool {
    same_index(a, b) && same_stack(a, b) && same_memory(a, b) && same_keys(a, b) && same_timers(
        a,
        b,
    )
}

/// Everything except possibly the fetched-word field is untouched.
pub open spec fn same_core(a: VM, b: VM) -> bool {
    b.pc == a.pc && same_regs(a, b) && same_index(a, b) && same_stack(a, b) && same_memory(a, b)
        && same_screen(a, b) && same_keys(a, b) && same_timers(a, b)
}

/// No observable field changed at all.
pub open spec fn vm_unchanged(a: VM, b: VM) -> bool {
    b.op == a.op && same_core(a, b)
}

/// The big-endian instruction word at the program counter.
pub open spec fn fetch_word(pre: VM) -> u16 {
    ((pre.memory@[pre.pc as int] as u16) << 8u16) | (pre.memory@[pre.pc as int + 1] as u16)
}

/// Byte addition wrapping modulo 256.
pub open spec fn wrap_add_byte(a: u8, b: u8) -> u8 {
    ((a + b) % 256) as u8
}

/// Byte subtraction wrapping modulo 256.
pub open spec fn wrap_sub_byte(a: u8, b: u8) -> u8 {
    if a >= b {
        (a - b) as u8
    } else {
        (a - b + 256) as u8
    }
}

/// Word addition wrapping modulo 2^16.
pub open spec fn wrap_add_word(a: u16, b: u16) -> u16 {
    ((a + b) % 0x10000) as u16
}

/// Some key of the input latch is currently pressed.
pub open spec fn any_key_pressed(pre: VM) -> bool {
    exists|j: int| 0 <= j < 16 && pre.keypad@[j]
}

/// The error, if any, that instruction `ins` raises in state `pre`; the
/// handler mutates nothing when one is raised. `None` means the handler is
/// obliged to complete.
pub open spec fn step_err(pre: VM, ins: Instruction) -> Option<VmError> {
    match ins {
        Instruction::Ret => if pre.sp == 0 {
            Some(VmError::StackUnderflow)
        } else {
            None
        },
        Instruction::Call(_nnn) => if pre.sp >= 15 {
            Some(VmError::StackOverflow)
        } else {
            None
        },
        Instruction::Draw(_x, _y, n) => if n > 0 && pre.i + n > MEMORY_SIZE {
            Some(VmError::MemoryOutOfBounds((pre.i + n) as usize))
        } else {
            None
        },
        Instruction::SkipKey(x) => if pre.v@[x as int] >= 16 {
            Some(VmError::KeyOutOfRange(pre.v@[x as int]))
        } else {
            None
        },
        Instruction::SkipNoKey(x) => if pre.v@[x as int] >= 16 {
            Some(VmError::KeyOutOfRange(pre.v@[x as int]))
        } else {
            None
        },
        Instruction::Bcd(_x) => if pre.i + 3 > MEMORY_SIZE {
            Some(VmError::MemoryOutOfBounds((pre.i + 3) as usize))
        } else {
            None
        },
        Instruction::StoreRegs(x) => if x > 0 && pre.i + x > MEMORY_SIZE {
            Some(VmError::MemoryOutOfBounds((pre.i + x) as usize))
        } else {
            None
        },
        Instruction::LoadRegs(x) => if x > 0 && pre.i + x > MEMORY_SIZE {
            Some(VmError::MemoryOutOfBounds((pre.i + x) as usize))
        } else {
            None
        },
        _ => None,
    }
}

/// The state transition of one instruction: how `post` relates to `pre`
/// when `ins` executes without error. `rb` is the byte the random source
/// produced; only the random instruction reads it. The fetched-word field
/// `op` is not constrained here.
pub open spec fn effect(pre: VM, post: VM, ins: Instruction, rb: u8) -> bool {
    match ins {
        Instruction::Cls => {
            &&& post.display@.len() == DISPLAY_SIZE
            &&& forall|k: int| 0 <= k < DISPLAY_SIZE ==> post.display@[k] == 0
            &&& post.drawflag
            &&& post.v@ == pre.v@
            &&& post.pc == pre.pc + 2
            &&& frame_screen_regs_pc(pre, post)
        },
        Instruction::Ret => {
            &&& post.stack@ == pre.stack@
            &&& post.sp == pre.sp - 1
            &&& post.pc == wrap_add_word(pre.stack@[pre.sp as int], 2)
            &&& frame_stack_pc(pre, post)
        },
        Instruction::Jump(nnn) => {
            &&& post.pc == nnn
            &&& frame_pc(pre, post)
        },
        Instruction::Call(nnn) => {
            &&& post.sp == pre.sp + 1
            &&& post.stack@ == pre.stack@.update(pre.sp + 1, pre.pc)
            &&& post.pc == nnn
            &&& frame_stack_pc(pre, post)
        },
        Instruction::SkipEqImm(x, kk) => {
            &&& post.pc == pre.pc + if pre.v@[x as int] == kk {
                4int
            } else {
                2int
            }
            &&& frame_pc(pre, post)
        },
        Instruction::SkipNeImm(x, kk) => {
            &&& post.pc == pre.pc + if pre.v@[x as int] != kk {
                4int
            } else {
                2int
            }
            &&& frame_pc(pre, post)
        },
        Instruction::SkipEqReg(x, y) => {
            &&& post.pc == pre.pc + if pre.v@[x as int] == pre.v@[y as int] {
                4int
            } else {
                2int
            }
            &&& frame_pc(pre, post)
        },
        Instruction::LoadImm(x, kk) => {
            &&& post.v@ == pre.v@.update(x as int, kk)
            &&& post.pc == pre.pc + 2
            &&& frame_regs_pc(pre, post)
        },
        Instruction::AddImm(x, kk) => {
            &&& post.v@ == pre.v@.update(x as int, wrap_add_byte(pre.v@[x as int], kk))
            &&& post.pc == pre.pc + 2
            &&& frame_regs_pc(pre, post)
        },
        Instruction::Assign(x, y) => {
            &&& post.v@ == pre.v@.update(x as int, pre.v@[y as int])
            &&& post.pc == pre.pc + 2
            &&& frame_regs_pc(pre, post)
        },
        Instruction::Or(x, y) => {
            &&& post.v@ == pre.v@.update(x as int, pre.v@[x as int] | pre.v@[y as int])
            &&& post.pc == pre.pc + 2
            &&& frame_regs_pc(pre, post)
        },
        Instruction::And(x, y) => {
            &&& post.v@ == pre.v@.update(x as int, pre.v@[x as int] & pre.v@[y as int])
            &&& post.pc == pre.pc + 2
            &&& frame_regs_pc(pre, post)
        },
        Instruction::Xor(x, y) => {
            &&& post.v@ == pre.v@.update(x as int, pre.v@[x as int] ^ pre.v@[y as int])
            &&& post.pc == pre.pc + 2
            &&& frame_regs_pc(pre, post)
        },
        Instruction::Add(x, y) => {
            let sum = pre.v@[x as int] + pre.v@[y as int];
            &&& post.v@ == pre.v@.update(x as int, (sum % 256) as u8).update(
                15,
                if sum > 255 {
                    1u8
                } else {
                    0u8
                },
            )
            &&& post.pc == pre.pc + 2
            &&& frame_regs_pc(pre, post)
        },
        Instruction::Sub(x, y) => {
            &&& post.v@ == pre.v@.update(
                x as int,
                wrap_sub_byte(pre.v@[x as int], pre.v@[y as int]),
            ).update(
                15,
                if pre.v@[x as int] >= pre.v@[y as int] {
                    1u8
                } else {
                    0u8
                },
            )
            &&& post.pc == pre.pc + 2
            &&& frame_regs_pc(pre, post)
        },
        Instruction::Shr(x, y) => {
            &&& post.v@ == pre.v@.update(x as int, pre.v@[y as int] >> 1u8).update(
                15,
                pre.v@[y as int] & 1,
            )
            &&& post.pc == pre.pc + 2
            &&& frame_regs_pc(pre, post)
        },
        Instruction::SubFrom(x, y) => {
            &&& post.v@ == pre.v@.update(
                x as int,
                wrap_sub_byte(pre.v@[y as int], pre.v@[x as int]),
            ).update(
                15,
                if pre.v@[y as int] >= pre.v@[x as int] {
                    1u8
                } else {
                    0u8
                },
            )
            &&& post.pc == pre.pc + 2
            &&& frame_regs_pc(pre, post)
        },
        Instruction::Shl(x, y) => {
            &&& post.v@ == pre.v@.update(x as int, pre.v@[y as int] << 1u8).update(
                15,
                pre.v@[y as int] & 0x80,
            )
            &&& post.pc == pre.pc + 2
            &&& frame_regs_pc(pre, post)
        },
        Instruction::SkipNeReg(x, y) => {
            &&& post.pc == pre.pc + if pre.v@[x as int] != pre.v@[y as int] {
                4int
            } else {
                2int
            }
            &&& frame_pc(pre, post)
        },
        Instruction::SetIndex(nnn) => {
            &&& post.i == nnn
            &&& post.pc == pre.pc + 2
            &&& frame_index_pc(pre, post)
        },
        Instruction::JumpOffset(nnn) => {
            &&& post.pc == nnn + pre.v@[0] + 2
            &&& frame_pc(pre, post)
        },
        Instruction::Random(x, kk) => {
            &&& post.v@ == pre.v@.update(x as int, rb & kk)
            &&& post.pc == pre.pc + 2
            &&& frame_regs_pc(pre, post)
        },
        Instruction::Draw(x, y, n) => {
            let x0 = pre.v@[x as int] as int;
            let y0 = pre.v@[y as int] as int;
            let coll = draw_collides(pre.display@, pre.memory@, pre.i as int, x0, y0, n as int);
            &&& post.display@ == draw_rows(pre.display@, pre.memory@, pre.i as int, x0, y0, n as int)
            &&& post.v@ == pre.v@.update(
                15,
                if coll {
                    1u8
                } else {
                    0u8
                },
            )
            &&& post.drawflag
            &&& post.pc == pre.pc + 2
            &&& frame_screen_regs_pc(pre, post)
        },
        Instruction::SkipKey(x) => {
            &&& post.pc == pre.pc + if pre.keypad@[pre.v@[x as int] as int] {
                4int
            } else {
                2int
            }
            &&& frame_pc(pre, post)
        },
        Instruction::SkipNoKey(x) => {
            let key = pre.v@[x as int] as int;
            &&& if pre.keypad@[key] {
                post.keypad@ == pre.keypad@.update(key, false) && post.pc == pre.pc + 2
            } else {
                post.keypad@ == pre.keypad@ && post.pc == pre.pc + 4
            }
            &&& frame_keys_pc(pre, post)
        },
        Instruction::ReadDelay(x) => {
            &&& post.v@ == pre.v@.update(x as int, pre.delay)
            &&& post.pc == pre.pc + 2
            &&& frame_regs_pc(pre, post)
        },
        Instruction::WaitKey(x) => {
            &&& if any_key_pressed(pre) {
                post.v@ == pre.v@.update(x as int, 1u8) && post.pc == pre.pc + 2
            } else {
                post.v@ == pre.v@ && post.pc == pre.pc
            }
            &&& frame_regs_pc(pre, post)
        },
        Instruction::SetDelay(x) => {
            &&& post.delay == pre.v@[x as int]
            &&& post.sound == pre.sound
            &&& post.pc == pre.pc + 2
            &&& frame_timers_pc(pre, post)
        },
        Instruction::SetSound(x) => {
            &&& post.sound == pre.v@[x as int]
            &&& post.delay == pre.delay
            &&& post.pc == pre.pc + 2
            &&& frame_timers_pc(pre, post)
        },
        Instruction::AddIndex(x) => {
            &&& post.i == wrap_add_word(pre.i, pre.v@[x as int] as u16)
            &&& post.pc == pre.pc + 2
            &&& frame_index_pc(pre, post)
        },
        Instruction::Glyph(x) => {
            &&& post.i == pre.v@[x as int] * 5
            &&& post.pc == pre.pc + 2
            &&& frame_index_pc(pre, post)
        },
        Instruction::Bcd(x) => {
            let vx = pre.v@[x as int];
            &&& post.memory@ == pre.memory@.update(pre.i as int, (vx / 100) as u8).update(
                pre.i as int + 1,
                ((vx / 10) % 10) as u8,
            ).update(pre.i as int + 2, ((vx % 100) % 10) as u8)
            &&& post.pc == pre.pc + 2
            &&& frame_mem_pc(pre, post)
        },
        Instruction::StoreRegs(x) => {
            &&& post.memory@.len() == MEMORY_SIZE
            &&& forall|k: int|
                0 <= k < MEMORY_SIZE ==> post.memory@[k] == (if pre.i <= k < pre.i + x {
                    pre.v@[k - pre.i]
                } else {
                    pre.memory@[k]
                })
            &&& post.pc == pre.pc + 2
            &&& frame_mem_pc(pre, post)
        },
        Instruction::LoadRegs(x) => {
            &&& post.v@.len() == 16
            &&& forall|k: int|
                0 <= k < 16 ==> post.v@[k] == (if k < x {
                    pre.memory@[pre.i + k]
                } else {
                    pre.v@[k]
                })
            &&& post.pc == pre.pc + 2
            &&& frame_regs_pc(pre, post)
        },
    }
}

impl VM {
    /// Clear-screen: every framebuffer cell goes dark, everything else,
    /// the registers in particular, is untouched.
    pub fn _0x00e0(&mut self)
        requires
            old(self).wf(),
            old(self).pc + 1 < MEMORY_SIZE,
        ensures
            final(self).wf(),
            final(self).op == old(self).op,
            effect(*old(self), *final(self), Instruction::Cls, 0),
    {
        let mut idx: usize = 0;
        while idx < DISPLAY_SIZE
            invariant
                0 <= idx <= DISPLAY_SIZE,
                self.display@.len() == DISPLAY_SIZE,
                forall|k: int| 0 <= k < idx ==> self.display@[k] == 0,
                self.op == old(self).op,
                self.v@ == old(self).v@,
                self.i == old(self).i,
                self.pc == old(self).pc,
                self.stack@ == old(self).stack@,
                self.sp == old(self).sp,
                self.delay == old(self).delay,
                self.sound == old(self).sound,
                self.memory@ == old(self).memory@,
                self.drawflag == old(self).drawflag,
                self.keypad@ == old(self).keypad@,
                old(self).wf(),
            decreases DISPLAY_SIZE - idx,
        {
            self.display[idx] = 0;
            idx = idx + 1;
        }
        self.drawflag = true;
        self.pc = self.pc + 2;
    }

    /// Return: the program counter comes back to the instruction after the
    /// call on top of the stack; underflow is an explicit error.
    pub fn _0x00ee(&mut self) -> (r: Result<(), VmError>)
        requires
            old(self).wf(),
        ensures
            final(self).wf(),
            final(self).op == old(self).op,
            match step_err(*old(self), Instruction::Ret) {
                Some(e) => r == Err::<(), VmError>(e) && vm_unchanged(*old(self), *final(self)),
                None => r == Ok::<(), VmError>(()) && effect(
                    *old(self),
                    *final(self),
                    Instruction::Ret,
                    0,
                ),
            },
    {
        if self.sp == 0 {
            return Err(VmError::StackUnderflow);
        }
        let top: u16 = self.stack[self.sp as usize];
        self.pc = ((top as u32 + 2) % 0x10000) as u16;
        self.sp = self.sp - 1;
        Ok(())
    }

    /// Unconditional jump.
    pub fn _1nnn(&mut self, nnn: u16)
        requires
            old(self).wf(),
        ensures
            final(self).wf(),
            final(self).op == old(self).op,
            effect(*old(self), *final(self), Instruction::Jump(nnn), 0),
    {
        self.pc = nnn;
    }

    /// Call: push the current program counter, jump to `nnn`; a full stack
    /// is an explicit error.
    pub fn _2nnn(&mut self, nnn: u16) -> (r: Result<(), VmError>)
        requires
            old(self).wf(),
        ensures
            final(self).wf(),
            final(self).op == old(self).op,
            match step_err(*old(self), Instruction::Call(nnn)) {
                Some(e) => r == Err::<(), VmError>(e) && vm_unchanged(*old(self), *final(self)),
                None => r == Ok::<(), VmError>(()) && effect(
                    *old(self),
                    *final(self),
                    Instruction::Call(nnn),
                    0,
                ),
            },
    {
        if self.sp >= 15 {
            return Err(VmError::StackOverflow);
        }
        self.sp = self.sp + 1;
        let pc: u16 = self.pc;
        self.stack[self.sp as usize] = pc;
        self.pc = nnn;
        Ok(())
    }

    /// Skip the next instruction when `v[x]` equals the immediate.
    pub fn _3xkk(&mut self, x: u8, kk: u8)
        requires
            old(self).wf(),
            x < 16,
            old(self).pc + 1 < MEMORY_SIZE,
        ensures
            final(self).wf(),
            final(self).op == old(self).op,
            effect(*old(self), *final(self), Instruction::SkipEqImm(x, kk), 0),
    {
        if self.v[x as usize] == kk {
            self.pc = self.pc + 4;
        } else {
            self.pc = self.pc + 2;
        }
    }

    /// Skip the next instruction when `v[x]` differs from the immediate.
    pub fn _4xkk(&mut self, x: u8, kk: u8)
        requires
            old(self).wf(),
            x < 16,
            old(self).pc + 1 < MEMORY_SIZE,
        ensures
            final(self).wf(),
            final(self).op == old(self).op,
            effect(*old(self), *final(self), Instruction::SkipNeImm(x, kk), 0),
    {
        if self.v[x as usize] != kk {
            self.pc = self.pc + 4;
        } else {
            self.pc = self.pc + 2;
        }
    }

    /// Skip the next instruction when the two registers hold equal values.
    pub fn _5xy0(&mut self, x: u8, y: u8)
        requires
            old(self).wf(),
            x < 16,
            y < 16,
            old(self).pc + 1 < MEMORY_SIZE,
        ensures
            final(self).wf(),
            final(self).op == old(self).op,
            effect(*old(self), *final(self), Instruction::SkipEqReg(x, y), 0),
    {
        if self.v[x as usize] == self.v[y as usize] {
            self.pc = self.pc + 4;
        } else {
            self.pc = self.pc + 2;
        }
    }

    /// Load immediate: `v[x] = kk`.
    pub fn _6xkk(&mut self, x: u8, kk: u8)
        requires
            old(self).wf(),
            x < 16,
            old(self).pc + 1 < MEMORY_SIZE,
        ensures
            final(self).wf(),
            final(self).op == old(self).op,
            effect(*old(self), *final(self), Instruction::LoadImm(x, kk), 0),
    {
        self.v[x as usize] = kk;
        self.pc = self.pc + 2;
    }

    /// Add immediate, wrapping modulo 256, no flag.
    pub fn _7xkk(&mut self, x: u8, kk: u8)
        requires
            old(self).wf(),
            x < 16,
            old(self).pc + 1 < MEMORY_SIZE,
        ensures
            final(self).wf(),
            final(self).op == old(self).op,
            effect(*old(self), *final(self), Instruction::AddImm(x, kk), 0),
    {
        let vx: u8 = self.v[x as usize];
        let res: u8 = ((vx as u16 + kk as u16) % 256) as u8;
        self.v[x as usize] = res;
        self.pc = self.pc + 2;
    }

    /// `v[x] = v[y]`.
    pub fn _8xy0(&mut self, x: u8, y: u8)
        requires
            old(self).wf(),
            x < 16,
            y < 16,
            old(self).pc + 1 < MEMORY_SIZE,
        ensures
            final(self).wf(),
            final(self).op == old(self).op,
            effect(*old(self), *final(self), Instruction::Assign(x, y), 0),
    {
        let vy: u8 = self.v[y as usize];
        self.v[x as usize] = vy;
        self.pc = self.pc + 2;
    }

    /// `v[x] |= v[y]`.
    pub fn _8xy1(&mut self, x: u8, y: u8)
        requires
            old(self).wf(),
            x < 16,
            y < 16,
            old(self).pc + 1 < MEMORY_SIZE,
        ensures
            final(self).wf(),
            final(self).op == old(self).op,
            effect(*old(self), *final(self), Instruction::Or(x, y), 0),
    {
        let vx: u8 = self.v[x as usize];
        let vy: u8 = self.v[y as usize];
        self.v[x as usize] = vx | vy;
        self.pc = self.pc + 2;
    }

    /// `v[x] &= v[y]`.
    pub fn _8xy2(&mut self, x: u8, y: u8)
        requires
            old(self).wf(),
            x < 16,
            y < 16,
            old(self).pc + 1 < MEMORY_SIZE,
        ensures
            final(self).wf(),
            final(self).op == old(self).op,
            effect(*old(self), *final(self), Instruction::And(x, y), 0),
    {
        let vx: u8 = self.v[x as usize];
        let vy: u8 = self.v[y as usize];
        self.v[x as usize] = vx & vy;
        self.pc = self.pc + 2;
    }

    /// `v[x] ^= v[y]`.
    pub fn _8xy3(&mut self, x: u8, y: u8)
        requires
            old(self).wf(),
            x < 16,
            y < 16,
            old(self).pc + 1 < MEMORY_SIZE,
        ensures
            final(self).wf(),
            final(self).op == old(self).op,
            effect(*old(self), *final(self), Instruction::Xor(x, y), 0),
    {
        let vx: u8 = self.v[x as usize];
        let vy: u8 = self.v[y as usize];
        self.v[x as usize] = vx ^ vy;
        self.pc = self.pc + 2;
    }

    /// `v[x] += v[y]`; the flag register reports the carry and, being the
    /// flag, is written last.
    pub fn _8xy4(&mut self, x: u8, y: u8)
        requires
            old(self).wf(),
            x < 16,
            y < 16,
            old(self).pc + 1 < MEMORY_SIZE,
        ensures
            final(self).wf(),
            final(self).op == old(self).op,
            effect(*old(self), *final(self), Instruction::Add(x, y), 0),
    {
        let vx: u8 = self.v[x as usize];
        let vy: u8 = self.v[y as usize];
        let sum: u16 = vx as u16 + vy as u16;
        let res: u8 = (sum % 256) as u8;
        let flag: u8 = if sum > 255 {
            1
        } else {
            0
        };
        self.v[x as usize] = res;
        self.v[15] = flag;
        self.pc = self.pc + 2;
    }

    /// `v[x] -= v[y]`; the flag register reports "no borrow" and is
    /// written last.
    pub fn _8xy5(&mut self, x: u8, y: u8)
        requires
            old(self).wf(),
            x < 16,
            y < 16,
            old(self).pc + 1 < MEMORY_SIZE,
        ensures
            final(self).wf(),
            final(self).op == old(self).op,
            effect(*old(self), *final(self), Instruction::Sub(x, y), 0),
    {
        let vx: u8 = self.v[x as usize];
        let vy: u8 = self.v[y as usize];
        let res: u8 = if vx >= vy {
            vx - vy
        } else {
            (256 - (vy - vx) as u16) as u8
        };
        let flag: u8 = if vx >= vy {
            1
        } else {
            0
        };
        self.v[x as usize] = res;
        self.v[15] = flag;
        self.pc = self.pc + 2;
    }

    /// `v[x] = v[y] >> 1`; the flag takes the bit shifted out of `v[y]`,
    /// read before the shift, and is written last.
    pub fn _8xy6(&mut self, x: u8, y: u8)
        requires
            old(self).wf(),
            x < 16,
            y < 16,
            old(self).pc + 1 < MEMORY_SIZE,
        ensures
            final(self).wf(),
            final(self).op == old(self).op,
            effect(*old(self), *final(self), Instruction::Shr(x, y), 0),
    {
        let vy: u8 = self.v[y as usize];
        self.v[x as usize] = vy >> 1u8;
        self.v[15] = vy & 1;
        self.pc = self.pc + 2;
    }

    /// `v[x] = v[y] - v[x]`; the flag register reports "no borrow" and is
    /// written last.
    pub fn _8xy7(&mut self, x: u8, y: u8)
        requires
            old(self).wf(),
            x < 16,
            y < 16,
            old(self).pc + 1 < MEMORY_SIZE,
        ensures
            final(self).wf(),
            final(self).op == old(self).op,
            effect(*old(self), *final(self), Instruction::SubFrom(x, y), 0),
    {
        let vx: u8 = self.v[x as usize];
        let vy: u8 = self.v[y as usize];
        let res: u8 = if vy >= vx {
            vy - vx
        } else {
            (256 - (vx - vy) as u16) as u8
        };
        let flag: u8 = if vy >= vx {
            1
        } else {
            0
        };
        self.v[x as usize] = res;
        self.v[15] = flag;
        self.pc = self.pc + 2;
    }

    /// `v[x] = v[y] << 1`; the flag takes the high bit of `v[y]`, read
    /// before the shift and kept unshifted, and is written last.
    pub fn _8xye(&mut self, x: u8, y: u8)
        requires
            old(self).wf(),
            x < 16,
            y < 16,
            old(self).pc + 1 < MEMORY_SIZE,
        ensures
            final(self).wf(),
            final(self).op == old(self).op,
            effect(*old(self), *final(self), Instruction::Shl(x, y), 0),
    {
        let vy: u8 = self.v[y as usize];
        self.v[x as usize] = vy << 1u8;
        self.v[15] = vy & 0x80;
        self.pc = self.pc + 2;
    }

    /// Skip the next instruction when the two registers differ.
    pub fn _9xy0(&mut self, x: u8, y: u8)
        requires
            old(self).wf(),
            x < 16,
            y < 16,
            old(self).pc + 1 < MEMORY_SIZE,
        ensures
            final(self).wf(),
            final(self).op == old(self).op,
            effect(*old(self), *final(self), Instruction::SkipNeReg(x, y), 0),
    {
        if self.v[x as usize] != self.v[y as usize] {
            self.pc = self.pc + 4;
        } else {
            self.pc = self.pc + 2;
        }
    }

    /// `index = nnn`.
    pub fn _annn(&mut self, nnn: u16)
        requires
            old(self).wf(),
            old(self).pc + 1 < MEMORY_SIZE,
        ensures
            final(self).wf(),
            final(self).op == old(self).op,
            effect(*old(self), *final(self), Instruction::SetIndex(nnn), 0),
    {
        self.i = nnn;
        self.pc = self.pc + 2;
    }

    /// Jump with offset: the program counter lands at `nnn + v[0] + 2`,
    /// the documented quirk of this machine's jump-with-offset.
    pub fn _bnnn(&mut self, nnn: u16)
        requires
            old(self).wf(),
            nnn <= 0xFFF,
        ensures
            final(self).wf(),
            final(self).op == old(self).op,
            effect(*old(self), *final(self), Instruction::JumpOffset(nnn), 0),
    {
        let v0: u8 = self.v[0];
        self.pc = nnn + v0 as u16;
        self.pc = self.pc + 2;
    }

    /// `v[x] = rb & kk` for a byte `rb` handed in by the caller; this is
    /// the whole deterministic remainder of the random instruction, exact
    /// for every value of `rb`.
    pub fn apply_random(&mut self, x: u8, kk: u8, rb: u8)
        requires
            old(self).wf(),
            x < 16,
            old(self).pc + 1 < MEMORY_SIZE,
        ensures
            final(self).wf(),
            final(self).op == old(self).op,
            effect(*old(self), *final(self), Instruction::Random(x, kk), rb),
    {
        self.v[x as usize] = rb & kk;
        self.pc = self.pc + 2;
    }

    /// Random: `v[x] = random byte & kk`. Some byte was drawn; nothing
    /// more can be said of it.
    pub fn _cxkk(&mut self, x: u8, kk: u8)
        requires
            old(self).wf(),
            x < 16,
            old(self).pc + 1 < MEMORY_SIZE,
        ensures
            final(self).wf(),
            final(self).op == old(self).op,
            exists|rb: u8| effect(*old(self), *final(self), Instruction::Random(x, kk), rb),
    {
        let rb: u8 = random_byte();
        self.apply_random(x, kk, rb);
    }

    /// Skip the next instruction when key `v[x]` is pressed; a register
    /// value that names no key is an explicit error.
    pub fn _ex9e(&mut self, x: u8) -> (r: Result<(), VmError>)
        requires
            old(self).wf(),
            x < 16,
            old(self).pc + 1 < MEMORY_SIZE,
        ensures
            final(self).wf(),
            final(self).op == old(self).op,
            match step_err(*old(self), Instruction::SkipKey(x)) {
                Some(e) => r == Err::<(), VmError>(e) && vm_unchanged(*old(self), *final(self)),
                None => r == Ok::<(), VmError>(()) && effect(
                    *old(self),
                    *final(self),
                    Instruction::SkipKey(x),
                    0,
                ),
            },
    {
        let key: u8 = self.v[x as usize];
        if key >= 16 {
            return Err(VmError::KeyOutOfRange(key));
        }
        if self.keypad[key as usize] {
            self.pc = self.pc + 4;
        } else {
            self.pc = self.pc + 2;
        }
        Ok(())
    }

    /// Skip the next instruction when key `v[x]` is not pressed; when it
    /// is, its latch is cleared instead (the one key-skip that consumes
    /// the key).
    pub fn _exa1(&mut self, x: u8) -> (r: Result<(), VmError>)
        requires
            old(self).wf(),
            x < 16,
            old(self).pc + 1 < MEMORY_SIZE,
        ensures
            final(self).wf(),
            final(self).op == old(self).op,
            match step_err(*old(self), Instruction::SkipNoKey(x)) {
                Some(e) => r == Err::<(), VmError>(e) && vm_unchanged(*old(self), *final(self)),
                None => r == Ok::<(), VmError>(()) && effect(
                    *old(self),
                    *final(self),
                    Instruction::SkipNoKey(x),
                    0,
                ),
            },
    {
        let key: u8 = self.v[x as usize];
        if key >= 16 {
            return Err(VmError::KeyOutOfRange(key));
        }
        if !self.keypad[key as usize] {
            self.pc = self.pc + 4;
        } else {
            self.keypad[key as usize] = false;
            self.pc = self.pc + 2;
        }
        Ok(())
    }

    /// `v[x] = delay timer`.
    pub fn _fx07(&mut self, x: u8)
        requires
            old(self).wf(),
            x < 16,
            old(self).pc + 1 < MEMORY_SIZE,
        ensures
            final(self).wf(),
            final(self).op == old(self).op,
            effect(*old(self), *final(self), Instruction::ReadDelay(x), 0),
    {
        let d: u8 = self.delay;
        self.v[x as usize] = d;
        self.pc = self.pc + 2;
    }

    /// Wait for a key: when some key is pressed, record it in `v[x]` and
    /// move on; when none is, leave the program counter in place so the
    /// driver re-runs this instruction next cycle (a cooperative busy
    /// wait, not an error).
    pub fn _fx0a(&mut self, x: u8)
        requires
            old(self).wf(),
            x < 16,
            old(self).pc + 1 < MEMORY_SIZE,
        ensures
            final(self).wf(),
            final(self).op == old(self).op,
            effect(*old(self), *final(self), Instruction::WaitKey(x), 0),
    {
        let mut k: usize = 0;
        while k < 16
            invariant
                self.wf(),
                0 <= k <= 16,
                *self == *old(self),
                x < 16,
                old(self).pc + 1 < MEMORY_SIZE,
                forall|j: int| 0 <= j < k ==> !self.keypad@[j],
            decreases 16 - k,
        {
            if self.keypad[k] {
                self.v[x as usize] = 1;
                self.pc = self.pc + 2;
                return ;
            }
            k = k + 1;
        }
    }

    /// `delay timer = v[x]`.
    pub fn _fx15(&mut self, x: u8)
        requires
            old(self).wf(),
            x < 16,
            old(self).pc + 1 < MEMORY_SIZE,
        ensures
            final(self).wf(),
            final(self).op == old(self).op,
            effect(*old(self), *final(self), Instruction::SetDelay(x), 0),
    {
        let vx: u8 = self.v[x as usize];
        self.delay = vx;
        self.pc = self.pc + 2;
    }

    /// `sound timer = v[x]`.
    pub fn _fx18(&mut self, x: u8)
        requires
            old(self).wf(),
            x < 16,
            old(self).pc + 1 < MEMORY_SIZE,
        ensures
            final(self).wf(),
            final(self).op == old(self).op,
            effect(*old(self), *final(self), Instruction::SetSound(x), 0),
    {
        let vx: u8 = self.v[x as usize];
        self.sound = vx;
        self.pc = self.pc + 2;
    }

    /// `index += v[x]`, wrapping modulo 2^16, no flag.
    pub fn _fx1e(&mut self, x: u8)
        requires
            old(self).wf(),
            x < 16,
            old(self).pc + 1 < MEMORY_SIZE,
        ensures
            final(self).wf(),
            final(self).op == old(self).op,
            effect(*old(self), *final(self), Instruction::AddIndex(x), 0),
    {
        let vx: u8 = self.v[x as usize];
        self.i = ((self.i as u32 + vx as u32) % 0x10000) as u16;
        self.pc = self.pc + 2;
    }

    /// `index = v[x] * 5`: the address of the glyph for digit `v[x]` in
    /// the built-in font, five bytes per glyph.
    pub fn _fx29(&mut self, x: u8)
        requires
            old(self).wf(),
            x < 16,
            old(self).pc + 1 < MEMORY_SIZE,
        ensures
            final(self).wf(),
            final(self).op == old(self).op,
            effect(*old(self), *final(self), Instruction::Glyph(x), 0),
    {
        let vx: u8 = self.v[x as usize];
        self.i = vx as u16 * 5;
        self.pc = self.pc + 2;
    }

    /// Store the three decimal digits of `v[x]` at `memory[index..index+3)`,
    /// hundreds first; reaching past the end of memory is an explicit
    /// error raised before anything is written.
    pub fn _fx33(&mut self, x: u8) -> (r: Result<(), VmError>)
        requires
            old(self).wf(),
            x < 16,
            old(self).pc + 1 < MEMORY_SIZE,
        ensures
            final(self).wf(),
            final(self).op == old(self).op,
            match step_err(*old(self), Instruction::Bcd(x)) {
                Some(e) => r == Err::<(), VmError>(e) && vm_unchanged(*old(self), *final(self)),
                None => r == Ok::<(), VmError>(()) && effect(
                    *old(self),
                    *final(self),
                    Instruction::Bcd(x),
                    0,
                ),
            },
    {
        if self.i as usize + 3 > MEMORY_SIZE {
            return Err(VmError::MemoryOutOfBounds(self.i as usize + 3));
        }
        let vx: u8 = self.v[x as usize];
        let base: usize = self.i as usize;
        self.memory[base] = vx / 100;
        self.memory[base + 1] = (vx / 10) % 10;
        self.memory[base + 2] = (vx % 100) % 10;
        self.pc = self.pc + 2;
        Ok(())
    }

    /// Copy `v[0..x)` into `memory[index..index+x)` (exclusive of `v[x]`
    /// itself); reaching past the end of memory is an explicit error
    /// raised before anything is written.
    pub fn _fx55(&mut self, x: u8) -> (r: Result<(), VmError>)
        requires
            old(self).wf(),
            x < 16,
            old(self).pc + 1 < MEMORY_SIZE,
        ensures
            final(self).wf(),
            final(self).op == old(self).op,
            match step_err(*old(self), Instruction::StoreRegs(x)) {
                Some(e) => r == Err::<(), VmError>(e) && vm_unchanged(*old(self), *final(self)),
                None => r == Ok::<(), VmError>(()) && effect(
                    *old(self),
                    *final(self),
                    Instruction::StoreRegs(x),
                    0,
                ),
            },
    {
        if x > 0 && self.i as usize + x as usize > MEMORY_SIZE {
            return Err(VmError::MemoryOutOfBounds(self.i as usize + x as usize));
        }
        let base: usize = self.i as usize;
        let mut k: usize = 0;
        while k < x as usize
            invariant
                self.wf(),
                0 <= k <= x,
                x < 16,
                base == old(self).i,
                x > 0 ==> base + x <= MEMORY_SIZE,
                self.op == old(self).op,
                self.v@ == old(self).v@,
                self.i == old(self).i,
                self.pc == old(self).pc,
                self.stack@ == old(self).stack@,
                self.sp == old(self).sp,
                self.delay == old(self).delay,
                self.sound == old(self).sound,
                self.display@ == old(self).display@,
                self.drawflag == old(self).drawflag,
                self.keypad@ == old(self).keypad@,
                self.memory@.len() == MEMORY_SIZE,
                forall|j: int|
                    0 <= j < MEMORY_SIZE ==> self.memory@[j] == (if base <= j < base + k {
                        old(self).v@[j - base]
                    } else {
                        old(self).memory@[j]
                    }),
            decreases x - k,
        {
            let val: u8 = self.v[k];
            self.memory[base + k] = val;
            k = k + 1;
        }
        self.pc = self.pc + 2;
        Ok(())
    }

    /// Copy `memory[index..index+x)` into `v[0..x)` (exclusive of `v[x]`
    /// itself); reaching past the end of memory is an explicit error
    /// raised before anything is written.
    pub fn _fx65(&mut self, x: u8) -> (r: Result<(), VmError>)
        requires
            old(self).wf(),
            x < 16,
            old(self).pc + 1 < MEMORY_SIZE,
        ensures
            final(self).wf(),
            final(self).op == old(self).op,
            match step_err(*old(self), Instruction::LoadRegs(x)) {
                Some(e) => r == Err::<(), VmError>(e) && vm_unchanged(*old(self), *final(self)),
                None => r == Ok::<(), VmError>(()) && effect(
                    *old(self),
                    *final(self),
                    Instruction::LoadRegs(x),
                    0,
                ),
            },
    {
        if x > 0 && self.i as usize + x as usize > MEMORY_SIZE {
            return Err(VmError::MemoryOutOfBounds(self.i as usize + x as usize));
        }
        let base: usize = self.i as usize;
        let mut k: usize = 0;
        while k < x as usize
            invariant
                self.wf(),
                0 <= k <= x,
                x < 16,
                base == old(self).i,
                x > 0 ==> base + x <= MEMORY_SIZE,
                self.op == old(self).op,
                self.i == old(self).i,
                self.pc == old(self).pc,
                self.stack@ == old(self).stack@,
                self.sp == old(self).sp,
                self.delay == old(self).delay,
                self.sound == old(self).sound,
                self.display@ == old(self).display@,
                self.drawflag == old(self).drawflag,
                self.keypad@ == old(self).keypad@,
                self.memory@ == old(self).memory@,
                self.v@.len() == 16,
                forall|j: int|
                    0 <= j < 16 ==> self.v@[j] == (if 0 <= j < k {
                        old(self).memory@[base + j]
                    } else {
                        old(self).v@[j]
                    }),
            decreases x - k,
        {
            let val: u8 = self.memory[base + k];
            self.v[k] = val;
            k = k + 1;
        }
        self.pc = self.pc + 2;
        Ok(())
    }
}

/// Neither the step errors nor the transition relation read the
/// fetched-word field: two states that agree on everything else raise the
/// same error and admit the same transitions.
pub proof fn lemma_step_ignores_op(pre1: VM, pre2: VM, post: VM, ins: Instruction)
    requires
        same_core(pre1, pre2),
    ensures
        step_err(pre1, ins) == step_err(pre2, ins),
        forall|rb: u8| effect(pre1, post, ins, rb) == effect(pre2, post, ins, rb),
{
}

impl VM {
    /// One full cycle: check the fetch invariant, fetch the word at the
    /// program counter big-endian, decode it, and run exactly the decoded
    /// instruction's transition; each failure is the stated typed error
    /// with the machine left as the failure found it (only the fetched
    /// word is recorded once the fetch itself succeeded).
    pub fn emulate_cycle(&mut self) -> (r: Result<(), VmError>)
        requires
            old(self).wf(),
        ensures
            final(self).wf(),
            ({
                let pre = *old(self);
                if pre.pc < PROGRAM_START || pre.pc + 1 >= MEMORY_SIZE {
                    r == Err::<(), VmError>(VmError::PcOutOfBounds(pre.pc)) && vm_unchanged(
                        pre,
                        *final(self),
                    )
                } else {
                    let w = fetch_word(pre);
                    final(self).op == w && match spec_decode(w) {
                        None => r == Err::<(), VmError>(VmError::UnknownOpcode(w)) && same_core(
                            pre,
                            *final(self),
                        ),
                        Some(ins) => match step_err(pre, ins) {
                            Some(e) => r == Err::<(), VmError>(e) && same_core(pre, *final(self)),
                            None => r == Ok::<(), VmError>(()) && exists|rb: u8|
                                effect(pre, *final(self), ins, rb),
                        },
                    }
                }
            }),
    {
        if self.pc < PROGRAM_START as u16 || self.pc as usize + 1 >= MEMORY_SIZE {
            return Err(VmError::PcOutOfBounds(self.pc));
        }
        let hi: u8 = self.memory[self.pc as usize];
        let lo: u8 = self.memory[self.pc as usize + 1];
        self.op = ((hi as u16) << 8u16) | (lo as u16);
        let ghost mid = *self;
        let r = parse_op_code(self);
        proof {
            let pre = *old(self);
            assert(mid.op == fetch_word(pre));
            assert(same_core(mid, pre));
            match spec_decode(mid.op) {
                Some(ins) => {
                    lemma_step_ignores_op(mid, pre, *self, ins);
                },
                None => {},
            }
        }
        r
    }
}

/// Dispatch the already-fetched instruction word `vm.op`: decode it and
/// run exactly one opcode handler; the handler alone moves the program
/// counter. An undecodable word is the stated error with nothing changed.
pub fn parse_op_code(vm: &mut VM) -> (r: Result<(), VmError>)
    requires
        old(vm).wf(),
        old(vm).pc + 1 < MEMORY_SIZE,
    ensures
        final(vm).wf(),
        final(vm).op == old(vm).op,
        match spec_decode(old(vm).op) {
            None => r == Err::<(), VmError>(VmError::UnknownOpcode(old(vm).op)) && vm_unchanged(
                *old(vm),
                *final(vm),
            ),
            Some(ins) => match step_err(*old(vm), ins) {
                Some(e) => r == Err::<(), VmError>(e) && vm_unchanged(*old(vm), *final(vm)),
                None => r == Ok::<(), VmError>(()) && exists|rb: u8|
                    effect(*old(vm), *final(vm), ins, rb),
            },
        },
{
    let op: u16 = vm.op;
    let decoded = decode(op);
    let ins = match decoded {
        Some(ins) => ins,
        None => {
            return Err(VmError::UnknownOpcode(op));
        },
    };
    let r: Result<(), VmError> = match ins {
        Instruction::Cls => {
            vm._0x00e0();
            Ok(())
        },
        Instruction::Ret => vm._0x00ee(),
        Instruction::Jump(nnn) => {
            vm._1nnn(nnn);
            Ok(())
        },
        Instruction::Call(nnn) => vm._2nnn(nnn),
        Instruction::SkipEqImm(x, kk) => {
            vm._3xkk(x, kk);
            Ok(())
        },
        Instruction::SkipNeImm(x, kk) => {
            vm._4xkk(x, kk);
            Ok(())
        },
        Instruction::SkipEqReg(x, y) => {
            vm._5xy0(x, y);
            Ok(())
        },
        Instruction::LoadImm(x, kk) => {
            vm._6xkk(x, kk);
            Ok(())
        },
        Instruction::AddImm(x, kk) => {
            vm._7xkk(x, kk);
            Ok(())
        },
        Instruction::Assign(x, y) => {
            vm._8xy0(x, y);
            Ok(())
        },
        Instruction::Or(x, y) => {
            vm._8xy1(x, y);
            Ok(())
        },
        Instruction::And(x, y) => {
            vm._8xy2(x, y);
            Ok(())
        },
        Instruction::Xor(x, y) => {
            vm._8xy3(x, y);
            Ok(())
        },
        Instruction::Add(x, y) => {
            vm._8xy4(x, y);
            Ok(())
        },
        Instruction::Sub(x, y) => {
            vm._8xy5(x, y);
            Ok(())
        },
        Instruction::Shr(x, y) => {
            vm._8xy6(x, y);
            Ok(())
        },
        Instruction::SubFrom(x, y) => {
            vm._8xy7(x, y);
            Ok(())
        },
        Instruction::Shl(x, y) => {
            vm._8xye(x, y);
            Ok(())
        },
        Instruction::SkipNeReg(x, y) => {
            vm._9xy0(x, y);
            Ok(())
        },
        Instruction::SetIndex(nnn) => {
            vm._annn(nnn);
            Ok(())
        },
        Instruction::JumpOffset(nnn) => {
            vm._bnnn(nnn);
            Ok(())
        },
        Instruction::Random(x, kk) => {
            vm._cxkk(x, kk);
            Ok(())
        },
        Instruction::Draw(x, y, n) => vm._dxyn(x, y, n),
        Instruction::SkipKey(x) => vm._ex9e(x),
        Instruction::SkipNoKey(x) => vm._exa1(x),
        Instruction::ReadDelay(x) => {
            vm._fx07(x);
            Ok(())
        },
        Instruction::WaitKey(x) => {
            vm._fx0a(x);
            Ok(())
        },
        Instruction::SetDelay(x) => {
            vm._fx15(x);
            Ok(())
        },
        Instruction::SetSound(x) => {
            vm._fx18(x);
            Ok(())
        },
        Instruction::AddIndex(x) => {
            vm._fx1e(x);
            Ok(())
        },
        Instruction::Glyph(x) => {
            vm._fx29(x);
            Ok(())
        },
        Instruction::Bcd(x) => vm._fx33(x),
        Instruction::StoreRegs(x) => vm._fx55(x),
        Instruction::LoadRegs(x) => vm._fx65(x),
    };
    r
}

/// Relies on rand::random: a byte from the thread-local generator. Its
/// value depends on the generator's state, so nothing is promised of it.
#[verifier::external_body]
fn random_byte() -> u8 {
    rand::random::<u8>()
}

} // verus!
