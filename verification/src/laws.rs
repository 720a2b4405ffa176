use vstd::prelude::*;

use crate::cycle::{effect, step_err};
use crate::decode::Instruction;
use crate::vm::{MEMORY_SIZE, VM};

verus! {

/// Law: load immediate always leaves exactly the immediate in the named
/// register and advances the program counter by one instruction, for every
/// immediate and every register index.
pub proof fn lemma_load_immediate(pre: VM, post: VM, x: u8, kk: u8)
    requires
        pre.wf(),
        x < 16,
        effect(pre, post, Instruction::LoadImm(x, kk), 0),
    ensures
        post.v@[x as int] == kk,
        post.pc == pre.pc + 2,
{
}

/// Law: clear-screen turns every framebuffer cell off and leaves the whole
/// register file, the index register and the call stack untouched.
pub proof fn lemma_clear_screen(pre: VM, post: VM)
    requires
        pre.wf(),
        effect(pre, post, Instruction::Cls, 0),
    ensures
        forall|k: int| 0 <= k < 2048 ==> post.display@[k] == 0,
        post.v@ == pre.v@,
        post.i == pre.i,
        post.stack@ == pre.stack@,
        post.sp == pre.sp,
{
}

/// Law: instruction execution never counts a timer down. Only the
/// set-delay instruction moves the delay timer and only the set-sound
/// instruction moves the sound timer, so the timers' countdown comes from
/// the external tick alone, however many instructions run in between.
pub proof fn lemma_timers_untouched_by_instructions(pre: VM, post: VM, ins: Instruction, rb: u8)
    requires
        effect(pre, post, ins, rb),
    ensures
        !(ins matches Instruction::SetDelay(_)) ==> post.delay == pre.delay,
        !(ins matches Instruction::SetSound(_)) ==> post.sound == pre.sound,
{
}

/// Law: storing `v[0..x)` to memory and loading the same span back
/// restores those registers exactly, whatever happened to the register
/// file in between, provided the index register and memory were left
/// alone. Register `x` itself is outside the span on both sides.
pub proof fn lemma_store_load_round_trip(s0: VM, s1: VM, s2: VM, s3: VM, x: u8)
    requires
        s0.wf(),
        x < 16,
        s0.i + x <= MEMORY_SIZE,
        effect(s0, s1, Instruction::StoreRegs(x), 0),
        s2.wf(),
        s2.i == s0.i,
        s2.memory@ == s1.memory@,
        effect(s2, s3, Instruction::LoadRegs(x), 0),
    ensures
        forall|k: int| 0 <= k < x ==> s3.v@[k] == s0.v@[k],
{
    assert forall|k: int| 0 <= k < x implies s3.v@[k] == s0.v@[k] by {
        assert(s3.v@[k] == s2.memory@[s2.i + k]);
        assert(s1.memory@[s0.i + k] == s0.v@[k]);
    }
}

/// Law: a call followed by a return brings the program counter to the
/// instruction after the call and restores the stack pointer to its
/// pre-call value.
pub proof fn lemma_call_return(s0: VM, s1: VM, s2: VM, nnn: u16)
    requires
        s0.wf(),
        s0.sp < 15,
        s0.pc + 2 < 0x10000,
        effect(s0, s1, Instruction::Call(nnn), 0),
        effect(s1, s2, Instruction::Ret, 0),
    ensures
        s2.pc == s0.pc + 2,
        s2.sp == s0.sp,
{
    assert(s1.stack@[s1.sp as int] == s0.pc);
}

/// Law: a successful call never errors out of a following return: the
/// stack pointer after a call is a valid, non-zero slot.
pub proof fn lemma_return_after_call_succeeds(s0: VM, s1: VM, nnn: u16)
    requires
        s0.wf(),
        s0.sp < 15,
        effect(s0, s1, Instruction::Call(nnn), 0),
    ensures
        step_err(s1, Instruction::Ret) is None,
{
}

} // verus!
