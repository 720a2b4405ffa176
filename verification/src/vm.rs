use vstd::prelude::*;

use crate::error::VmError;

verus! {

/// Total bytes of addressable memory.
pub const MEMORY_SIZE: usize = 4096;
/// First address of the program region; everything below is reserved.
pub const PROGRAM_START: usize = 512;
/// Width of the framebuffer in pixels.
pub const DISPLAY_WIDTH: usize = 64;
/// Height of the framebuffer in pixels.
pub const DISPLAY_HEIGHT: usize = 32;
/// Number of framebuffer cells, one per pixel, row-major.
pub const DISPLAY_SIZE: usize = 2048;
/// Number of general-purpose registers.
pub const NUM_REGISTERS: usize = 16;
/// Depth of the call stack.
pub const STACK_SIZE: usize = 16;
/// Number of virtual keys.
pub const NUM_KEYS: usize = 16;
/// Bytes occupied by the built-in glyph table: 16 glyphs of 5 bytes each.
pub const FONT_BYTES: usize = 80;

/// The whole interpreter state: register file, memory, framebuffer,
/// input latch, and timers. Mutated only by the opcode handlers, the
/// timer tick, and the external input producer.
pub struct VM {
    /// The instruction word fetched most recently.
    pub op: u16,
    /// The sixteen general-purpose registers; index 0xF doubles as the
    /// carry/borrow/collision flag.
    pub v: Vec<u8>,
    /// The index register, an operand pointer for memory-addressed
    /// instructions.
    pub i: u16,
    /// The program counter.
    pub pc: u16,
    /// The call stack; slots above `sp` are dead values.
    pub stack: Vec<u16>,
    /// The stack pointer; a call first increments it, so slot 0 is never
    /// written and the effective call depth is fifteen.
    pub sp: u16,
    /// The delay timer, decremented at the external tick rate, floored at 0.
    pub delay: u8,
    /// The sound timer, decremented at the external tick rate, floored at 0.
    pub sound: u8,
    /// Flat memory; bytes below `PROGRAM_START` are reserved for the glyph
    /// table, the program image starts at `PROGRAM_START`.
    pub memory: Vec<u8>,
    /// The monochrome framebuffer, one cell per pixel, each 0 or 1.
    pub display: Vec<u8>,
    /// Set by any instruction that mutates the framebuffer; cleared by the
    /// render consumer once it has drawn a frame.
    pub drawflag: bool,
    /// The input latch, one flag per virtual key.
    pub keypad: Vec<bool>,
}

impl VM {
    /// Well-formedness: every array-like field has its fixed length, the
    /// stack pointer is a valid stack slot, and every framebuffer cell is
    /// binary.
    pub open spec fn wf(&self) -> bool {
        &&& self.v@.len() == NUM_REGISTERS
        &&& self.stack@.len() == STACK_SIZE
        &&& self.memory@.len() == MEMORY_SIZE
        &&& self.display@.len() == DISPLAY_SIZE
        &&& self.keypad@.len() == NUM_KEYS
        &&& self.sp < STACK_SIZE
        &&& forall|k: int| 0 <= k < DISPLAY_SIZE ==> self.display@[k] == 0 || self.display@[k] == 1
    }

    /// A fresh machine: everything zeroed, the program counter at the start
    /// of the program region. The glyph table is installed separately by
    /// `init_font_set`.
    pub fn new() -> (vm: VM)
        ensures
            vm.wf(),
            vm.op == 0,
            vm.i == 0,
            vm.pc == PROGRAM_START,
            vm.sp == 0,
            vm.delay == 0,
            vm.sound == 0,
            !vm.drawflag,
            forall|k: int| 0 <= k < NUM_REGISTERS ==> vm.v@[k] == 0,
            forall|k: int| 0 <= k < STACK_SIZE ==> vm.stack@[k] == 0,
            forall|k: int| 0 <= k < MEMORY_SIZE ==> vm.memory@[k] == 0,
            forall|k: int| 0 <= k < DISPLAY_SIZE ==> vm.display@[k] == 0,
            forall|k: int| 0 <= k < NUM_KEYS ==> !vm.keypad@[k],
    {
        let vm = VM {
            op: 0,
            v: zeroed_bytes(NUM_REGISTERS),
            i: 0,
            pc: PROGRAM_START as u16,
            stack: zeroed_words(STACK_SIZE),
            sp: 0,
            delay: 0,
            sound: 0,
            memory: zeroed_bytes(MEMORY_SIZE),
            display: zeroed_bytes(DISPLAY_SIZE),
            drawflag: false,
            keypad: cleared_keys(NUM_KEYS),
        };
        vm
    }

    /// Copies the glyph table into the reserved region at the bottom of
    /// memory; every byte from `FONT_BYTES` up is untouched.
    pub fn init_font_set(&mut self)
        requires
            old(self).wf(),
        ensures
            final(self).wf(),
            final(self).memory@.len() == MEMORY_SIZE,
            forall|k: int| 0 <= k < FONT_BYTES ==> final(self).memory@[k] == font_seq()[k],
            forall|k: int| FONT_BYTES <= k < MEMORY_SIZE ==> final(self).memory@[k] == old(self).memory@[k],
            final(self).op == old(self).op,
            final(self).v@ == old(self).v@,
            final(self).i == old(self).i,
            final(self).pc == old(self).pc,
            final(self).stack@ == old(self).stack@,
            final(self).sp == old(self).sp,
            final(self).delay == old(self).delay,
            final(self).sound == old(self).sound,
            final(self).display@ == old(self).display@,
            final(self).drawflag == old(self).drawflag,
            final(self).keypad@ == old(self).keypad@,
    {
        let font = font_bitmap();
        let mut idx: usize = 0;
        while idx < FONT_BYTES
            invariant
                self.wf(),
                0 <= idx <= FONT_BYTES,
                font@ == font_seq(),
                self.memory@.len() == MEMORY_SIZE,
                forall|k: int| 0 <= k < idx ==> self.memory@[k] == font_seq()[k],
                forall|k: int| idx <= k < MEMORY_SIZE ==> self.memory@[k] == old(self).memory@[k],
                self.op == old(self).op,
                self.v@ == old(self).v@,
                self.i == old(self).i,
                self.pc == old(self).pc,
                self.stack@ == old(self).stack@,
                self.sp == old(self).sp,
                self.delay == old(self).delay,
                self.sound == old(self).sound,
                self.display@ == old(self).display@,
                self.drawflag == old(self).drawflag,
                self.keypad@ == old(self).keypad@,
            decreases FONT_BYTES - idx,
        {
            self.memory[idx] = font[idx];
            idx = idx + 1;
        }
    }

    /// Copies a ROM image verbatim into the program region. Rejects an
    /// image longer than the region; nothing is changed on rejection.
    pub fn load_rom(&mut self, rom: &Vec<u8>) -> (r: Result<(), VmError>)
        requires
            old(self).wf(),
        ensures
            final(self).wf(),
            match r {
                Ok(()) => {
                    &&& rom@.len() <= MEMORY_SIZE - PROGRAM_START
                    &&& final(self).memory@.len() == MEMORY_SIZE
                    &&& forall|k: int| 0 <= k < MEMORY_SIZE ==> final(self).memory@[k] == (
                        if PROGRAM_START <= k < PROGRAM_START + rom@.len() {
                            rom@[k - PROGRAM_START]
                        } else {
                            old(self).memory@[k]
                        })
                },
                Err(e) => {
                    &&& e == VmError::RomTooLarge(rom@.len() as usize)
                    &&& rom@.len() > MEMORY_SIZE - PROGRAM_START
                    &&& final(self).memory@ == old(self).memory@
                },
            },
            final(self).op == old(self).op,
            final(self).v@ == old(self).v@,
            final(self).i == old(self).i,
            final(self).pc == old(self).pc,
            final(self).stack@ == old(self).stack@,
            final(self).sp == old(self).sp,
            final(self).delay == old(self).delay,
            final(self).sound == old(self).sound,
            final(self).display@ == old(self).display@,
            final(self).drawflag == old(self).drawflag,
            final(self).keypad@ == old(self).keypad@,
    {
        if rom.len() > MEMORY_SIZE - PROGRAM_START {
            return Err(VmError::RomTooLarge(rom.len()));
        }
        let len: usize = rom.len();
        let mut idx: usize = 0;
        while idx < len
            invariant
                self.wf(),
                0 <= idx <= len,
                len == rom@.len(),
                len <= MEMORY_SIZE - PROGRAM_START,
                self.memory@.len() == MEMORY_SIZE,
                forall|k: int| 0 <= k < MEMORY_SIZE ==> self.memory@[k] == (
                    if PROGRAM_START <= k < PROGRAM_START + idx {
                        rom@[k - PROGRAM_START]
                    } else {
                        old(self).memory@[k]
                    }),
                self.op == old(self).op,
                self.v@ == old(self).v@,
                self.i == old(self).i,
                self.pc == old(self).pc,
                self.stack@ == old(self).stack@,
                self.sp == old(self).sp,
                self.delay == old(self).delay,
                self.sound == old(self).sound,
                self.display@ == old(self).display@,
                self.drawflag == old(self).drawflag,
                self.keypad@ == old(self).keypad@,
            decreases len - idx,
        {
            self.memory[PROGRAM_START + idx] = rom[idx];
            idx = idx + 1;
        }
        Ok(())
    }

    /// The framebuffer expanded into an RGB byte image for the render
    /// consumer: 32 rows of 192 bytes, three bytes per pixel, all three
    /// 0xFF when the cell is lit and 0x00 when it is dark.
    pub fn rgb_frame(&self) -> (r: Vec<u8>)
        requires
            self.wf(),
        ensures
            r@.len() == 6144,
            forall|yy: int, xx: int|
                0 <= yy < 32 && 0 <= xx < 192 ==> #[trigger] r@[yy * 192 + xx] == (
                if self.display@[yy * 64 + xx / 3] == 1 {
                    0xFFu8
                } else {
                    0u8
                }),
    {
        let mut r: Vec<u8> = Vec::new();
        let mut cell: usize = 0;
        while cell < DISPLAY_SIZE
            invariant
                self.wf(),
                0 <= cell <= DISPLAY_SIZE,
                r@.len() == 3 * cell,
                forall|p: int|
                    0 <= p < 3 * cell ==> #[trigger] r@[p] == (if self.display@[p / 3] == 1 {
                        0xFFu8
                    } else {
                        0u8
                    }),
            decreases DISPLAY_SIZE - cell,
        {
            let byte: u8 = if self.display[cell] == 1 {
                0xFF
            } else {
                0x00
            };
            r.push(byte);
            r.push(byte);
            r.push(byte);
            cell = cell + 1;
        }
        proof {
            assert forall|yy: int, xx: int| 0 <= yy < 32 && 0 <= xx < 192 implies #[trigger] r@[yy
                * 192 + xx] == (if self.display@[yy * 64 + xx / 3] == 1 {
                0xFFu8
            } else {
                0u8
            }) by {
                let p = yy * 192 + xx;
                assert(0 <= p < 6144);
                assert(r@[p] == (if self.display@[p / 3] == 1 {
                    0xFFu8
                } else {
                    0u8
                }));
                assert(p / 3 == yy * 64 + xx / 3);
            }
        }
        r
    }

    /// One external timer tick: both timers count down by one, each
    /// floored at zero. Nothing else moves; the tick is independent of
    /// instruction execution.
    pub fn tick_timers(&mut self)
        requires
            old(self).wf(),
        ensures
            final(self).wf(),
            final(self).delay == if old(self).delay > 0 { (old(self).delay - 1) as u8 } else { 0u8 },
            final(self).sound == if old(self).sound > 0 { (old(self).sound - 1) as u8 } else { 0u8 },
            final(self).op == old(self).op,
            final(self).v@ == old(self).v@,
            final(self).i == old(self).i,
            final(self).pc == old(self).pc,
            final(self).stack@ == old(self).stack@,
            final(self).sp == old(self).sp,
            final(self).memory@ == old(self).memory@,
            final(self).display@ == old(self).display@,
            final(self).drawflag == old(self).drawflag,
            final(self).keypad@ == old(self).keypad@,
    {
        if self.delay > 0 {
            self.delay = self.delay - 1;
        }
        if self.sound > 0 {
            self.sound = self.sound - 1;
        }
    }
}

/// A vector of `n` zero bytes.
fn zeroed_bytes(n: usize) -> (r: Vec<u8>)
    ensures
        r@.len() == n,
        forall|k: int| 0 <= k < n ==> r@[k] == 0,
{
    let mut r: Vec<u8> = Vec::new();
    let mut idx: usize = 0;
    while idx < n
        invariant
            0 <= idx <= n,
            r@.len() == idx,
            forall|k: int| 0 <= k < idx ==> r@[k] == 0,
        decreases n - idx,
    {
        r.push(0);
        idx = idx + 1;
    }
    r
}

/// A vector of `n` zero words.
fn zeroed_words(n: usize) -> (r: Vec<u16>)
    ensures
        r@.len() == n,
        forall|k: int| 0 <= k < n ==> r@[k] == 0,
{
    let mut r: Vec<u16> = Vec::new();
    let mut idx: usize = 0;
    while idx < n
        invariant
            0 <= idx <= n,
            r@.len() == idx,
            forall|k: int| 0 <= k < idx ==> r@[k] == 0,
        decreases n - idx,
    {
        r.push(0);
        idx = idx + 1;
    }
    r
}

/// A vector of `n` released keys.
fn cleared_keys(n: usize) -> (r: Vec<bool>)
    ensures
        r@.len() == n,
        forall|k: int| 0 <= k < n ==> !r@[k],
{
    let mut r: Vec<bool> = Vec::new();
    let mut idx: usize = 0;
    while idx < n
        invariant
            0 <= idx <= n,
            r@.len() == idx,
            forall|k: int| 0 <= k < idx ==> !r@[k],
        decreases n - idx,
    {
        r.push(false);
        idx = idx + 1;
    }
    r
}

/// The built-in glyph table: sixteen 4x5 bitmaps for the hexadecimal
/// digits, one row byte per scanline, five bytes per glyph.
pub open spec fn font_seq() -> Seq<u8> {
    seq![
        0xF0u8, 0x90, 0x90, 0x90, 0xF0,
        0x20, 0x60, 0x20, 0x20, 0x70,
        0xF0, 0x10, 0xF0, 0x80, 0xF0,
        0xF0, 0x10, 0xF0, 0x10, 0xF0,
        0x90, 0x90, 0xF0, 0x10, 0x10,
        0xF0, 0x80, 0xF0, 0x10, 0xF0,
        0xF0, 0x80, 0xF0, 0x90, 0xF0,
        0xF0, 0x10, 0x20, 0x40, 0x40,
        0xF0, 0x90, 0xF0, 0x90, 0xF0,
        0xF0, 0x90, 0xF0, 0x10, 0xF0,
        0xF0, 0x90, 0xF0, 0x90, 0x90,
        0xE0, 0x90, 0xE0, 0x90, 0xE0,
        0xF0, 0x80, 0x80, 0x80, 0xF0,
        0xE0, 0x90, 0x90, 0x90, 0xE0,
        0xF0, 0x80, 0xF0, 0x80, 0xF0,
        0xF0, 0x80, 0xF0, 0x80, 0x80,
    ]
}

/// The glyph table as a vector, for installation into memory.
pub fn font_bitmap() -> (r: Vec<u8>)
    ensures
        r@ == font_seq(),
{
    let r: Vec<u8> = vec![
        0xF0, 0x90, 0x90, 0x90, 0xF0,
        0x20, 0x60, 0x20, 0x20, 0x70,
        0xF0, 0x10, 0xF0, 0x80, 0xF0,
        0xF0, 0x10, 0xF0, 0x10, 0xF0,
        0x90, 0x90, 0xF0, 0x10, 0x10,
        0xF0, 0x80, 0xF0, 0x10, 0xF0,
        0xF0, 0x80, 0xF0, 0x90, 0xF0,
        0xF0, 0x10, 0x20, 0x40, 0x40,
        0xF0, 0x90, 0xF0, 0x90, 0xF0,
        0xF0, 0x90, 0xF0, 0x10, 0xF0,
        0xF0, 0x90, 0xF0, 0x90, 0x90,
        0xE0, 0x90, 0xE0, 0x90, 0xE0,
        0xF0, 0x80, 0x80, 0x80, 0xF0,
        0xE0, 0x90, 0x90, 0x90, 0xE0,
        0xF0, 0x80, 0xF0, 0x80, 0xF0,
        0xF0, 0x80, 0xF0, 0x80, 0x80,
    ];
    proof {
        assert(r@ =~= font_seq());
    }
    r
}

} // verus!
