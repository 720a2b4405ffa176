use vstd::prelude::*;

use crate::cycle::{effect, step_err, vm_unchanged};
use crate::decode::Instruction;
use crate::error::VmError;
use crate::vm::{MEMORY_SIZE, VM};

verus! {

/// Bit `col` of a sprite row byte, counted from the left: column 0 is the
/// high bit. Either 0 or 1.
pub open spec fn sprite_bit(byte: u8, col: int) -> u8 {
    (byte >> ((7 - col) as u8)) & 1
}

/// The framebuffer after XOR-ing the leftmost `cols` bits of one sprite row
/// byte into wrapped row `yr` (already reduced modulo 32), starting at
/// column `x0` with torus wraparound modulo 64.
pub open spec fn draw_row(display: Seq<u8>, byte: u8, x0: int, yr: int, cols: int) -> Seq<u8>
    decreases cols,
{
    if cols <= 0 {
        display
    } else {
        let d = draw_row(display, byte, x0, yr, cols - 1);
        let idx = yr * 64 + (x0 + (cols - 1)) % 64;
        d.update(idx, d[idx] ^ sprite_bit(byte, cols - 1))
    }
}

/// Whether XOR-ing the leftmost `cols` bits of the row byte turns some lit
/// cell off: a lit cell meets a set sprite bit.
pub open spec fn row_collides(display: Seq<u8>, byte: u8, x0: int, yr: int, cols: int) -> bool
    decreases cols,
{
    if cols <= 0 {
        false
    } else {
        let d = draw_row(display, byte, x0, yr, cols - 1);
        let idx = yr * 64 + (x0 + (cols - 1)) % 64;
        row_collides(display, byte, x0, yr, cols - 1) || (d[idx] == 1 && sprite_bit(
            byte,
            cols - 1,
        ) == 1)
    }
}

/// The framebuffer after drawing the first `rows` rows of the sprite whose
/// row bytes sit at `mem[i..]`, at origin `(x0, y0)`, wrapping both axes.
pub open spec fn draw_rows(
    display: Seq<u8>,
    mem: Seq<u8>,
    i: int,
    x0: int,
    y0: int,
    rows: int,
) -> Seq<u8>
    decreases rows,
{
    if rows <= 0 {
        display
    } else {
        let d = draw_rows(display, mem, i, x0, y0, rows - 1);
        draw_row(d, mem[i + rows - 1], x0, (y0 + rows - 1) % 32, 8)
    }
}

/// Whether drawing the first `rows` rows of the sprite turns any lit cell
/// off.
pub open spec fn draw_collides(
    display: Seq<u8>,
    mem: Seq<u8>,
    i: int,
    x0: int,
    y0: int,
    rows: int,
) -> bool
    decreases rows,
{
    if rows <= 0 {
        false
    } else {
        let d = draw_rows(display, mem, i, x0, y0, rows - 1);
        draw_collides(display, mem, i, x0, y0, rows - 1) || row_collides(
            d,
            mem[i + rows - 1],
            x0,
            (y0 + rows - 1) % 32,
            8,
        )
    }
}

/// Drawing never changes the framebuffer's size, and keeps every cell
/// binary if every cell was binary.
pub proof fn lemma_draw_row_shape(display: Seq<u8>, byte: u8, x0: int, yr: int, cols: int)
    requires
        display.len() == 2048,
        0 <= x0,
        0 <= yr < 32,
        cols <= 8,
        forall|k: int| 0 <= k < 2048 ==> display[k] == 0 || display[k] == 1,
    ensures
        draw_row(display, byte, x0, yr, cols).len() == 2048,
        forall|k: int|
            0 <= k < 2048 ==> draw_row(display, byte, x0, yr, cols)[k] == 0 || draw_row(
                display,
                byte,
                x0,
                yr,
                cols,
            )[k] == 1,
    decreases cols,
{
    if cols > 0 {
        lemma_draw_row_shape(display, byte, x0, yr, cols - 1);
        let d = draw_row(display, byte, x0, yr, cols - 1);
        let idx = yr * 64 + (x0 + (cols - 1)) % 64;
        assert(0 <= (x0 + (cols - 1)) % 64 < 64);
        assert(0 <= idx < 2048);
        let b = sprite_bit(byte, cols - 1);
        assert(b == 0 || b == 1) by {
            let sh = (7 - (cols - 1)) as u8;
            assert((byte >> sh) & 1 == 0 || (byte >> sh) & 1 == 1) by (bit_vector);
        }
        assert(forall|p: u8, q: u8|
            (p == 0 || p == 1) && (q == 0 || q == 1) ==> ((#[trigger] (p ^ q)) == 0 || (p ^ q)
                == 1)) by (bit_vector);
    }
}

/// Same, lifted over all rows of a sprite.
pub proof fn lemma_draw_rows_shape(
    display: Seq<u8>,
    mem: Seq<u8>,
    i: int,
    x0: int,
    y0: int,
    rows: int,
)
    requires
        display.len() == 2048,
        0 <= x0,
        0 <= y0,
        forall|k: int| 0 <= k < 2048 ==> display[k] == 0 || display[k] == 1,
    ensures
        draw_rows(display, mem, i, x0, y0, rows).len() == 2048,
        forall|k: int|
            0 <= k < 2048 ==> draw_rows(display, mem, i, x0, y0, rows)[k] == 0 || draw_rows(
                display,
                mem,
                i,
                x0,
                y0,
                rows,
            )[k] == 1,
    decreases rows,
{
    if rows > 0 {
        lemma_draw_rows_shape(display, mem, i, x0, y0, rows - 1);
        let d = draw_rows(display, mem, i, x0, y0, rows - 1);
        assert(0 <= (y0 + rows - 1) % 32 < 32);
        lemma_draw_row_shape(d, mem[i + rows - 1], x0, (y0 + rows - 1) % 32, 8);
    }
}

impl VM {
    /// Draw an `n`-row sprite read from `memory[index..index+n)` at the
    /// position held in `(v[x], v[y])`, XOR-ing each bit into the
    /// framebuffer with torus wraparound; the flag register reports
    /// whether any lit cell was turned off. Reading past the end of
    /// memory is an explicit error raised before anything is touched.
    pub fn _dxyn(&mut self, x: u8, y: u8, n: u8) -> (r: Result<(), VmError>)
        requires
            old(self).wf(),
            x < 16,
            y < 16,
            n < 16,
            old(self).pc + 1 < MEMORY_SIZE,
        ensures
            final(self).wf(),
            final(self).op == old(self).op,
            match step_err(*old(self), Instruction::Draw(x, y, n)) {
                Some(e) => r == Err::<(), VmError>(e) && vm_unchanged(*old(self), *final(self)),
                None => r == Ok::<(), VmError>(()) && effect(
                    *old(self),
                    *final(self),
                    Instruction::Draw(x, y, n),
                    0,
                ),
            },
    {
        if n > 0 && self.i as usize + n as usize > MEMORY_SIZE {
            return Err(VmError::MemoryOutOfBounds(self.i as usize + n as usize));
        }
        let x0: u8 = self.v[x as usize];
        let y0: u8 = self.v[y as usize];
        self.v[15] = 0;
        let ghost pre = *old(self);
        let ghost gx0 = x0 as int;
        let ghost gy0 = y0 as int;
        let ghost gi = self.i as int;
        let mut row: usize = 0;
        while row < n as usize
            invariant
                self.wf(),
                pre.wf(),
                0 <= row <= n,
                n < 16,
                x < 16,
                y < 16,
                gx0 == pre.v@[x as int],
                gy0 == pre.v@[y as int],
                x0 == gx0,
                y0 == gy0,
                gi == pre.i,
                n > 0 ==> gi + n <= MEMORY_SIZE,
                self.op == pre.op,
                self.i == pre.i,
                self.pc == pre.pc,
                self.stack@ == pre.stack@,
                self.sp == pre.sp,
                self.delay == pre.delay,
                self.sound == pre.sound,
                self.memory@ == pre.memory@,
                self.keypad@ == pre.keypad@,
                self.drawflag == pre.drawflag,
                self.display@ == draw_rows(pre.display@, pre.memory@, gi, gx0, gy0, row as int),
                self.v@ == pre.v@.update(
                    15,
                    if draw_collides(pre.display@, pre.memory@, gi, gx0, gy0, row as int) {
                        1u8
                    } else {
                        0u8
                    },
                ),
            decreases n - row,
        {
            let byte: u8 = self.memory[self.i as usize + row];
            let yr: usize = (y0 as usize + row) % 32;
            let ghost d_row = self.display@;
            let ghost coll_prev = draw_collides(pre.display@, pre.memory@, gi, gx0, gy0, row as int);
            let mut col: usize = 0;
            while col < 8
                invariant
                    self.wf(),
                    pre.wf(),
                    0 <= col <= 8,
                    0 <= row < n,
                    n < 16,
                    x < 16,
                    y < 16,
                    gx0 == pre.v@[x as int],
                    gy0 == pre.v@[y as int],
                    gi == pre.i,
                    gi + n <= MEMORY_SIZE,
                    byte == pre.memory@[gi + row],
                    yr == (gy0 + row) % 32,
                    0 <= yr < 32,
                    x0 == gx0,
                    d_row == draw_rows(pre.display@, pre.memory@, gi, gx0, gy0, row as int),
                    d_row.len() == 2048,
                    forall|k: int| 0 <= k < 2048 ==> d_row[k] == 0 || d_row[k] == 1,
                    coll_prev == draw_collides(pre.display@, pre.memory@, gi, gx0, gy0, row as int),
                    self.op == pre.op,
                    self.i == pre.i,
                    self.pc == pre.pc,
                    self.stack@ == pre.stack@,
                    self.sp == pre.sp,
                    self.delay == pre.delay,
                    self.sound == pre.sound,
                    self.memory@ == pre.memory@,
                    self.keypad@ == pre.keypad@,
                    self.drawflag == pre.drawflag,
                    self.display@ == draw_row(d_row, byte, gx0, yr as int, col as int),
                    self.v@ == pre.v@.update(
                        15,
                        if coll_prev || row_collides(d_row, byte, gx0, yr as int, col as int) {
                            1u8
                        } else {
                            0u8
                        },
                    ),
                decreases 8 - col,
            {
                proof {
                    lemma_draw_row_shape(d_row, byte, gx0, yr as int, col as int);
                }
                let idx: usize = yr * 64 + (x0 as usize + col) % 64;
                let sh: u8 = (7 - col) as u8;
                let sbit: u8 = (byte >> sh) & 1;
                proof {
                    assert((byte >> sh) & 1 == 0 || (byte >> sh) & 1 == 1) by (bit_vector);
                    assert(sbit == sprite_bit(byte, col as int));
                }
                let cur: u8 = self.display[idx];
                if cur == 1 && sbit == 1 {
                    self.v[15] = 1;
                    proof {
                        assert(pre.v@.update(15, 1u8) =~= self.v@);
                    }
                }
                let newbit: u8 = cur ^ sbit;
                proof {
                    assert((cur == 0 || cur == 1) && (sbit == 0 || sbit == 1) ==> (cur ^ sbit == 0
                        || cur ^ sbit == 1)) by (bit_vector);
                }
                self.display[idx] = newbit;
                col = col + 1;
                proof {
                    assert(self.display@ == draw_row(d_row, byte, gx0, yr as int, col as int));
                    assert(self.v@ == pre.v@.update(
                        15,
                        if coll_prev || row_collides(d_row, byte, gx0, yr as int, col as int) {
                            1u8
                        } else {
                            0u8
                        },
                    ));
                }
            }
            row = row + 1;
            proof {
                assert(self.display@ == draw_rows(
                    pre.display@,
                    pre.memory@,
                    gi,
                    gx0,
                    gy0,
                    row as int,
                ));
                assert(draw_collides(pre.display@, pre.memory@, gi, gx0, gy0, row as int) == (
                coll_prev || row_collides(d_row, byte, gx0, yr as int, 8)));
            }
        }
        self.drawflag = true;
        self.pc = self.pc + 2;
        Ok(())
    }
}

} // verus!
