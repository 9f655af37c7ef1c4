//! Painting solid blocks into a buffer of 32-bit pixels.

use vstd::prelude::*;
use vstd::arithmetic::div_mod::lemma_fundamental_div_mod_converse;
use vstd::arithmetic::div_mod::lemma_fundamental_div_mod;

verus! {

/// A red, green and blue triple.
pub type Rgb = (u8, u8, u8);

/// The opaque pixel of a colour: alpha, red, green and blue from the highest byte down.
pub open spec fn opaque(c: Rgb) -> u32 {
    (0xFF00_0000 + c.0 * 0x1_0000 + c.1 * 0x100 + c.2) as u32
}

pub fn bgra(r: u8, g: u8, b: u8) -> (pixel: u32)
    ensures
        pixel == opaque((r, g, b)),
{
    assert(0xFF00_0000u32 | ((r as u32) << 16) | ((g as u32) << 8) | (b as u32) == 0xFF00_0000
        + r * 0x1_0000 + g * 0x100 + b) by (bit_vector);
    0xFF00_0000 | ((r as u32) << 16) | ((g as u32) << 8) | (b as u32)
}

/// A rectangle by its edges, in device pixels.
#[derive(Clone, Copy, Debug, PartialEq, Eq, Structural)]
pub struct Rect {
    pub left: i32,
    pub top: i32,
    pub right: i32,
    pub bottom: i32,
}

/// A rectangle of one colour, in device pixels. It may stick out of the window.
#[derive(Clone, Copy, Debug, PartialEq, Eq, Structural)]
pub struct Block {
    pub x: i32,
    pub y: i32,
    pub bw: i32,
    pub bh: i32,
    pub color: u32,
}

impl Block {
    /// The rectangle's far edges are numbers that an `i32` can hold.
    pub open spec fn bounded(self) -> bool {
        &&& i32::MIN <= self.x + self.bw <= i32::MAX
        &&& i32::MIN <= self.y + self.bh <= i32::MAX
    }

    /// Whether the pixel in the given row and column lies in the rectangle.
    pub open spec fn covers(self, row: int, col: int) -> bool {
        &&& self.x <= col < self.x + self.bw
        &&& self.y <= row < self.y + self.bh
    }
}

/// Whether pixel `i` of a window of `w` columns and `h` rows lies in the block.
pub open spec fn hit(b: Block, w: int, h: int, i: int) -> bool {
    &&& w > 0
    &&& i / w < h
    &&& b.covers(i / w, i % w)
}

/// A buffer after one block has been painted over it.
pub open spec fn filled(s: Seq<u32>, w: int, h: int, b: Block) -> Seq<u32> {
    Seq::new(
        s.len(),
        |i: int|
            if hit(b, w, h, i) {
                b.color
            } else {
                s[i]
            },
    )
}

/// A buffer after a list of blocks has been painted over it, in order.
pub open spec fn painted(s: Seq<u32>, w: int, h: int, blocks: Seq<Block>) -> Seq<u32>
    decreases blocks.len(),
{
    if blocks.len() == 0 {
        s
    } else {
        filled(painted(s, w, h, blocks.drop_last()), w, h, blocks.last())
    }
}

/// The buffer holds every pixel of a window of `w` columns and `h` rows.
pub open spec fn holds_window(s: Seq<u32>, w: int, h: int) -> bool {
    w > 0 && h > 0 ==> w * h <= s.len()
}

proof fn lemma_pixel(w: int, row: int, col: int)
    requires
        0 <= col < w,
    ensures
        (row * w + col) / w == row,
        (row * w + col) % w == col,
{
    lemma_fundamental_div_mod_converse(row * w + col, w, row, col);
}

/// Paints the part of a block that lies in the window of `w` columns and `h` rows.
pub fn fill_block(
    bits: &mut [u32],
    w: i32,
    h: i32,
    x: i32,
    y: i32,
    bw: i32,
    bh: i32,
    color: u32,
)
    requires
        holds_window(old(bits)@, w as int, h as int),
        (Block { x, y, bw, bh, color }).bounded(),
    ensures
        final(bits)@ == filled(old(bits)@, w as int, h as int, (Block { x, y, bw, bh, color })),
{
    let ghost b = Block { x, y, bw, bh, color };
    let ghost start = bits@;
    let total: usize = bits.len();
    let x0: i32 = if x < 0 { 0 } else { x };
    let x1: i32 = if x + bw > w { w } else { x + bw };
    let y0: i32 = if y < 0 { 0 } else { y };
    let y1: i32 = if y + bh > h { h } else { y + bh };
    if x0 >= x1 || y0 >= y1 {
        assert(bits@ =~= filled(start, w as int, h as int, b)) by {
            assert forall|i: int| 0 <= i < start.len() implies !hit(b, w as int, h as int, i) by {
                if hit(b, w as int, h as int, i) {
                    lemma_fundamental_div_mod(i, w as int);
                    assert(0 <= i % (w as int) < w);
                    assert(i / (w as int) >= 0) by (nonlinear_arith) requires i >= 0, w > 0;
                }
            }
        }
        return;
    }
    let mut yy: i32 = y0;
    while yy < y1
        invariant
            b == (Block { x, y, bw, bh, color }),
            x0 == if x < 0 { 0 } else { x as int },
            x1 == if x + bw > w { w as int } else { x + bw },
            y0 == if y < 0 { 0 } else { y as int },
            y1 == if y + bh > h { h as int } else { y + bh },
            x0 < x1,
            y0 <= yy <= y1,
            bits@.len() == start.len(),
            w * h <= start.len() == total,
            forall|i: int|
                0 <= i < start.len() ==> #[trigger] bits@[i] == if hit(b, w as int, h as int, i) && i / (w as int) < yy {
                    color
                } else {
                    start[i]
                },
        decreases y1 - yy,
    {
        let ghost before = bits@;
        assert(yy * w + w <= w * h) by (nonlinear_arith)
            requires
                0 <= yy < h,
                w > 0,
        ;
        assert(0 <= yy * w) by (nonlinear_arith)
            requires
                0 <= yy,
                w > 0,
        ;
        let row: usize = yy as usize * w as usize;
        let mut xx: i32 = x0;
        while xx < x1
            invariant
                b == (Block { x, y, bw, bh, color }),
                0 <= x0 <= xx <= x1 <= w,
                0 <= yy < h,
                row == yy * w,
                row + w <= start.len(),
                bits@.len() == start.len(),
                before.len() == start.len(),
                forall|i: int|
                    0 <= i < start.len() ==> #[trigger] bits@[i] == if row + x0 <= i < row + xx {
                        color
                    } else {
                        before[i]
                    },
            decreases x1 - xx,
        {
            bits[row + xx as usize] = color;
            xx = xx + 1;
        }
        assert forall|i: int| 0 <= i < start.len() implies #[trigger] bits@[i] == if hit(
            b,
            w as int,
            h as int,
            i,
        ) && i / (w as int) < yy + 1 {
            color
        } else {
            start[i]
        } by {
            lemma_fundamental_div_mod(i, w as int);
            if row + x0 <= i < row + x1 {
                lemma_pixel(w as int, yy as int, i - row);
            }
            if i / (w as int) == yy {
                assert(i == yy * w + i % (w as int)) by (nonlinear_arith)
                    requires
                        i == (w as int) * (i / (w as int)) + i % (w as int),
                        i / (w as int) == yy,
                ;
            }
            assert(before[i] == if hit(b, w as int, h as int, i) && i / (w as int) < yy {
                color
            } else {
                start[i]
            });
        }
        yy = yy + 1;
    }
    assert(bits@ =~= filled(start, w as int, h as int, b));
}

/// Paints a list of blocks, each over those before it.
pub fn paint(bits: &mut [u32], w: i32, h: i32, blocks: &Vec<Block>)
    requires
        holds_window(old(bits)@, w as int, h as int),
        forall|k: int| 0 <= k < blocks@.len() ==> (#[trigger] blocks@[k]).bounded(),
    ensures
        final(bits)@ == painted(old(bits)@, w as int, h as int, blocks@),
{
    let ghost start = bits@;
    let mut k: usize = 0;
    assert(blocks@.take(0) =~= Seq::empty());
    while k < blocks.len()
        invariant
            k <= blocks@.len(),
            holds_window(bits@, w as int, h as int),
            forall|j: int| 0 <= j < blocks@.len() ==> (#[trigger] blocks@[j]).bounded(),
            bits@ == painted(start, w as int, h as int, blocks@.take(k as int)),
        decreases blocks@.len() - k,
    {
        let b: Block = blocks[k];
        fill_block(bits, w, h, b.x, b.y, b.bw, b.bh, b.color);
        assert(blocks@.take(k + 1).drop_last() =~= blocks@.take(k as int));
        k = k + 1;
    }
    assert(blocks@.take(k as int) =~= blocks@);
}

/// Sets every pixel to one value.
pub fn clear(bits: &mut [u32], pixel: u32)
    ensures
        final(bits)@ == Seq::new(old(bits)@.len(), |i: int| pixel),
{
    let n: usize = bits.len();
    let mut k: usize = 0;
    while k < n
        invariant
            k <= n == bits@.len(),
            bits@.len() == old(bits)@.len(),
            forall|i: int| 0 <= i < k ==> #[trigger] bits@[i] == pixel,
        decreases n - k,
    {
        bits[k] = pixel;
        k = k + 1;
    }
    assert(bits@ =~= Seq::new(old(bits)@.len(), |i: int| pixel));
}

/// Painting one list and then another is painting them as one.
pub proof fn law_painting_goes_on(s: Seq<u32>, w: int, h: int, a: Seq<Block>, b: Seq<Block>)
    ensures
        painted(painted(s, w, h, a), w, h, b) == painted(s, w, h, a + b),
    decreases b.len(),
{
    if b.len() == 0 {
        assert(a + b =~= a);
    } else {
        law_painting_goes_on(s, w, h, a, b.drop_last());
        assert((a + b).drop_last() =~= a + b.drop_last());
    }
}

/// Painting never changes how many pixels the buffer holds.
pub proof fn law_painting_keeps_size(s: Seq<u32>, w: int, h: int, blocks: Seq<Block>)
    ensures
        painted(s, w, h, blocks).len() == s.len(),
    decreases blocks.len(),
{
    if blocks.len() > 0 {
        law_painting_keeps_size(s, w, h, blocks.drop_last());
    }
}

/// A pixel shows the last block that covers it.
pub proof fn law_last_block_shows(s: Seq<u32>, w: int, h: int, blocks: Seq<Block>, k: int, i: int)
    requires
        0 <= i < s.len(),
        0 <= k < blocks.len(),
        hit(blocks[k], w, h, i),
        forall|j: int| k < j < blocks.len() ==> !hit(#[trigger] blocks[j], w, h, i),
    ensures
        painted(s, w, h, blocks)[i] == blocks[k].color,
    decreases blocks.len(),
{
    law_painting_keeps_size(s, w, h, blocks.drop_last());
    if k < blocks.len() - 1 {
        law_last_block_shows(s, w, h, blocks.drop_last(), k, i);
    }
}

/// A pixel that no block covers stays as it was.
pub proof fn law_uncovered_pixels_stay(s: Seq<u32>, w: int, h: int, blocks: Seq<Block>, i: int)
    requires
        0 <= i < s.len(),
        forall|j: int| 0 <= j < blocks.len() ==> !hit(#[trigger] blocks[j], w, h, i),
    ensures
        painted(s, w, h, blocks)[i] == s[i],
    decreases blocks.len(),
{
    if blocks.len() > 0 {
        law_painting_keeps_size(s, w, h, blocks.drop_last());
        law_uncovered_pixels_stay(s, w, h, blocks.drop_last(), i);
    }
}

/// Painting a block changes exactly the pixels of the window that lie between its edges.
pub proof fn law_blocks_paint_between_their_edges(
    s: Seq<u32>,
    w: int,
    h: int,
    b: Block,
    row: int,
    col: int,
)
    requires
        0 <= row < h,
        0 <= col < w,
        w * h <= s.len(),
    ensures
        0 <= row * w + col < s.len(),
        filled(s, w, h, b).len() == s.len(),
        b.x <= col < b.x + b.bw && b.y <= row < b.y + b.bh ==> filled(s, w, h, b)[row * w + col]
            == b.color,
        !(b.x <= col < b.x + b.bw && b.y <= row < b.y + b.bh) ==> filled(s, w, h, b)[row * w + col]
            == s[row * w + col],
{
    lemma_pixel(w, row, col);
    assert(0 <= row * w + col < w * h) by (nonlinear_arith)
        requires
            0 <= row < h,
            0 <= col < w,
    ;
}

/// Pixels behind the window's last row are never painted.
pub proof fn law_painting_stays_in_the_window(s: Seq<u32>, w: int, h: int, b: Block, i: int)
    requires
        0 < w,
        0 <= h,
        w * h <= i < s.len(),
    ensures
        filled(s, w, h, b)[i] == s[i],
{
    lemma_fundamental_div_mod(i, w);
    assert(i / w >= h) by (nonlinear_arith)
        requires
            i == w * (i / w) + i % w,
            0 <= i % w < w,
            w * h <= i,
    ;
}

/// A list of blocks is painted one after the other, the first one first.
pub proof fn law_blocks_are_painted_in_order(s: Seq<u32>, w: int, h: int, blocks: Seq<Block>, b: Block)
    ensures
        painted(s, w, h, seq![]) == s,
        painted(s, w, h, blocks.push(b)) == filled(painted(s, w, h, blocks), w, h, b),
{
    assert(blocks.push(b).drop_last() =~= blocks);
}

/// The opaque pixel of a colour has all its four bytes in their places.
pub proof fn law_pixels_hold_their_channels(c: Rgb)
    ensures
        opaque(c) / 0x100_0000 == 0xFF,
        opaque(c) / 0x1_0000 % 0x100 == c.0,
        opaque(c) / 0x100 % 0x100 == c.1,
        opaque(c) % 0x100 == c.2,
{
    let (r, g, b) = c;
    let p = opaque(c);
    assert(p / 0x100_0000 == 0xFF && p / 0x1_0000 % 0x100 == r && p / 0x100 % 0x100 == g && p % 0x100
        == b) by (bit_vector)
        requires
            p == 0xFF00_0000 + r * 0x1_0000 + g * 0x100 + b,
    ;
}

} // verus!
