//! Speech bubbles: where they go, how they are painted, and how they fade.
//!
//! The text itself is drawn between `draw_bubble` and `blend_bubble`, by whoever owns the window.

use crate::canvas::bgra;
use crate::canvas::opaque;
use crate::canvas::paint;
use crate::canvas::painted;
use crate::canvas::{holds_window, Block, Rect, Rgb};
use crate::position::MAX_X;
use crate::position::ONE;
use crate::position::SPRITE;
use vstd::arithmetic::div_mod::lemma_fundamental_div_mod;
use vstd::arithmetic::div_mod::lemma_fundamental_div_mod_converse;
use vstd::prelude::*;

verus! {

/// A bubble's height, in logical pixels.
pub const BUBBLE_LH: i32 = 18;

/// A bubble's width, in logical pixels.
pub const BUBBLE_LW: i32 = 84;

/// The ticks at the end of a bubble's life in which it fades.
pub const FADE_TICKS: u32 = 4;

pub const PAPER: Rgb = (252, 252, 250);

pub const OUTLINE: Rgb = (120, 120, 128);

/// A bubble in its place: its left edge, the left edge of its tail, and how opaque it is.
#[derive(Debug)]
pub struct Balloon {
    pub text: String,
    pub bx: i32,
    pub tail_x: i32,
    pub alpha: u32,
}

pub ghost struct BalloonView {
    pub text: Seq<char>,
    pub bx: int,
    pub tail_x: int,
    pub alpha: int,
}

impl View for Balloon {
    type V = BalloonView;

    open spec fn view(&self) -> BalloonView {
        BalloonView {
            text: self.text@,
            bx: self.bx as int,
            tail_x: self.tail_x as int,
            alpha: self.alpha as int,
        }
    }
}

/// `v`, or the nearer end of `lo` to `hi`.
pub open spec fn clamped(v: int, lo: int, hi: int) -> int {
    if v < lo {
        lo
    } else if v > hi {
        hi
    } else {
        v
    }
}

/// The left edge of the rightmost bubble that fits into a window of width `w`.
pub open spec fn rightmost(u: int, w: int) -> int {
    if w > BUBBLE_LW * u {
        w - BUBBLE_LW * u
    } else {
        0
    }
}

/// The device column over the middle of a character at position `x`.
pub open spec fn middle(x: int, u: int) -> int {
    (x / ONE as int + SPRITE / 2) * u
}

/// The left edge of a bubble centred over its character, as far as the window allows.
pub open spec fn centred(x: int, u: int, w: int) -> int {
    clamped(middle(x, u) - BUBBLE_LW / 2 * u, 0, rightmost(u, w))
}

/// Whether a bubble with its left edge at `bx` overlaps the columns from `lo` up to `hi`.
pub open spec fn overlaps(bx: int, u: int, lo: int, hi: int) -> bool {
    bx < hi && bx + BUBBLE_LW * u > lo
}

/// Where a bubble goes that would overlap one from `lo` up to `hi`: to the right of it, a little way
/// off where the window allows, else to the left of it. Where it fits on neither side it goes as far
/// right as it can.
pub open spec fn beside(u: int, w: int, lo: int, hi: int) -> int {
    let left = if lo > (BUBBLE_LW + 2) * u {
        lo - (BUBBLE_LW + 2) * u
    } else {
        0
    };
    if hi + 2 * u < rightmost(u, w) {
        hi + 2 * u
    } else if hi > rightmost(u, w) && left + BUBBLE_LW * u <= lo {
        left
    } else {
        rightmost(u, w)
    }
}

/// The left edge of a bubble after it has made way, one after the other, for the bubbles that are
/// up.
pub open spec fn made_way(bx: int, u: int, w: int, used: Seq<(i32, i32)>) -> int
    decreases used.len(),
{
    if used.len() == 0 {
        bx
    } else {
        let b = made_way(bx, u, w, used.drop_last());
        let (lo, hi) = used.last();
        if overlaps(b, u, lo as int, hi as int) {
            beside(u, w, lo as int, hi as int)
        } else {
            b
        }
    }
}

/// How opaque a bubble with `ttl` of `max_ttl` ticks left is, out of 255.
pub open spec fn fade_alpha(ttl: int, max_ttl: int) -> int {
    if ttl < FADE_TICKS && max_ttl > FADE_TICKS {
        64 + ttl * 191 / FADE_TICKS as int
    } else {
        255
    }
}

/// A bubble of a character at position `x` in its place among those that are up.
pub open spec fn balloon_for(
    text: Seq<char>,
    x: int,
    ttl: int,
    max_ttl: int,
    u: int,
    w: int,
    used: Seq<(i32, i32)>,
) -> BalloonView {
    let bx = made_way(centred(x, u, w), u, w, used);
    BalloonView {
        text,
        bx,
        tail_x: clamped(middle(x, u) - u, bx + 2 * u, bx + (BUBBLE_LW - 3) * u),
        alpha: fade_alpha(ttl, max_ttl),
    }
}

/// A scale and a window width whose products an `i32` can hold.
pub open spec fn fair(u: int, w: int) -> bool {
    0 <= u && 168 * u <= i32::MAX && 0 <= w && w + 86 * u <= i32::MAX
}

fn clamp_to(v: i32, lo: i32, hi: i32) -> (r: i32)
    ensures
        r == clamped(v as int, lo as int, hi as int),
{
    if v < lo {
        lo
    } else if v > hi {
        hi
    } else {
        v
    }
}

/// The bubbles that are up lie in a window of width `w`.
pub open spec fn all_in_window(used: Seq<(i32, i32)>, u: int, w: int) -> bool {
    forall|i: int|
        0 <= i < used.len() ==> 0 <= (#[trigger] used[i]).0 && used[i].1 == used[i].0 + BUBBLE_LW
            * u && used[i].0 <= rightmost(u, w)
}

/// Finds a bubble its place, and takes note of it in `used`.
pub fn place_bubble(
    text: String,
    x: i64,
    ttl: u32,
    max_ttl: u32,
    u: i32,
    w: i32,
    used: &mut Vec<(i32, i32)>,
) -> (b: Balloon)
    requires
        0 <= x <= MAX_X,
        fair(u as int, w as int),
        all_in_window(old(used)@, u as int, w as int),
    ensures
        b@ == balloon_for(
            text@,
            x as int,
            ttl as int,
            max_ttl as int,
            u as int,
            w as int,
            old(used)@,
        ),
        final(used)@ == old(used)@.push((b.bx, (b.bx + BUBBLE_LW * u) as i32)),
        all_in_window(final(used)@, u as int, w as int),
        0 <= b.bx <= rightmost(u as int, w as int),
        b.bx <= b.tail_x <= b.bx + BUBBLE_LW * u,
        64 <= b.alpha <= 255,
{
    let bubble_w: i32 = BUBBLE_LW * u;
    let right: i32 = if w > bubble_w {
        w - bubble_w
    } else {
        0
    };
    let col: i32 = (x / ONE) as i32;
    assert(0 <= (col + 16) * u <= 168 * u) by (nonlinear_arith)
        requires
            0 <= col <= 152,
            0 <= u,
    ;
    let cx: i32 = (col + SPRITE / 2) * u;
    let mut bx: i32 = clamp_to(cx - BUBBLE_LW / 2 * u, 0, right);
    let ghost first = bx;
    let mut i: usize = 0;
    assert(used@.take(0) =~= Seq::empty());
    while i < used.len()
        invariant
            fair(u as int, w as int),
            bubble_w == BUBBLE_LW * u,
            right == rightmost(u as int, w as int),
            all_in_window(used@, u as int, w as int),
            i <= used@.len(),
            0 <= bx <= right,
            bx == made_way(first as int, u as int, w as int, used@.take(i as int)),
        decreases used@.len() - i,
    {
        let (lo, hi): (i32, i32) = used[i];
        assert(used@.take(i + 1).drop_last() =~= used@.take(i as int));
        assert(used@.take(i + 1).last() == used@[i as int]);
        if bx < hi && bx + bubble_w > lo {
            let reach: i32 = bubble_w + 2 * u;
            let left: i32 = if lo > reach {
                lo - reach
            } else {
                0
            };
            bx = if hi + 2 * u < right {
                hi + 2 * u
            } else if hi > right && left + bubble_w <= lo {
                left
            } else {
                right
            };
        }
        i = i + 1;
    }
    assert(used@.take(i as int) =~= used@);
    used.push((bx, bx + bubble_w));
    let tail_x: i32 = clamp_to(cx - u, bx + 2 * u, bx + bubble_w - 3 * u);
    let alpha: u32 = if ttl < FADE_TICKS && max_ttl > FADE_TICKS {
        64 + ttl * 191 / FADE_TICKS
    } else {
        255
    };
    Balloon { text, bx, tail_x, alpha }
}

/// The blocks of a bubble: outline, paper, and a tail that points down at the character.
pub open spec fn balloon_blocks(b: BalloonView, u: int) -> Seq<Block> {
    seq![
        Block {
            x: b.bx as i32,
            y: u as i32,
            bw: (BUBBLE_LW * u) as i32,
            bh: (BUBBLE_LH * u) as i32,
            color: opaque(OUTLINE),
        },
        Block {
            x: (b.bx + u) as i32,
            y: (2 * u) as i32,
            bw: ((BUBBLE_LW - 2) * u) as i32,
            bh: ((BUBBLE_LH - 2) * u) as i32,
            color: opaque(PAPER),
        },
        Block {
            x: b.tail_x as i32,
            y: ((BUBBLE_LH + 1) * u) as i32,
            bw: (2 * u) as i32,
            bh: (2 * u) as i32,
            color: opaque(PAPER),
        },
    ]
}

/// A balloon whose edges an `i32` can hold.
pub open spec fn sane(b: BalloonView, u: int) -> bool {
    &&& 0 <= u
    &&& 0 <= b.bx
    &&& b.bx + BUBBLE_LW * u <= i32::MAX
    &&& 0 <= b.tail_x
    &&& b.tail_x + 2 * u <= i32::MAX
    &&& 0 <= b.alpha <= 255
}

/// Paints a bubble without its text.
pub fn draw_bubble(bits: &mut [u32], w: i32, h: i32, u: i32, b: &Balloon)
    requires
        holds_window(old(bits)@, w as int, h as int),
        sane(b@, u as int),
    ensures
        final(bits)@ == painted(old(bits)@, w as int, h as int, balloon_blocks(b@, u as int)),
{
    let border: u32 = bgra(OUTLINE.0, OUTLINE.1, OUTLINE.2);
    let bg: u32 = bgra(PAPER.0, PAPER.1, PAPER.2);
    let bubble_w: i32 = BUBBLE_LW * u;
    let bubble_h: i32 = BUBBLE_LH * u;
    let mut plan: Vec<Block> = Vec::new();
    plan.push(Block { x: b.bx, y: u, bw: bubble_w, bh: bubble_h, color: border });
    plan.push(
        Block { x: b.bx + u, y: u + u, bw: bubble_w - 2 * u, bh: bubble_h - 2 * u, color: bg },
    );
    plan.push(Block { x: b.tail_x, y: u + bubble_h, bw: 2 * u, bh: 2 * u, color: bg });
    assert(plan@ =~= balloon_blocks(b@, u as int));
    paint(bits, w, h, &plan);
}

/// Where a bubble's text goes.
pub fn text_rect(b: &Balloon, u: i32) -> (r: Rect)
    requires
        sane(b@, u as int),
    ensures
        r.left == b.bx + 2 * u,
        r.top == 2 * u,
        r.right == b.bx + (BUBBLE_LW - 2) * u,
        r.bottom == BUBBLE_LH * u,
{
    Rect {
        left: b.bx + 2 * u,
        top: u + u,
        right: b.bx + BUBBLE_LW * u - 2 * u,
        bottom: u + BUBBLE_LH * u - u,
    }
}

/// The colour bytes of a pixel, without its alpha.
pub open spec fn rgb_bits(px: u32) -> int {
    px as int % 0x100_0000
}

/// A colour at an opacity, as a layered window takes it: every channel scaled by the alpha.
pub open spec fn premultiplied(color: int, alpha: int) -> int {
    let r = color / 0x1_0000 % 0x100 * alpha / 255;
    let g = color / 0x100 % 0x100 * alpha / 255;
    let b = color % 0x100 * alpha / 255;
    alpha * 0x100_0000 + r * 0x1_0000 + g * 0x100 + b
}

pub fn premul(color: u32, alpha: u32) -> (px: u32)
    requires
        alpha <= 255,
    ensures
        px == premultiplied(color as int, alpha as int),
{
    assert((color >> 16) & 0xFF == color / 0x1_0000 % 0x100) by (bit_vector);
    assert((color >> 8) & 0xFF == color / 0x100 % 0x100) by (bit_vector);
    assert(color & 0xFF == color % 0x100) by (bit_vector);
    let cr: u32 = (color >> 16) & 0xFF;
    let cg: u32 = (color >> 8) & 0xFF;
    let cb: u32 = color & 0xFF;
    proof {
        lemma_channel(cr as int, alpha as int);
        lemma_channel(cg as int, alpha as int);
        lemma_channel(cb as int, alpha as int);
    }
    let r: u32 = cr * alpha / 255;
    let g: u32 = cg * alpha / 255;
    let b: u32 = cb * alpha / 255;
    assert((alpha << 24) | (r << 16) | (g << 8) | b == alpha * 0x100_0000 + r * 0x1_0000 + g * 0x100
        + b) by (bit_vector)
        requires
            alpha <= 255,
            r <= 255,
            g <= 255,
            b <= 255,
    ;
    (alpha << 24) | (r << 16) | (g << 8) | b
}

/// A scaled channel is at most the alpha that scales it.
pub proof fn lemma_channel(c: int, alpha: int)
    requires
        0 <= c <= 255,
        0 <= alpha <= 255,
    ensures
        0 <= c * alpha <= 65_025,
        0 <= c * alpha / 255 <= alpha,
{
    assert(0 <= c * alpha <= 255 * alpha) by (nonlinear_arith)
        requires
            0 <= c <= 255,
            0 <= alpha <= 255,
    ;
}

/// A pixel of a bubble's region once the bubble's opacity is applied. An opaque bubble makes all of
/// it opaque; a fading one scales what is not black, and everything in the bubble's box.
pub open spec fn blended(px: u32, alpha: int, in_box: bool) -> u32 {
    if alpha >= 255 {
        (0xFF00_0000 + rgb_bits(px)) as u32
    } else if rgb_bits(px) != 0 || in_box {
        premultiplied(rgb_bits(px), alpha) as u32
    } else {
        px
    }
}

/// Whether a pixel lies in a bubble's region: its box and, below, the rows of its tail.
pub open spec fn in_region(b: BalloonView, u: int, w: int, h: int, row: int, col: int) -> bool {
    &&& u <= row < (BUBBLE_LH + 3) * u
    &&& row < h
    &&& b.bx <= col < b.bx + BUBBLE_LW * u
    &&& 0 <= col < w
}

/// A buffer after a bubble's opacity has been applied.
pub open spec fn blended_over(s: Seq<u32>, w: int, h: int, u: int, b: BalloonView) -> Seq<u32> {
    Seq::new(
        s.len(),
        |i: int|
            if w > 0 && in_region(b, u, w, h, i / w, i % w) {
                blended(s[i], b.alpha, i / w < (BUBBLE_LH + 1) * u)
            } else {
                s[i]
            },
    )
}

fn blend_pixel(px: u32, alpha: u32, in_box: bool) -> (r: u32)
    requires
        alpha <= 255,
    ensures
        r == blended(px, alpha as int, in_box),
{
    assert(px & 0x00FF_FFFF == px % 0x100_0000) by (bit_vector);
    assert(px | 0xFF00_0000 == 0xFF00_0000 + px % 0x100_0000) by (bit_vector);
    if alpha >= 255 {
        px | 0xFF00_0000
    } else if px & 0x00FF_FFFF != 0 || in_box {
        premul(px & 0x00FF_FFFF, alpha)
    } else {
        px
    }
}

/// Applies a bubble's opacity to its region, which text drawing leaves with alpha bytes of zero.
pub fn blend_bubble(bits: &mut [u32], w: i32, h: i32, u: i32, b: &Balloon)
    requires
        holds_window(old(bits)@, w as int, h as int),
        sane(b@, u as int),
    ensures
        final(bits)@ == blended_over(old(bits)@, w as int, h as int, u as int, b@),
{
    let ghost start = bits@;
    let ghost v = b@;
    let total: usize = bits.len();
    let bubble_w: i32 = BUBBLE_LW * u;
    let box_bottom: i32 = u + BUBBLE_LH * u;
    let y0: i32 = u;
    let y1: i32 = if box_bottom + 2 * u < h {
        box_bottom + 2 * u
    } else {
        h
    };
    let x0: i32 = b.bx;
    let x1: i32 = if b.bx + bubble_w < w {
        b.bx + bubble_w
    } else {
        w
    };
    if x0 >= x1 || y0 >= y1 {
        assert(bits@ =~= blended_over(start, w as int, h as int, u as int, v));
        return;
    }
    let mut yy: i32 = y0;
    while yy < y1
        invariant
            sane(b@, u as int),
            v == b@,
            box_bottom == (BUBBLE_LH + 1) * u,
            y0 == u,
            y1 <= h,
            y1 <= (BUBBLE_LH + 3) * u,
            y1 == h || y1 == (BUBBLE_LH + 3) * u,
            x0 == v.bx,
            x1 <= w,
            x1 <= v.bx + BUBBLE_LW * u,
            x1 == w || x1 == v.bx + BUBBLE_LW * u,
            x0 < x1,
            y0 <= yy <= y1,
            bits@.len() == start.len(),
            w * h <= start.len() == total,
            forall|i: int|
                0 <= i < start.len() ==> #[trigger] bits@[i] == if in_region(
                    v,
                    u as int,
                    w as int,
                    h as int,
                    i / (w as int),
                    i % (w as int),
                ) && i / (w as int) < yy {
                    blended(start[i], v.alpha, i / (w as int) < (BUBBLE_LH + 1) * u)
                } else {
                    start[i]
                },
        decreases y1 - yy,
    {
        let ghost before = bits@;
        assert(yy * w + w <= w * h) by (nonlinear_arith)
            requires
                0 <= yy < h,
                w > 0,
        ;
        assert(0 <= yy * w) by (nonlinear_arith)
            requires
                0 <= yy,
                w > 0,
        ;
        let row: usize = yy as usize * w as usize;
        let in_box: bool = yy < box_bottom;
        let mut xx: i32 = x0;
        while xx < x1
            invariant
                sane(b@, u as int),
                v == b@,
                in_box == (yy < (BUBBLE_LH + 1) * u),
                0 <= x0 <= xx <= x1 <= w,
                row + w <= start.len(),
                bits@.len() == start.len(),
                before.len() == start.len(),
                forall|i: int|
                    0 <= i < start.len() ==> #[trigger] bits@[i] == if row + x0 <= i < row + xx {
                        blended(before[i], v.alpha, in_box)
                    } else {
                        before[i]
                    },
            decreases x1 - xx,
        {
            let idx: usize = row + xx as usize;
            let px: u32 = bits[idx];
            bits[idx] = blend_pixel(px, b.alpha, in_box);
            xx = xx + 1;
        }
        assert forall|i: int| 0 <= i < start.len() implies #[trigger] bits@[i] == if in_region(
            v,
            u as int,
            w as int,
            h as int,
            i / (w as int),
            i % (w as int),
        ) && i / (w as int) < yy + 1 {
            blended(start[i], v.alpha, i / (w as int) < (BUBBLE_LH + 1) * u)
        } else {
            start[i]
        } by {
            lemma_fundamental_div_mod(i, w as int);
            if row + x0 <= i < row + x1 {
                lemma_fundamental_div_mod_converse(i, w as int, yy as int, i - row);
            }
            if i / (w as int) == yy {
                assert(i == yy * w + i % (w as int)) by (nonlinear_arith)
                    requires
                        i == (w as int) * (i / (w as int)) + i % (w as int),
                        i / (w as int) == yy,
                ;
            }
            assert(before[i] == if in_region(
                v,
                u as int,
                w as int,
                h as int,
                i / (w as int),
                i % (w as int),
            ) && i / (w as int) < yy {
                blended(start[i], v.alpha, i / (w as int) < (BUBBLE_LH + 1) * u)
            } else {
                start[i]
            });
        }
        yy = yy + 1;
    }
    assert(bits@ =~= blended_over(start, w as int, h as int, u as int, v));
}

/// Every bubble lies in the window, if a bubble fits into it at all, with its tail under the bubble.
pub proof fn law_bubbles_lie_in_the_window(
    text: Seq<char>,
    x: int,
    ttl: int,
    max_ttl: int,
    u: int,
    w: int,
    used: Seq<(i32, i32)>,
)
    requires
        0 <= x <= MAX_X,
        fair(u, w),
        BUBBLE_LW * u <= w,
        all_in_window(used, u, w),
    ensures
        ({
            let b = balloon_for(text, x, ttl, max_ttl, u, w, used);
            &&& 0 <= b.bx
            &&& b.bx + BUBBLE_LW * u <= w
            &&& b.bx <= b.tail_x
            &&& b.tail_x + 2 * u <= b.bx + BUBBLE_LW * u
        }),
{
    lemma_made_way(centred(x, u, w), u, w, used);
}

proof fn lemma_made_way(bx: int, u: int, w: int, used: Seq<(i32, i32)>)
    requires
        0 <= bx <= rightmost(u, w),
        0 <= u,
        all_in_window(used, u, w),
    ensures
        0 <= made_way(bx, u, w, used) <= rightmost(u, w),
    decreases used.len(),
{
    if used.len() > 0 {
        assert(all_in_window(used.drop_last(), u, w)) by {
            assert forall|i: int| 0 <= i < used.len() - 1 implies (#[trigger] used.drop_last()[i])
                == used[i] by {}
        }
        lemma_made_way(bx, u, w, used.drop_last());
    }
}

/// A second bubble does not overlap the first wherever the window has room for it on either side of
/// the first.
pub proof fn law_second_bubble_keeps_clear(bx: int, u: int, w: int, lo: i32, hi: i32)
    requires
        0 <= u,
        hi == lo + BUBBLE_LW * u,
    ensures
        (hi <= rightmost(u, w) || lo >= BUBBLE_LW * u) ==> !overlaps(
            made_way(bx, u, w, seq![(lo, hi)]),
            u,
            lo as int,
            hi as int,
        ),
{
    let used = seq![(lo, hi)];
    assert(used.drop_last() =~= Seq::empty());
    assert(made_way(bx, u, w, used.drop_last()) == bx);
}

/// A second bubble overlaps the first only if no place in the window is clear of it.
pub proof fn law_second_bubble_finds_room(bx: int, u: int, w: int, lo: i32, hi: i32, free: int)
    requires
        0 <= u,
        0 <= lo,
        hi == lo + BUBBLE_LW * u,
        0 <= free <= rightmost(u, w),
        !overlaps(free, u, lo as int, hi as int),
    ensures
        !overlaps(made_way(bx, u, w, seq![(lo, hi)]), u, lo as int, hi as int),
{
    law_second_bubble_keeps_clear(bx, u, w, lo, hi);
}

/// A bubble is fully opaque until its last ticks, then only gets fainter as they run out, but never
/// vanishes while it is up.
pub proof fn law_bubbles_fade_steadily(ttl: int, later: int, max_ttl: int)
    requires
        0 <= later <= ttl <= max_ttl,
    ensures
        fade_alpha(later, max_ttl) <= fade_alpha(ttl, max_ttl),
        64 <= fade_alpha(later, max_ttl) <= fade_alpha(ttl, max_ttl) <= 255,
        ttl >= FADE_TICKS ==> fade_alpha(ttl, max_ttl) == 255,
{
}

/// An opaque bubble leaves no pixel of its region transparent, whatever text was drawn there.
pub proof fn law_opaque_bubbles_hide_what_is_behind(px: u32, in_box: bool)
    ensures
        blended(px, 255, in_box) >= 0xFF00_0000,
        rgb_bits(blended(px, 255, in_box)) == rgb_bits(px),
{
    lemma_fundamental_div_mod_converse(0xFF00_0000 + rgb_bits(px), 0x100_0000, 0xFF, rgb_bits(px));
}

/// In a fading bubble's box every pixel has the bubble's alpha, and no channel above it: the pixel
/// is premultiplied.
pub proof fn law_fading_pixels_are_premultiplied(px: u32, alpha: int)
    requires
        0 <= alpha < 255,
    ensures
        ({
            let p = blended(px, alpha, true) as int;
            &&& p / 0x100_0000 == alpha
            &&& p / 0x1_0000 % 0x100 <= alpha
            &&& p / 0x100 % 0x100 <= alpha
            &&& p % 0x100 <= alpha
        }),
{
    let color = rgb_bits(px);
    lemma_channel(color / 0x1_0000 % 0x100, alpha);
    lemma_channel(color / 0x100 % 0x100, alpha);
    lemma_channel(color % 0x100, alpha);
    lemma_bytes(
        alpha,
        color / 0x1_0000 % 0x100 * alpha / 255,
        color / 0x100 % 0x100 * alpha / 255,
        color % 0x100 * alpha / 255,
    );
}

/// The bytes of a pixel put together from four.
pub proof fn lemma_bytes(a: int, r: int, g: int, b: int)
    requires
        0 <= a <= 255,
        0 <= r <= 255,
        0 <= g <= 255,
        0 <= b <= 255,
    ensures
        ({
            let p = a * 0x100_0000 + r * 0x1_0000 + g * 0x100 + b;
            &&& 0 <= p <= u32::MAX
            &&& p / 0x100_0000 == a
            &&& p / 0x1_0000 % 0x100 == r
            &&& p / 0x100 % 0x100 == g
            &&& p % 0x100 == b
        }),
{
    let p = a * 0x100_0000 + r * 0x1_0000 + g * 0x100 + b;
    let low = r * 0x1_0000 + g * 0x100 + b;
    lemma_fundamental_div_mod_converse(p, 0x100_0000, a, low);
    lemma_fundamental_div_mod_converse(p, 0x1_0000, a * 0x100 + r, g * 0x100 + b);
    lemma_fundamental_div_mod_converse(a * 0x100 + r, 0x100, a, r);
    lemma_fundamental_div_mod_converse(p, 0x100, a * 0x1_0000 + r * 0x100 + g, b);
    lemma_fundamental_div_mod_converse(a * 0x1_0000 + r * 0x100 + g, 0x100, a * 0x100 + r, g);
}

/// A bubble that lies across none of those that are up stays where it is.
pub proof fn law_bubbles_stay_where_there_is_room(bx: int, u: int, w: int, used: Seq<(i32, i32)>)
    requires
        forall|i: int|
            0 <= i < used.len() ==> bx >= (#[trigger] used[i]).1 || bx + 84 * u <= used[i].0,
    ensures
        made_way(bx, u, w, used) == bx,
    decreases used.len(),
{
    if used.len() > 0 {
        assert forall|i: int| 0 <= i < used.drop_last().len() implies bx >= (
        #[trigger] used.drop_last()[i]).1 || bx + 84 * u <= used.drop_last()[i].0 by {
            assert(used.drop_last()[i] == used[i]);
        }
        law_bubbles_stay_where_there_is_room(bx, u, w, used.drop_last());
        assert(used.last() == used[used.len() - 1]);
    }
}

/// The first bubble that goes up has its middle over the middle of its character, unless that would
/// take it beyond an edge of the window: then it ends there.
pub proof fn law_bubbles_sit_over_their_characters(
    text: Seq<char>,
    x: int,
    ttl: int,
    max_ttl: int,
    u: int,
    w: int,
)
    requires
        0 <= u,
        84 * u <= w,
    ensures
        ({
            let b = balloon_for(text, x, ttl, max_ttl, u, w, Seq::empty());
            let middle_of = (x / 0x100_0000int + 16) * u;
            &&& b.text == text
            &&& 0 <= b.bx <= w - 84 * u
            &&& 0 <= middle_of - 42 * u <= w - 84 * u ==> b.bx + 42 * u == middle_of
            &&& middle_of < 42 * u ==> b.bx == 0
            &&& middle_of - 42 * u > w - 84 * u ==> b.bx == w - 84 * u
        }),
{
    law_bubbles_stay_where_there_is_room(centred(x, u, w), u, w, Seq::empty());
}

/// Each channel of a premultiplied pixel is that part of the colour's own that the alpha is of 255,
/// rounded down.
pub proof fn law_channels_are_scaled(color: int, alpha: int)
    requires
        0 <= color,
        0 <= alpha <= 255,
    ensures
        ({
            let p = premultiplied(color, alpha);
            let (r, g, b) = (p / 0x1_0000 % 0x100, p / 0x100 % 0x100, p % 0x100);
            &&& p / 0x100_0000 == alpha
            &&& 255 * r <= color / 0x1_0000 % 0x100 * alpha < 255 * (r + 1)
            &&& 255 * g <= color / 0x100 % 0x100 * alpha < 255 * (g + 1)
            &&& 255 * b <= color % 0x100 * alpha < 255 * (b + 1)
        }),
{
    let (r, g, b) = (color / 0x1_0000 % 0x100, color / 0x100 % 0x100, color % 0x100);
    lemma_channel(r, alpha);
    lemma_channel(g, alpha);
    lemma_channel(b, alpha);
    lemma_bytes(alpha, r * alpha / 255, g * alpha / 255, b * alpha / 255);
}

} // verus!
