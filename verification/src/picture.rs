//! The picture of a sprite alone on a blank square, and what holds of it whichever way the sprite
//! faces and at whatever scale.

use crate::canvas::hit;
use crate::canvas::law_painting_keeps_size;
use crate::canvas::opaque;
use crate::canvas::painted;
use crate::canvas::{Block, Rgb};
use crate::position::SPRITE;
use crate::sprite::lemma_reaches;
use crate::sprite::Spot;
use vstd::arithmetic::div_mod::lemma_fundamental_div_mod;
use vstd::arithmetic::div_mod::lemma_fundamental_div_mod_converse;
use vstd::prelude::*;

verus! {

/// A rectangle of cells of one colour, of a sprite that faces right.
pub ghost struct Patch {
    pub x: int,
    pub y: int,
    pub bw: int,
    pub bh: int,
    pub rgb: Rgb,
}

impl Patch {
    /// The block that is painted for it where the sprite stands.
    pub open spec fn at(self, spot: Spot) -> Block {
        spot.block(self.x, self.y, self.bw, self.bh, opaque(self.rgb))
    }

    /// A sprite alone on a square of scale `u` holds it.
    pub open spec fn near(self, u: i32) -> bool {
        alone(u, false).holds(self.x, self.y, self.bw, self.bh)
    }
}

pub open spec fn patch(x: int, y: int, bw: int, bh: int, rgb: Rgb) -> Patch {
    Patch { x, y, bw, bh, rgb }
}

/// The blocks that are painted for a list of patches.
pub open spec fn placed(spot: Spot, patches: Seq<Patch>) -> Seq<Block> {
    patches.map_values(|c: Patch| c.at(spot))
}

/// A sprite alone on a square of scale `u` holds all the patches.
pub open spec fn tidy(u: i32, patches: Seq<Patch>) -> bool {
    forall|k: int| 0 <= k < patches.len() ==> (#[trigger] patches[k]).near(u)
}

/// Two lists of patches are painted one after the other.
pub proof fn lemma_placed_on(spot: Spot, a: Seq<Patch>, b: Seq<Patch>)
    ensures
        placed(spot, a + b) == placed(spot, a) + placed(spot, b),
        tidy(spot.u, a) && tidy(spot.u, b) ==> tidy(spot.u, a + b),
{
    assert(placed(spot, a + b) =~= placed(spot, a) + placed(spot, b));
}

/// The spot at the top left of a square of its own.
pub open spec fn alone(u: i32, mirror: bool) -> Spot {
    Spot { ox: 0, oy: 0, u, mirror }
}

/// A square of `u` device pixels per cell, blank but for some blocks.
pub open spec fn picture(u: int, blocks: Seq<Block>) -> Seq<u32> {
    painted(
        Seq::new(((SPRITE * u) * (SPRITE * u)) as nat, |i: int| 0u32),
        SPRITE * u,
        SPRITE * u,
        blocks,
    )
}

/// The pixel in row `y` and column `x` of such a square.
pub open spec fn pixel(bits: Seq<u32>, u: int, y: int, x: int) -> u32 {
    bits[y * (SPRITE * u) + x]
}

/// Row `y` and column `x` lie in the square.
pub open spec fn in_square(u: int, y: int, x: int) -> bool {
    0 <= y < SPRITE * u && 0 <= x < SPRITE * u
}

proof fn lemma_index(u: int, y: int, x: int)
    requires
        1 <= u,
        in_square(u, y, x),
    ensures
        0 <= y * (SPRITE * u) + x < (SPRITE * u) * (SPRITE * u),
        (y * (SPRITE * u) + x) / (SPRITE * u) == y,
        (y * (SPRITE * u) + x) % (SPRITE * u) == x,
{
    let w = SPRITE * u;
    assert(0 <= y * w + x < w * w) by (nonlinear_arith)
        requires
            0 <= y < w,
            0 <= x < w,
    ;
    lemma_fundamental_div_mod_converse(y * w + x, w, y, x);
}

/// What a pixel of a picture is, as the last block is painted.
proof fn lemma_last(u: int, blocks: Seq<Block>, y: int, x: int)
    requires
        1 <= u,
        in_square(u, y, x),
    ensures
        pixel(picture(u, blocks), u, y, x) == if blocks.len() == 0 {
            0
        } else if blocks.last().covers(y, x) {
            blocks.last().color
        } else {
            pixel(picture(u, blocks.drop_last()), u, y, x)
        },
{
    lemma_index(u, y, x);
    let w = SPRITE * u;
    let blank = Seq::new((w * w) as nat, |i: int| 0u32);
    law_painting_keeps_size(blank, w, w, blocks);
    if blocks.len() > 0 {
        law_painting_keeps_size(blank, w, w, blocks.drop_last());
        assert(hit(blocks.last(), w, w, y * w + x) == blocks.last().covers(y, x));
    }
}

/// A block's edges in device pixels are those in cells, times the size of a cell.
proof fn lemma_block(u: i32, mirror: bool, c: Patch)
    requires
        0 <= u,
        alone(u, mirror).wf(),
        c.near(u),
    ensures
        ({
            let b = c.at(alone(u, mirror));
            &&& b.x == alone(u, mirror).column(c.x, c.bw) * u
            &&& b.y == c.y * u
            &&& b.bw == c.bw * u
            &&& b.bh == c.bh * u
            &&& b.color == opaque(c.rgb) >= 0xFF00_0000
        }),
{
    let col = alone(u, mirror).column(c.x, c.bw);
    lemma_reaches(alone(u, false), c.y);
    assert(-200 * u <= col * u <= 200 * u && c.y * u <= 200 * u && 0 <= c.bw * u <= 200 * u && 0
        <= c.bh * u <= 200 * u) by (nonlinear_arith)
        requires
            0 <= u,
            -200 <= col <= 200,
            c.y <= 200,
            0 <= c.bw <= 200,
            0 <= c.bh <= 200,
    ;
}

proof fn lemma_shorter(spot: Spot, patches: Seq<Patch>)
    requires
        patches.len() > 0,
    ensures
        placed(spot, patches).drop_last() == placed(spot, patches.drop_last()),
        tidy(spot.u, patches) ==> tidy(spot.u, patches.drop_last()),
{
    assert(placed(spot, patches).drop_last() =~= placed(spot, patches.drop_last()));
    if tidy(spot.u, patches) {
        assert forall|k: int| 0 <= k < patches.drop_last().len() implies (
        #[trigger] patches.drop_last()[k]).near(spot.u) by {
            assert(patches.drop_last()[k] == patches[k]);
        }
    }
}

/// A sprite that faces left is the mirror image of one that faces right.
pub proof fn lemma_turned_round(u: i32, patches: Seq<Patch>, y: int, x: int)
    requires
        1 <= u,
        alone(u, false).wf(),
        tidy(u, patches),
        in_square(u as int, y, x),
    ensures
        pixel(picture(u as int, placed(alone(u, true), patches)), u as int, y, x) == pixel(
            picture(u as int, placed(alone(u, false), patches)),
            u as int,
            y,
            SPRITE * u - 1 - x,
        ),
    decreases patches.len(),
{
    let left = placed(alone(u, true), patches);
    let right = placed(alone(u, false), patches);
    lemma_last(u as int, left, y, x);
    lemma_last(u as int, right, y, SPRITE * u - 1 - x);
    if patches.len() > 0 {
        let c = patches.last();
        lemma_block(u, true, c);
        lemma_block(u, false, c);
        assert((SPRITE - c.x - c.bw) * u == SPRITE * u - c.x * u - c.bw * u) by (nonlinear_arith);
        assert(left.last().covers(y, x) == right.last().covers(y, SPRITE * u - 1 - x));
        lemma_shorter(alone(u, true), patches);
        lemma_shorter(alone(u, false), patches);
        lemma_turned_round(u, patches.drop_last(), y, x);
    }
}

/// An edge between cells lies at or before a pixel if it lies at or before the pixel's cell.
proof fn lemma_cell_edge(k: int, u: int, x: int)
    requires
        1 <= u,
    ensures
        (k * u <= x) == (k <= x / u),
{
    lemma_fundamental_div_mod(x, u);
    let q = x / u;
    let r = x % u;
    if k <= q {
        assert(k * u <= q * u) by (nonlinear_arith)
            requires
                k <= q,
                1 <= u,
        ;
        assert(q * u == u * q) by (nonlinear_arith);
    } else {
        assert(k * u >= (q + 1) * u) by (nonlinear_arith)
            requires
                k >= q + 1,
                1 <= u,
        ;
        assert((q + 1) * u == u * q + u) by (nonlinear_arith);
    }
}

/// A sprite at scale `u` is the sprite at scale 1 with every pixel grown to a square.
pub proof fn lemma_grown(u: i32, mirror: bool, patches: Seq<Patch>, y: int, x: int)
    requires
        1 <= u,
        alone(u, mirror).wf(),
        tidy(u, patches),
        in_square(u as int, y, x),
    ensures
        in_square(1, y / (u as int), x / (u as int)),
        pixel(picture(u as int, placed(alone(u, mirror), patches)), u as int, y, x) == pixel(
            picture(1, placed(alone(1, mirror), patches)),
            1,
            y / (u as int),
            x / (u as int),
        ),
    decreases patches.len(),
{
    let un = u as int;
    let large = placed(alone(u, mirror), patches);
    let small = placed(alone(1, mirror), patches);
    lemma_cell_edge(SPRITE as int, un, x);
    lemma_cell_edge(SPRITE as int, un, y);
    lemma_cell_edge(0, un, x);
    lemma_cell_edge(0, un, y);
    lemma_last(un, large, y, x);
    lemma_last(1, small, y / un, x / un);
    if patches.len() > 0 {
        let c = patches.last();
        let col = alone(u, mirror).column(c.x, c.bw);
        assert(c.y < 0 ==> c.y * un <= c.y) by (nonlinear_arith)
            requires
                1 <= un,
        ;
        lemma_block(u, mirror, c);
        lemma_block(1, mirror, c);
        lemma_cell_edge(col, un, x);
        lemma_cell_edge(col + c.bw, un, x);
        lemma_cell_edge(c.y, un, y);
        lemma_cell_edge(c.y + c.bh, un, y);
        assert((col + c.bw) * un == col * un + c.bw * un) by (nonlinear_arith);
        assert((c.y + c.bh) * un == c.y * un + c.bh * un) by (nonlinear_arith);
        assert(large.last().covers(y, x) == small.last().covers(y / un, x / un));
        lemma_shorter(alone(u, mirror), patches);
        lemma_shorter(alone(1, mirror), patches);
        lemma_grown(u, mirror, patches.drop_last(), y, x);
    }
}

/// A pixel of a sprite is opaque, or was never painted.
pub proof fn lemma_opaque_or_blank(u: i32, mirror: bool, patches: Seq<Patch>, y: int, x: int)
    requires
        1 <= u,
        alone(u, mirror).wf(),
        tidy(u, patches),
        in_square(u as int, y, x),
    ensures
        ({
            let px = pixel(picture(u as int, placed(alone(u, mirror), patches)), u as int, y, x);
            px == 0 || px >= 0xFF00_0000
        }),
    decreases patches.len(),
{
    lemma_last(u as int, placed(alone(u, mirror), patches), y, x);
    if patches.len() > 0 {
        lemma_block(u, mirror, patches.last());
        lemma_shorter(alone(u, mirror), patches);
        lemma_opaque_or_blank(u, mirror, patches.drop_last(), y, x);
    }
}

} // verus!
