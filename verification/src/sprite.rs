//! The cat and the dog, drawn from blocks on a grid of 32 by 32 cells.

use crate::canvas::bgra;
use crate::canvas::opaque;
use crate::canvas::paint;
use crate::canvas::painted;
use crate::canvas::{holds_window, Block, Rgb};
use crate::critter::Pose;
use crate::mood::Band;
use crate::picture::alone;
use crate::picture::in_square;
use crate::picture::lemma_grown;
use crate::picture::lemma_opaque_or_blank;
use crate::picture::lemma_placed_on;
use crate::picture::lemma_turned_round;
use crate::picture::patch;
use crate::picture::picture;
use crate::picture::pixel;
use crate::picture::placed;
use crate::picture::tidy;
use crate::picture::Patch;
use crate::position::SPRITE;
use vstd::prelude::*;

verus! {

/// What a block is a part of, which decides its colour.
#[derive(Clone, Copy, Debug, PartialEq, Eq, Structural)]
pub enum Part {
    Body,
    Dark,
    Light,
    Eye,
    EyeHi,
    Nose,
    Mouth,
    Ear,
    Collar,
    Buckle,
}

/// What moves a block.
#[derive(Clone, Copy, Debug, PartialEq, Eq, Structural)]
pub enum Tag {
    Fixed,
    Ear,
    LegFront,
    LegBack,
    Eyes,
    Tail,
}

/// A block of a sprite that faces right: its cell, its size in cells, its part and its tag.
pub type Row = (i32, i32, i32, i32, Part, Tag);

pub const CAT_BLOCKS: [Row; 24] = [
    // tail
    (2, 14, 3, 2, Part::Body, Tag::Tail),
    (1, 10, 2, 5, Part::Body, Tag::Tail),
    (1, 9, 2, 2, Part::Dark, Tag::Tail),
    // ears
    (6, 2, 5, 5, Part::Body, Tag::Ear),
    (21, 2, 5, 5, Part::Body, Tag::Ear),
    (8, 3, 2, 2, Part::Ear, Tag::Ear),
    (22, 3, 2, 2, Part::Ear, Tag::Ear),
    // head
    (6, 5, 20, 14, Part::Body, Tag::Fixed),
    (7, 6, 7, 3, Part::Light, Tag::Fixed),  // top-left highlight
    (8, 16, 16, 2, Part::Dark, Tag::Fixed),  // chin shade
    (11, 13, 10, 5, Part::Light, Tag::Fixed),  // muzzle
    // eyes
    (11, 9, 3, 4, Part::Eye, Tag::Eyes),
    (19, 9, 3, 4, Part::Eye, Tag::Eyes),
    (12, 9, 1, 1, Part::EyeHi, Tag::Eyes),
    (20, 9, 1, 1, Part::EyeHi, Tag::Eyes),
    // nose + mouth
    (15, 13, 2, 2, Part::Nose, Tag::Fixed),
    (14, 15, 1, 1, Part::Mouth, Tag::Fixed),
    (17, 15, 1, 1, Part::Mouth, Tag::Fixed),
    // body
    (9, 19, 14, 9, Part::Body, Tag::Fixed),
    (12, 22, 8, 5, Part::Light, Tag::Fixed),  // belly
    // collar
    (9, 19, 14, 2, Part::Collar, Tag::Fixed),
    (15, 19, 2, 2, Part::Buckle, Tag::Fixed),
    // legs
    (10, 28, 4, 3, Part::Body, Tag::LegBack),
    (18, 28, 4, 3, Part::Body, Tag::LegFront),
];

pub const DOG_BLOCKS: [Row; 20] = [
    // tail
    (26, 16, 3, 2, Part::Body, Tag::Tail),
    (28, 12, 2, 5, Part::Body, Tag::Tail),
    // floppy ears
    (4, 5, 5, 10, Part::Ear, Tag::Ear),
    (23, 5, 5, 10, Part::Ear, Tag::Ear),
    // head
    (7, 4, 18, 15, Part::Body, Tag::Fixed),
    (8, 5, 7, 3, Part::Light, Tag::Fixed),
    (11, 13, 11, 6, Part::Light, Tag::Fixed),  // snout
    (9, 16, 14, 2, Part::Dark, Tag::Fixed),
    // eyes
    (12, 8, 3, 4, Part::Eye, Tag::Eyes),
    (18, 8, 3, 4, Part::Eye, Tag::Eyes),
    (13, 8, 1, 1, Part::EyeHi, Tag::Eyes),
    (19, 8, 1, 1, Part::EyeHi, Tag::Eyes),
    // nose + mouth
    (15, 13, 3, 3, Part::Nose, Tag::Fixed),
    (13, 18, 6, 1, Part::Mouth, Tag::Fixed),
    // body
    (9, 19, 14, 9, Part::Body, Tag::Fixed),
    (12, 22, 8, 5, Part::Light, Tag::Fixed),
    // collar
    (9, 19, 14, 2, Part::Collar, Tag::Fixed),
    (15, 19, 2, 2, Part::Buckle, Tag::Fixed),
    // legs
    (10, 28, 4, 3, Part::Body, Tag::LegBack),
    (18, 28, 4, 3, Part::Body, Tag::LegFront),
];

// Colours that every coat shares.
pub const EYE: Rgb = (40, 38, 45);

pub const EYE_HI: Rgb = (255, 255, 255);

pub const MOUTH: Rgb = (70, 55, 55);

pub const COLLAR: Rgb = (210, 70, 70);

pub const BUCKLE: Rgb = (240, 210, 90);

/// The worried drop of sweat.
pub const SWEAT: Rgb = (150, 205, 240);

pub const WHITE: Rgb = (255, 255, 255);

// Coats: body, dark, light, ear and nose.
pub const ORANGE_CAT: [Rgb; 5] = [
    (235, 160, 80),
    (200, 120, 50),
    (250, 205, 140),
    (240, 175, 185),
    (220, 120, 130),
];

pub const GREY_CAT: [Rgb; 5] = [
    (150, 154, 160),
    (110, 114, 122),
    (205, 208, 214),
    (235, 180, 188),
    (210, 130, 140),
];

pub const BROWN_DOG: [Rgb; 5] = [
    (184, 134, 84),
    (140, 95, 55),
    (222, 188, 142),
    (150, 105, 65),
    (60, 45, 42),
];

pub const BLACK_DOG: [Rgb; 5] = [
    (92, 92, 100),
    (58, 58, 66),
    (140, 140, 150),
    (70, 70, 78),
    (40, 38, 42),
];

/// The coat that a variant wears.
pub open spec fn coat(is_cat: bool, variant: int) -> [Rgb; 5] {
    if is_cat {
        if variant == 0 {
            ORANGE_CAT
        } else {
            GREY_CAT
        }
    } else {
        if variant == 0 {
            BROWN_DOG
        } else {
            BLACK_DOG
        }
    }
}

/// The colour of a part.
pub open spec fn part_rgb(is_cat: bool, variant: int, part: Part) -> Rgb {
    let c = coat(is_cat, variant)@;
    match part {
        Part::Body => c[0],
        Part::Dark => c[1],
        Part::Light => c[2],
        Part::Ear => c[3],
        Part::Nose => c[4],
        Part::Eye => EYE,
        Part::EyeHi => EYE_HI,
        Part::Mouth => MOUTH,
        Part::Collar => COLLAR,
        Part::Buckle => BUCKLE,
    }
}

/// The pixel of a part.
pub fn palette(is_cat: bool, variant: u8, part: Part) -> (pixel: u32)
    ensures
        pixel == opaque(part_rgb(is_cat, variant as int, part)),
{
    let c: [Rgb; 5] = if is_cat {
        if variant == 0 {
            ORANGE_CAT
        } else {
            GREY_CAT
        }
    } else {
        if variant == 0 {
            BROWN_DOG
        } else {
            BLACK_DOG
        }
    };
    let rgb: Rgb = match part {
        Part::Body => c[0],
        Part::Dark => c[1],
        Part::Light => c[2],
        Part::Ear => c[3],
        Part::Nose => c[4],
        Part::Eye => EYE,
        Part::EyeHi => EYE_HI,
        Part::Mouth => MOUTH,
        Part::Collar => COLLAR,
        Part::Buckle => BUCKLE,
    };
    bgra(rgb.0, rgb.1, rgb.2)
}

/// The blocks of the cat or the dog, facing right.
pub open spec fn sprite_rows(is_cat: bool) -> Seq<Row> {
    if is_cat {
        CAT_BLOCKS@
    } else {
        DOG_BLOCKS@
    }
}

pub fn character_blocks(is_cat: bool) -> (rows: &'static [Row])
    ensures
        rows@ == sprite_rows(is_cat),
{
    if is_cat {
        &CAT_BLOCKS
    } else {
        &DOG_BLOCKS
    }
}

/// How far the movable blocks of a sprite are off their places in a frame, and whether the eyes are
/// shut.
#[derive(Clone, Copy, Debug, PartialEq, Eq, Structural)]
pub struct Anim {
    pub body_dy: i32,
    pub ear_dy: i32,
    pub leg_front_dx: i32,
    pub leg_back_dx: i32,
    pub tail_dy: i32,
    pub blink: bool,
}

impl Anim {
    /// Every offset is a few cells at most.
    pub open spec fn small(self) -> bool {
        &&& -4 <= self.body_dy <= 1
        &&& -2 <= self.ear_dy <= 0
        &&& -2 <= self.leg_front_dx <= 2
        &&& -2 <= self.leg_back_dx <= 2
        &&& -3 <= self.tail_dy <= 0
    }
}

/// One of two values in turn, each for `period` frames.
pub open spec fn swing(frame: int, period: int, first: i32, second: i32) -> i32 {
    if frame / period % 2 == 0 {
        first
    } else {
        second
    }
}

/// The offsets of a pose in a frame.
pub open spec fn anim_of(pose: Pose, frame: int, blink_ctr: int) -> Anim {
    let rest = Anim {
        body_dy: 0,
        ear_dy: 0,
        leg_front_dx: 0,
        leg_back_dx: 0,
        tail_dy: 0,
        blink: false,
    };
    match pose {
        // A gentle bob, and a blink now and then.
        Pose::Idle => Anim {
            body_dy: swing(frame, 6, 0, 1),
            tail_dy: swing(frame, 8, 0, -1i32),
            blink: blink_ctr < 2,
            ..rest
        },
        // The legs swing apart every other phase of four; in between they pass, and the body is up.
        Pose::Walk => {
            let phase = frame / 2 % 4;
            let stride: i32 = if phase == 0 {
                2
            } else if phase == 2 {
                -2i32
            } else {
                0
            };
            Anim {
                leg_front_dx: stride,
                leg_back_dx: (-stride) as i32,
                body_dy: swing(frame, 2, 0, 1),
                tail_dy: swing(frame, 3, -1i32, 0),
                ..rest
            }
        },
        // Ears up and a wagging tail.
        Pose::React => Anim {
            ear_dy: -2i32,
            tail_dy: swing(frame, 2, -3i32, -1i32),
            body_dy: swing(frame, 3, 0, 1),
            ..rest
        },
        Pose::Hover => Anim {
            ear_dy: -1i32,
            body_dy: swing(frame, 4, 0, 1),
            tail_dy: swing(frame, 2, -2i32, 0),
            ..rest
        },
        // A quick jump.
        Pose::Clicked => Anim { body_dy: -4i32, ear_dy: -2i32, tail_dy: -3i32, ..rest },
    }
}

fn swing_value(frame: u64, period: u64, first: i32, second: i32) -> (v: i32)
    requires
        period > 0,
    ensures
        v == swing(frame as int, period as int, first, second),
{
    if frame / period % 2 == 0 {
        first
    } else {
        second
    }
}

pub fn anim_for(pose: Pose, frame: u64, blink_ctr: u32) -> (a: Anim)
    ensures
        a == anim_of(pose, frame as int, blink_ctr as int),
        a.small(),
{
    let mut a = Anim {
        body_dy: 0,
        ear_dy: 0,
        leg_front_dx: 0,
        leg_back_dx: 0,
        tail_dy: 0,
        blink: false,
    };
    match pose {
        Pose::Idle => {
            a.body_dy = swing_value(frame, 6, 0, 1);
            a.blink = blink_ctr < 2;
            a.tail_dy = swing_value(frame, 8, 0, -1);
        },
        Pose::Walk => {
            let phase: u64 = frame / 2 % 4;
            let stride: i32 = if phase == 0 {
                2
            } else if phase == 2 {
                -2
            } else {
                0
            };
            a.leg_front_dx = stride;
            a.leg_back_dx = -stride;
            a.body_dy = if phase % 2 == 0 { 0 } else { 1 };
            a.tail_dy = swing_value(frame, 3, -1, 0);
        },
        Pose::React => {
            a.ear_dy = -2;
            a.tail_dy = swing_value(frame, 2, -3, -1);
            a.body_dy = swing_value(frame, 3, 0, 1);
        },
        Pose::Hover => {
            a.ear_dy = -1;
            a.body_dy = swing_value(frame, 4, 0, 1);
            a.tail_dy = swing_value(frame, 2, -2, 0);
        },
        Pose::Clicked => {
            a.body_dy = -4;
            a.ear_dy = -2;
            a.tail_dy = -3;
        },
    }
    a
}

/// Where a sprite stands: the device pixel of its top left cell, the size of a cell, and whether it
/// faces left.
#[derive(Clone, Copy, Debug, PartialEq, Eq, Structural)]
pub struct Spot {
    pub ox: i32,
    pub oy: i32,
    pub u: i32,
    pub mirror: bool,
}

impl Spot {
    /// Every block on or near the grid has edges that an `i32` can hold.
    pub open spec fn wf(self) -> bool {
        &&& 0 <= self.u
        &&& i32::MIN <= self.ox - 232 * self.u
        &&& self.ox + 232 * self.u <= i32::MAX
        &&& i32::MIN <= self.oy - 232 * self.u
        &&& self.oy + 232 * self.u <= i32::MAX
    }

    /// A block of cells, counted from the left edge whichever way the sprite faces.
    pub open spec fn cells(self, x: int, y: int, bw: int, bh: int, color: u32) -> Block {
        Block {
            x: (self.ox + x * self.u) as i32,
            y: (self.oy + y * self.u) as i32,
            bw: (bw * self.u) as i32,
            bh: (bh * self.u) as i32,
            color,
        }
    }

    /// The column of a block of width `bw` that stands in column `x` of a sprite facing right.
    pub open spec fn column(self, x: int, bw: int) -> int {
        if self.mirror {
            SPRITE - x - bw
        } else {
            x
        }
    }

    /// A block of cells of a sprite facing right, flipped where the sprite faces left.
    pub open spec fn block(self, x: int, y: int, bw: int, bh: int, color: u32) -> Block {
        self.cells(self.column(x, bw), y, bw, bh, color)
    }

    /// A row of cells, however far up, is a device row that an `i32` can hold.
    pub open spec fn reaches(self, y: int) -> bool {
        i32::MIN <= y * self.u && i32::MIN <= self.oy + y * self.u
    }

    /// The cells lie on or near the grid, or as far above it as can be reached.
    pub open spec fn holds(self, x: int, y: int, bw: int, bh: int) -> bool {
        &&& -100 <= x <= 100
        &&& y <= 100
        &&& -100 <= y || self.reaches(y)
        &&& 0 <= bw <= 32
        &&& 0 <= bh <= 32
    }
}

/// Rows near the grid are reached, and so are all below one that is.
pub proof fn lemma_reaches(spot: Spot, y: int)
    requires
        spot.wf(),
    ensures
        -200 <= y ==> spot.reaches(y),
        forall|above: int| above <= y && spot.reaches(above) ==> spot.reaches(y),
{
    let u = spot.u as int;
    assert(-200 <= y ==> -200 * u <= y * u) by (nonlinear_arith)
        requires
            0 <= u,
    ;
    assert forall|above: int| above <= y && spot.reaches(above) implies spot.reaches(y) by {
        assert(above * u <= y * u) by (nonlinear_arith)
            requires
                above <= y,
                0 <= u,
        ;
    }
}

pub fn place_cells(spot: &Spot, x: i32, y: i32, bw: i32, bh: i32, color: u32) -> (b: Block)
    requires
        spot.wf(),
        -200 <= x <= 200,
        y <= 100,
        -100 <= y || spot.reaches(y as int),
        0 <= bw <= 32,
        0 <= bh <= 32,
    ensures
        b == spot.cells(x as int, y as int, bw as int, bh as int, color),
        b.bounded(),
{
    let u: i32 = spot.u;
    proof {
        lemma_scaled(x as int, 200, u as int);
        lemma_reaches(*spot, y as int);
        assert(y * u <= 100 * u) by (nonlinear_arith)
            requires
                y <= 100,
                0 <= u,
        ;
        lemma_scaled(bw as int, 32, u as int);
        lemma_scaled(bh as int, 32, u as int);
    }
    Block { x: spot.ox + x * u, y: spot.oy + y * u, bw: bw * u, bh: bh * u, color }
}

proof fn lemma_scaled(k: int, most: int, u: int)
    requires
        -most <= k <= most,
        0 <= u,
    ensures
        -most * u <= k * u <= most * u,
{
    assert(-most * u <= k * u <= most * u) by (nonlinear_arith)
        requires
            -most <= k <= most,
            0 <= u,
    ;
}

/// The column of a block, flipped where the sprite faces left.
pub fn flip(spot: &Spot, x: i32, bw: i32) -> (ax: i32)
    requires
        -100 <= x <= 100,
        0 <= bw <= 32,
    ensures
        ax == spot.column(x as int, bw as int),
        -200 <= ax <= 200,
{
    if spot.mirror {
        SPRITE - x - bw
    } else {
        x
    }
}

pub fn place(spot: &Spot, x: i32, y: i32, bw: i32, bh: i32, color: u32) -> (b: Block)
    requires
        spot.wf(),
        spot.holds(x as int, y as int, bw as int, bh as int),
    ensures
        b == spot.block(x as int, y as int, bw as int, bh as int, color),
        b.bounded(),
{
    place_cells(spot, flip(spot, x, bw), y, bw, bh, color)
}

/// How far right a tag moves a block.
pub open spec fn tag_dx(anim: Anim, tag: Tag) -> int {
    match tag {
        Tag::LegFront => anim.leg_front_dx as int,
        Tag::LegBack => anim.leg_back_dx as int,
        _ => 0,
    }
}

/// How far down a tag moves a block: the body's bob lifts all but the legs, which stay planted.
pub open spec fn tag_dy(anim: Anim, tag: Tag) -> int {
    match tag {
        Tag::LegFront | Tag::LegBack => 0,
        Tag::Ear => anim.ear_dy + anim.body_dy,
        Tag::Tail => anim.tail_dy + anim.body_dy,
        _ => anim.body_dy as int,
    }
}

/// A row of the cat's or the dog's table as it is seen.
pub open spec fn row_patch(is_cat: bool, variant: int, anim: Anim, row: Row) -> Patch {
    patch(
        row.0 + tag_dx(anim, row.5),
        row.1 + tag_dy(anim, row.5),
        row.2 as int,
        row.3 as int,
        part_rgb(is_cat, variant, row.4),
    )
}

/// Whether a row is seen: shut eyes are not.
pub open spec fn row_shown(anim: Anim, row: Row) -> bool {
    !(anim.blink && row.5 == Tag::Eyes)
}

/// The cat or the dog without its lids and its mood, in the order in which it is painted.
pub open spec fn body_patches(is_cat: bool, variant: int, anim: Anim) -> Seq<Patch> {
    sprite_rows(is_cat).filter(|row: Row| row_shown(anim, row)).map_values(
        |row: Row| row_patch(is_cat, variant, anim, row),
    )
}

/// The columns of the two eyes, and the row of the lids that shut them.
pub open spec fn eye_cells(is_cat: bool) -> (int, int, int) {
    if is_cat {
        (11, 19, 11)
    } else {
        (12, 18, 10)
    }
}

/// The lids over shut eyes.
pub open spec fn lid_patches(is_cat: bool, variant: int, anim: Anim) -> Seq<Patch> {
    if anim.blink {
        let (e1, e2, ey) = eye_cells(is_cat);
        let dark = part_rgb(is_cat, variant, Part::Dark);
        seq![
            patch(e1, ey + anim.body_dy, 3, 1, dark),
            patch(e2, ey + anim.body_dy, 3, 1, dark),
        ]
    } else {
        seq![]
    }
}

/// What a mood adds to the face: a drop of sweat, or an open mouth and raised brows. The dog's
/// mouth is off the middle, and stays in its column when the dog turns round.
pub open spec fn mood_patches(
    mirror: bool,
    is_cat: bool,
    variant: int,
    anim: Anim,
    mood: Band,
) -> Seq<Patch> {
    let dy = anim.body_dy as int;
    let mouth = part_rgb(is_cat, variant, Part::Mouth);
    match mood {
        Band::Low => seq![],
        Band::Soft => seq![patch(if is_cat { 24 } else { 23 }, 6 + dy, 1, 2, SWEAT)],
        Band::Urgent => if is_cat {
            seq![
                patch(14, 15 + dy, 4, 3, mouth),
                patch(11, 7 + dy, 3, 1, WHITE),
                patch(19, 7 + dy, 3, 1, WHITE),
            ]
        } else {
            seq![
                patch(if mirror { 13 } else { 14 }, 17 + dy, 5, 2, mouth),
                patch(12, 6 + dy, 3, 1, WHITE),
                patch(18, 6 + dy, 3, 1, WHITE),
            ]
        },
    }
}

/// Everything that the cat or the dog is made of, in the order in which it is painted.
pub open spec fn pet_patches(
    mirror: bool,
    is_cat: bool,
    variant: int,
    anim: Anim,
    mood: Band,
) -> Seq<Patch> {
    body_patches(is_cat, variant, anim) + lid_patches(is_cat, variant, anim) + mood_patches(
        mirror,
        is_cat,
        variant,
        anim,
        mood,
    )
}

/// The blocks that are painted for the cat or the dog, in order.
pub open spec fn pet_plan(spot: Spot, is_cat: bool, variant: int, anim: Anim, mood: Band) -> Seq<
    Block,
> {
    placed(spot, pet_patches(spot.mirror, is_cat, variant, anim, mood))
}

/// Every block of a list has edges that an `i32` can hold.
pub open spec fn all_bounded(blocks: Seq<Block>) -> bool {
    forall|k: int| 0 <= k < blocks.len() ==> (#[trigger] blocks[k]).bounded()
}

proof fn lemma_rows_on_grid(is_cat: bool, i: int)
    requires
        0 <= i < sprite_rows(is_cat).len(),
    ensures
        ({
            let row = sprite_rows(is_cat)[i];
            0 <= row.0 <= 30 && 0 <= row.1 <= 30 && 0 < row.2 <= 20 && 0 < row.3 <= 15
        }),
{
}

fn plan_body(spot: &Spot, is_cat: bool, variant: u8, anim: &Anim) -> (plan: Vec<Block>)
    requires
        spot.wf(),
        anim.small(),
    ensures
        plan@ == placed(*spot, body_patches(is_cat, variant as int, *anim)),
        all_bounded(plan@),
{
    let rows: &'static [Row] = character_blocks(is_cat);
    let mut plan: Vec<Block> = Vec::new();
    let ghost shown = |row: Row| row_shown(*anim, row);
    let ghost seen = |row: Row| row_patch(is_cat, variant as int, *anim, row);
    let mut i: usize = 0;
    assert(rows@.take(0) =~= Seq::empty());
    proof {
        reveal(Seq::filter);
    }
    assert(plan@ =~= placed(*spot, rows@.take(0).filter(shown).map_values(seen)));
    while i < rows.len()
        invariant
            spot.wf(),
            anim.small(),
            rows@ == sprite_rows(is_cat),
            shown == (|row: Row| row_shown(*anim, row)),
            seen == (|row: Row| row_patch(is_cat, variant as int, *anim, row)),
            i <= rows@.len(),
            plan@ == placed(*spot, rows@.take(i as int).filter(shown).map_values(seen)),
            all_bounded(plan@),
        decreases rows@.len() - i,
    {
        let row: Row = rows[i];
        let ghost done = rows@.take(i as int).filter(shown);
        proof {
            lemma_rows_on_grid(is_cat, i as int);
            reveal(Seq::filter);
            assert(rows@.take(i + 1).drop_last() =~= rows@.take(i as int));
            assert(rows@.take(i + 1).last() == row);
        }
        if !(anim.blink && row.5 == Tag::Eyes) {
            let mut x: i32 = row.0;
            let mut y: i32 = row.1;
            match row.5 {
                Tag::Ear => {
                    y = y + anim.ear_dy + anim.body_dy;
                },
                Tag::LegFront => {
                    x = x + anim.leg_front_dx;
                },
                Tag::LegBack => {
                    x = x + anim.leg_back_dx;
                },
                Tag::Tail => {
                    y = y + anim.tail_dy + anim.body_dy;
                },
                Tag::Fixed | Tag::Eyes => {
                    y = y + anim.body_dy;
                },
            }
            let b: Block = place(spot, x, y, row.2, row.3, palette(is_cat, variant, row.4));
            assert(placed(*spot, done.push(row).map_values(seen)) =~= placed(
                *spot,
                done.map_values(seen),
            ).push(b));
            plan.push(b);
        }
        i = i + 1;
    }
    assert(rows@.take(i as int) =~= rows@);
    plan
}

fn plan_lids(spot: &Spot, is_cat: bool, variant: u8, anim: &Anim, plan: &mut Vec<Block>)
    requires
        spot.wf(),
        anim.small(),
        all_bounded(old(plan)@),
    ensures
        final(plan)@ == old(plan)@ + placed(*spot, lid_patches(is_cat, variant as int, *anim)),
        all_bounded(final(plan)@),
{
    if anim.blink {
        let dark: u32 = palette(is_cat, variant, Part::Dark);
        let (e1, e2, ey): (i32, i32, i32) = if is_cat {
            (11, 19, 11)
        } else {
            (12, 18, 10)
        };
        plan.push(place(spot, e1, ey + anim.body_dy, 3, 1, dark));
        plan.push(place(spot, e2, ey + anim.body_dy, 3, 1, dark));
    }
    assert(plan@ =~= old(plan)@ + placed(*spot, lid_patches(is_cat, variant as int, *anim)));
}

fn plan_mood(
    spot: &Spot,
    is_cat: bool,
    variant: u8,
    anim: &Anim,
    mood: Band,
    plan: &mut Vec<Block>,
)
    requires
        spot.wf(),
        anim.small(),
        all_bounded(old(plan)@),
    ensures
        final(plan)@ == old(plan)@ + placed(
            *spot,
            mood_patches(spot.mirror, is_cat, variant as int, *anim, mood),
        ),
        all_bounded(final(plan)@),
{
    let dy: i32 = anim.body_dy;
    let white: u32 = bgra(WHITE.0, WHITE.1, WHITE.2);
    match mood {
        Band::Low => {},
        Band::Soft => {
            let dx: i32 = if is_cat {
                24
            } else {
                23
            };
            plan.push(place(spot, dx, 6 + dy, 1, 2, bgra(SWEAT.0, SWEAT.1, SWEAT.2)));
        },
        Band::Urgent => {
            let mouth: u32 = palette(is_cat, variant, Part::Mouth);
            if is_cat {
                plan.push(place_cells(spot, 14, 15 + dy, 4, 3, mouth));
                plan.push(place(spot, 11, 7 + dy, 3, 1, white));
                plan.push(place(spot, 19, 7 + dy, 3, 1, white));
            } else {
                plan.push(place_cells(spot, 14, 17 + dy, 5, 2, mouth));
                plan.push(place(spot, 12, 6 + dy, 3, 1, white));
                plan.push(place(spot, 18, 6 + dy, 3, 1, white));
            }
        },
    }
    assert(plan@ =~= old(plan)@ + placed(
            *spot,
            mood_patches(spot.mirror, is_cat, variant as int, *anim, mood),
        ));
}

/// The cat or the dog is painted part by part.
proof fn lemma_parts(spot: Spot, is_cat: bool, variant: int, anim: Anim, mood: Band)
    ensures
        pet_plan(spot, is_cat, variant, anim, mood) == placed(
            spot,
            body_patches(is_cat, variant, anim),
        ) + placed(spot, lid_patches(is_cat, variant, anim)) + placed(
            spot,
            mood_patches(spot.mirror, is_cat, variant, anim, mood),
        ),
        anim.small() ==> tidy(spot.u, pet_patches(spot.mirror, is_cat, variant, anim, mood)),
{
    let body = body_patches(is_cat, variant, anim);
    let lids = lid_patches(is_cat, variant, anim);
    let face = mood_patches(spot.mirror, is_cat, variant, anim, mood);
    lemma_placed_on(spot, body, lids);
    lemma_placed_on(spot, body + lids, face);
    if anim.small() {
        let shown = |row: Row| row_shown(anim, row);
        let rows = sprite_rows(is_cat);
        assert forall|k: int| 0 <= k < body.len() implies (#[trigger] body[k]).near(
            spot.u,
        ) by {
            let row = rows.filter(shown)[k];
            assert(rows.filter(shown).contains(row));
            rows.lemma_filter_contains_rev(shown, row);
            let i = choose|i: int| 0 <= i < rows.len() && rows[i] == row;
            lemma_rows_on_grid(is_cat, i);
        }
    }
}

/// Paints the cat or the dog.
pub fn draw_character(
    bits: &mut [u32],
    w: i32,
    h: i32,
    is_cat: bool,
    variant: u8,
    spot: &Spot,
    anim: &Anim,
    mood: Band,
)
    requires
        holds_window(old(bits)@, w as int, h as int),
        spot.wf(),
        anim.small(),
    ensures
        final(bits)@ == painted(
            old(bits)@,
            w as int,
            h as int,
            pet_plan(*spot, is_cat, variant as int, *anim, mood),
        ),
{
    let mut plan: Vec<Block> = plan_body(spot, is_cat, variant, anim);
    plan_lids(spot, is_cat, variant, anim, &mut plan);
    plan_mood(spot, is_cat, variant, anim, mood, &mut plan);
    proof {
        lemma_parts(*spot, is_cat, variant as int, *anim, mood);
    }
    paint(bits, w, h, &plan);
}

/// The legs of the cat and the dog stay planted: no pose lifts them off their row.
pub proof fn law_legs_stay_planted(spot: Spot, is_cat: bool, variant: int, anim: Anim, row: Row)
    requires
        row.5 == Tag::LegFront || row.5 == Tag::LegBack,
    ensures
        row_patch(is_cat, variant, anim, row).at(spot).y == (spot.oy + row.1 * spot.u) as i32,
{
}

/// The picture of the cat or the dog facing left is the mirror image of that facing right. The
/// alarmed dog's open mouth is the one exception.
pub proof fn law_turning_round_mirrors_the_pets(
    u: i32,
    is_cat: bool,
    variant: int,
    anim: Anim,
    mood: Band,
    y: int,
    x: int,
)
    requires
        1 <= u,
        alone(u, false).wf(),
        anim.small(),
        is_cat || mood != Band::Urgent,
        in_square(u as int, y, x),
    ensures
        ({
            let left = pet_plan(alone(u, true), is_cat, variant, anim, mood);
            let right = pet_plan(alone(u, false), is_cat, variant, anim, mood);
            pixel(picture(u as int, left), u as int, y, x) == pixel(
                picture(u as int, right),
                u as int,
                y,
                SPRITE * u - 1 - x,
            )
        }),
{
    lemma_parts(alone(u, false), is_cat, variant, anim, mood);
    assert(pet_patches(true, is_cat, variant, anim, mood) == pet_patches(
        false,
        is_cat,
        variant,
        anim,
        mood,
    ));
    lemma_turned_round(u, pet_patches(false, is_cat, variant, anim, mood), y, x);
}

/// The picture of the cat or the dog at scale `u` is that at scale 1 with every pixel grown to a
/// square, and each pixel of it is opaque or blank.
pub proof fn law_scaling_keeps_the_pets_crisp(
    u: i32,
    mirror: bool,
    is_cat: bool,
    variant: int,
    anim: Anim,
    mood: Band,
    y: int,
    x: int,
)
    requires
        1 <= u,
        alone(u, mirror).wf(),
        anim.small(),
        in_square(u as int, y, x),
    ensures
        ({
            let large = pet_plan(alone(u, mirror), is_cat, variant, anim, mood);
            let small = pet_plan(alone(1, mirror), is_cat, variant, anim, mood);
            let px = pixel(picture(u as int, large), u as int, y, x);
            &&& px == pixel(picture(1, small), 1, y / (u as int), x / (u as int))
            &&& px == 0 || px >= 0xFF00_0000
        }),
{
    let patches = pet_patches(mirror, is_cat, variant, anim, mood);
    lemma_parts(alone(u, mirror), is_cat, variant, anim, mood);
    lemma_grown(u, mirror, patches, y, x);
    lemma_opaque_or_blank(u, mirror, patches, y, x);
}

/// A sprite that faces left takes up the same cells as one that faces right, and turned round again
/// every block is back in its column.
pub proof fn law_turning_round_keeps_to_the_grid(spot: Spot, x: int, bw: int)
    requires
        0 <= x,
        0 <= bw,
        x + bw <= SPRITE,
    ensures
        0 <= spot.column(x, bw),
        spot.column(x, bw) + bw <= SPRITE,
        spot.column(spot.column(x, bw), bw) == x,
{
}

} // verus!
