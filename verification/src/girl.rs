//! The girl, drawn from blocks on a grid of 32 by 32 cells. As usage climbs she sheds her outer
//! layers, down to swimwear.

use crate::canvas::bgra;
use crate::canvas::opaque;
use crate::canvas::paint;
use crate::canvas::painted;
use crate::canvas::{holds_window, Block, Rgb};
use crate::mood::girl_stage;
use crate::mood::stage_of;
use crate::mood::Band;
use crate::picture::alone;
use crate::picture::in_square;
use crate::picture::lemma_grown;
use crate::picture::lemma_opaque_or_blank;
use crate::picture::lemma_placed_on;
use crate::picture::lemma_turned_round;
use crate::picture::patch;
use crate::picture::picture;
use crate::picture::pixel;
use crate::picture::placed;
use crate::picture::tidy;
use crate::picture::Patch;
use crate::position::SPRITE;
use crate::sprite::all_bounded;
use crate::sprite::lemma_reaches;
use crate::sprite::place;
use crate::sprite::{Anim, Spot, SWEAT, WHITE};
use vstd::prelude::*;

verus! {

pub const SKIN: Rgb = (255, 222, 196);

pub const SKIN_SHADE: Rgb = (232, 190, 165);

pub const LEG_SHADE: Rgb = (214, 172, 148);

pub const HAIR: Rgb = (116, 80, 62);

pub const HAIR_HI: Rgb = (150, 108, 82);

pub const IRIS: Rgb = (96, 134, 176);

pub const LIP: Rgb = (196, 96, 96);

pub const BLUSH: Rgb = (255, 170, 170);

pub const BIKINI: Rgb = (232, 84, 120);

pub const BIKINI_TRIM: Rgb = (198, 56, 96);

pub const SHIRT: Rgb = (250, 250, 252);

pub const SHIRT_SHADE: Rgb = (224, 226, 234);

pub const SKIRT: Rgb = (92, 120, 200);

pub const SKIRT_SHADE: Rgb = (70, 96, 168);

pub const JACKET: Rgb = (245, 198, 86);

pub const PUCKER: Rgb = (228, 72, 96);

pub const PUCKER_SHADE: Rgb = (196, 56, 80);

pub const HEART: Rgb = (240, 92, 132);

pub const HEART_HI: Rgb = (255, 156, 184);

/// A block of the girl facing right: its cell, its size in cells and its colour.
pub type GirlRow = (i32, i32, i32, i32, Rgb);

pub const BACK_HAIR: [GirlRow; 1] = [(10, 2, 12, 11, HAIR)];

/// Head, neck, bust, waist, hips and arms; the clothes go over them.
pub const FIGURE: [GirlRow; 17] = [
    // ties of the twin tails
    (7, 6, 2, 1, BIKINI),
    (23, 6, 2, 1, BIKINI),
    // head and jaw
    (11, 3, 10, 8, SKIN),
    (12, 10, 8, 1, SKIN_SHADE),
    // neck
    (14, 11, 4, 2, SKIN),
    (14, 12, 4, 1, SKIN_SHADE),
    // shoulders
    (11, 13, 10, 1, SKIN),
    // bust
    (10, 14, 12, 3, SKIN),
    (10, 16, 12, 1, SKIN_SHADE),
    // waist
    (12, 17, 8, 2, SKIN),
    // hips
    (10, 19, 12, 4, SKIN),
    (10, 21, 1, 2, SKIN_SHADE),
    (21, 21, 1, 2, SKIN_SHADE),
    // arms
    (8, 14, 2, 7, SKIN),
    (22, 14, 2, 7, SKIN),
    (8, 18, 2, 3, SKIN_SHADE),
    (22, 18, 2, 3, SKIN_SHADE),
];

pub const SKIRT_ROWS: [GirlRow; 2] = [(9, 19, 14, 4, SKIRT), (9, 22, 14, 1, SKIRT_SHADE)];

pub const BIKINI_BOTTOM: [GirlRow; 4] = [
    (10, 19, 12, 4, BIKINI),
    (10, 19, 12, 1, BIKINI_TRIM),
    (9, 19, 1, 2, BIKINI_TRIM),
    (22, 19, 1, 2, BIKINI_TRIM),
];

pub const SHIRT_ROWS: [GirlRow; 4] = [
    (10, 13, 12, 6, SHIRT),
    (10, 16, 12, 1, SHIRT_SHADE),
    (8, 14, 2, 4, SHIRT),
    (22, 14, 2, 4, SHIRT),
];

pub const BIKINI_TOP: [GirlRow; 5] = [
    (10, 14, 12, 3, BIKINI),
    (10, 16, 12, 1, BIKINI_TRIM),
    (14, 14, 4, 1, BIKINI_TRIM),
    // straps
    (11, 13, 1, 1, BIKINI_TRIM),
    (20, 13, 1, 1, BIKINI_TRIM),
];

pub const JACKET_ROWS: [GirlRow; 3] = [
    (8, 13, 2, 9, JACKET),
    (22, 13, 2, 9, JACKET),
    (10, 13, 12, 1, JACKET),
];

/// Bangs and side locks.
pub const FRONT_HAIR: [GirlRow; 4] = [
    (11, 3, 10, 3, HAIR),
    (14, 3, 4, 2, HAIR_HI),
    (9, 5, 2, 8, HAIR),
    (21, 5, 2, 8, HAIR),
];

/// Eyes closed in a smile.
pub const SMILING_EYES: [GirlRow; 4] = [
    (12, 7, 3, 1, IRIS),
    (13, 8, 1, 1, IRIS),
    (17, 7, 3, 1, IRIS),
    (18, 8, 1, 1, IRIS),
];

pub const SHUT_EYES: [GirlRow; 2] = [(12, 8, 3, 1, SKIN_SHADE), (17, 8, 3, 1, SKIN_SHADE)];

pub const OPEN_EYES: [GirlRow; 4] = [
    (12, 6, 3, 3, IRIS),
    (17, 6, 3, 3, IRIS),
    (13, 6, 1, 1, WHITE),
    (18, 6, 1, 1, WHITE),
];

pub const CHEEKS: [GirlRow; 2] = [(11, 8, 2, 1, BLUSH), (19, 8, 2, 1, BLUSH)];

/// A stronger blush and a puckered mouth.
pub const KISSING_MOUTH: [GirlRow; 4] = [
    (10, 8, 2, 2, BLUSH),
    (20, 8, 2, 2, BLUSH),
    (15, 9, 2, 2, PUCKER),
    (15, 10, 2, 1, PUCKER_SHADE),
];

pub const CALM_MOUTH: [GirlRow; 1] = [(15, 9, 2, 1, LIP)];

pub const WORRIED_MOUTH: [GirlRow; 2] = [(15, 9, 2, 1, LIP), (21, 4, 1, 2, SWEAT)];

pub const ALARMED_MOUTH: [GirlRow; 4] = [
    (15, 9, 2, 1, LIP),
    (10, 8, 2, 2, BLUSH),
    (20, 8, 2, 2, BLUSH),
    (15, 9, 2, 2, LIP),
];

/// The cells of a large heart.
pub const BIG_HEART: [(i32, i32); 13] = [
    (0, 0),
    (1, 0),
    (3, 0),
    (4, 0),
    (0, 1),
    (1, 1),
    (2, 1),
    (3, 1),
    (4, 1),
    (1, 2),
    (2, 2),
    (3, 2),
    (2, 3),
];

/// The cells of a small heart.
pub const SMALL_HEART: [(i32, i32); 6] = [(0, 0), (2, 0), (0, 1), (1, 1), (2, 1), (1, 2)];

/// A table's patches, moved down by `dy`.
pub open spec fn row_patches(dy: int, rows: Seq<GirlRow>) -> Seq<Patch> {
    rows.map_values(|r: GirlRow| patch(r.0 as int, r.1 + dy, r.2 as int, r.3 as int, r.4))
}

/// The twin tails of hair at her sides, which swing with the tail offset.
pub open spec fn tail_patches(anim: Anim) -> Seq<Patch> {
    let y = 5 + anim.body_dy + anim.tail_dy;
    seq![patch(7, y, 2, 13, HAIR), patch(23, y, 2, 13, HAIR)]
}

/// Thighs, calves and feet. They stay planted, and swing with the steps.
pub open spec fn leg_patches(anim: Anim) -> Seq<Patch> {
    let back = 12 + anim.leg_back_dx;
    let front = 17 + anim.leg_front_dx;
    seq![
        patch(back, 23, 3, 4, SKIN),
        patch(front, 23, 3, 4, SKIN),
        patch(back + 1, 27, 2, 4, SKIN),
        patch(front + 1, 27, 2, 4, SKIN),
        patch(back, 30, 3, 1, LEG_SHADE),
        patch(front, 30, 3, 1, LEG_SHADE),
    ]
}

/// What she wears at a stage: the jacket goes first, then the shirt, then the skirt.
pub open spec fn clothes(stage: int) -> Seq<GirlRow> {
    (if stage <= 2 {
        SKIRT_ROWS@
    } else {
        BIKINI_BOTTOM@
    }) + (if stage <= 1 {
        SHIRT_ROWS@
    } else {
        BIKINI_TOP@
    }) + (if stage == 0 {
        JACKET_ROWS@
    } else {
        seq![]
    })
}

pub open spec fn eyes(kissing: bool, blink: bool) -> Seq<GirlRow> {
    if kissing {
        SMILING_EYES@
    } else if blink {
        SHUT_EYES@
    } else {
        OPEN_EYES@
    }
}

pub open spec fn mouth(kissing: bool, mood: Band) -> Seq<GirlRow> {
    if kissing {
        KISSING_MOUTH@
    } else {
        match mood {
            Band::Low => CALM_MOUTH@,
            Band::Soft => WORRIED_MOUTH@,
            Band::Urgent => ALARMED_MOUTH@,
        }
    }
}

/// A heart with its top left cell at (`hx`, `hy`): its cells, and a highlight on the first.
pub open spec fn heart_patches(hx: int, hy: int, big: bool) -> Seq<Patch> {
    (if big {
        BIG_HEART@
    } else {
        SMALL_HEART@
    }).map_values(|p: (i32, i32)| patch(hx + p.0, hy + p.1, 1, 1, HEART)).push(
        patch(hx, hy, 1, 1, HEART_HI),
    )
}

/// The row of a heart that sets out from row `start`, in a kiss `elapsed` ticks old.
pub open spec fn heart_row(start: int, elapsed: int) -> int {
    start - elapsed / 2
}

/// The hearts of a kiss have not risen out of what an `i32` can hold.
pub open spec fn kiss_fits(spot: Spot, elapsed: int) -> bool {
    0 <= elapsed <= i32::MAX && spot.reaches(heart_row(7, elapsed))
}

/// The column of a heart: a large one wobbles a cell to her facing side.
pub open spec fn heart_column(start: int, big: bool) -> int {
    if big {
        start + 1
    } else {
        start
    }
}

/// The hearts of a kiss `elapsed` ticks old: three that rise, the second and third of which set out
/// later.
pub open spec fn kiss_patches(elapsed: int, frame: int) -> Seq<Patch> {
    let big1 = frame % 2 == 0;
    let big2 = frame / 2 % 2 == 0;
    let big3 = frame / 3 % 2 == 0;
    heart_patches(heart_column(16, big1), heart_row(7, elapsed), big1) + (if elapsed >= 4 {
        heart_patches(heart_column(19, big2), heart_row(11, elapsed), big2)
    } else {
        seq![]
    }) + (if elapsed >= 8 {
        heart_patches(heart_column(13, big3), heart_row(12, elapsed), big3)
    } else {
        seq![]
    })
}

/// Everything that the girl is made of, in the order in which it is painted.
pub open spec fn girl_patches(
    anim: Anim,
    mood: Band,
    usage: int,
    kiss: int,
    kiss_max: int,
    frame: int,
) -> Seq<Patch> {
    let dy = anim.body_dy as int;
    let kissing = kiss > 0;
    row_patches(dy, BACK_HAIR@) + tail_patches(anim) + row_patches(dy, FIGURE@) + leg_patches(anim)
        + row_patches(dy, clothes(stage_of(usage))) + row_patches(dy, FRONT_HAIR@) + row_patches(
        dy,
        eyes(kissing, anim.blink),
    ) + row_patches(dy, CHEEKS@) + row_patches(dy, mouth(kissing, mood)) + (if kissing {
        kiss_patches(kiss_max - kiss, frame)
    } else {
        seq![]
    })
}

/// The blocks that are painted for the girl, in order.
pub open spec fn girl_plan(
    spot: Spot,
    anim: Anim,
    mood: Band,
    usage: int,
    kiss: int,
    kiss_max: int,
    frame: int,
) -> Seq<Block> {
    placed(spot, girl_patches(anim, mood, usage, kiss, kiss_max, frame))
}

/// Every block of a table lies on the grid.
pub open spec fn on_grid(rows: Seq<GirlRow>) -> bool {
    forall|i: int|
        0 <= i < rows.len() ==> {
            let r = #[trigger] rows[i];
            0 <= r.0 <= 32 && 0 <= r.1 <= 32 && 0 <= r.2 <= 32 && 0 <= r.3 <= 32
        }
}

fn add_rows(spot: &Spot, dy: i32, rows: &[GirlRow], plan: &mut Vec<Block>)
    requires
        spot.wf(),
        -4 <= dy <= 1,
        on_grid(rows@),
        all_bounded(old(plan)@),
    ensures
        final(plan)@ == old(plan)@ + placed(*spot, row_patches(dy as int, rows@)),
        all_bounded(final(plan)@),
{
    let mut i: usize = 0;
    let ghost start = plan@;
    while i < rows.len()
        invariant
            spot.wf(),
            -4 <= dy <= 1,
            on_grid(rows@),
            i <= rows@.len(),
            plan@ =~= start + placed(*spot, row_patches(dy as int, rows@)).take(i as int),
            all_bounded(plan@),
        decreases rows@.len() - i,
    {
        let r: GirlRow = rows[i];
        plan.push(place(spot, r.0, r.1 + dy, r.2, r.3, bgra(r.4.0, r.4.1, r.4.2)));
        i = i + 1;
    }
}

fn add_tails(spot: &Spot, anim: &Anim, plan: &mut Vec<Block>)
    requires
        spot.wf(),
        anim.small(),
        all_bounded(old(plan)@),
    ensures
        final(plan)@ == old(plan)@ + placed(*spot, tail_patches(*anim)),
        all_bounded(final(plan)@),
{
    let hair: u32 = bgra(HAIR.0, HAIR.1, HAIR.2);
    let y: i32 = 5 + anim.body_dy + anim.tail_dy;
    plan.push(place(spot, 7, y, 2, 13, hair));
    plan.push(place(spot, 23, y, 2, 13, hair));
    assert(plan@ =~= old(plan)@ + placed(*spot, tail_patches(*anim)));
}

fn add_legs(spot: &Spot, anim: &Anim, plan: &mut Vec<Block>)
    requires
        spot.wf(),
        anim.small(),
        all_bounded(old(plan)@),
    ensures
        final(plan)@ == old(plan)@ + placed(*spot, leg_patches(*anim)),
        all_bounded(final(plan)@),
{
    let skin: u32 = bgra(SKIN.0, SKIN.1, SKIN.2);
    let shade: u32 = bgra(LEG_SHADE.0, LEG_SHADE.1, LEG_SHADE.2);
    let back: i32 = 12 + anim.leg_back_dx;
    let front: i32 = 17 + anim.leg_front_dx;
    plan.push(place(spot, back, 23, 3, 4, skin));
    plan.push(place(spot, front, 23, 3, 4, skin));
    plan.push(place(spot, back + 1, 27, 2, 4, skin));
    plan.push(place(spot, front + 1, 27, 2, 4, skin));
    plan.push(place(spot, back, 30, 3, 1, shade));
    plan.push(place(spot, front, 30, 3, 1, shade));
    assert(plan@ =~= old(plan)@ + placed(*spot, leg_patches(*anim)));
}

fn add_clothes(spot: &Spot, dy: i32, stage: u8, plan: &mut Vec<Block>)
    requires
        spot.wf(),
        -4 <= dy <= 1,
        all_bounded(old(plan)@),
    ensures
        final(plan)@ == old(plan)@ + placed(*spot, row_patches(dy as int, clothes(stage as int))),
        all_bounded(final(plan)@),
{
    if stage <= 2 {
        add_rows(spot, dy, &SKIRT_ROWS, plan);
    } else {
        add_rows(spot, dy, &BIKINI_BOTTOM, plan);
    }
    if stage <= 1 {
        add_rows(spot, dy, &SHIRT_ROWS, plan);
    } else {
        add_rows(spot, dy, &BIKINI_TOP, plan);
    }
    if stage == 0 {
        add_rows(spot, dy, &JACKET_ROWS, plan);
    }
    assert(plan@ =~= old(plan)@ + placed(*spot, row_patches(dy as int, clothes(stage as int))));
}

/// Adds a heart to a plan.
fn draw_heart(spot: &Spot, hx: i32, hy: i32, big: bool, plan: &mut Vec<Block>)
    requires
        spot.wf(),
        -10 <= hx <= 30,
        hy <= 30,
        spot.reaches(hy as int),
        all_bounded(old(plan)@),
    ensures
        final(plan)@ == old(plan)@ + placed(*spot, heart_patches(hx as int, hy as int, big)),
        all_bounded(final(plan)@),
{
    let pink: u32 = bgra(HEART.0, HEART.1, HEART.2);
    let cells: &'static [(i32, i32)] = if big {
        &BIG_HEART
    } else {
        &SMALL_HEART
    };
    let ghost start = plan@;
    let mut i: usize = 0;
    while i < cells.len()
        invariant
            spot.wf(),
            -10 <= hx <= 30,
            hy <= 30,
            spot.reaches(hy as int),
            pink == opaque(HEART),
            cells@ == if big { BIG_HEART@ } else { SMALL_HEART@ },
            i <= cells@.len(),
            plan@ =~= start + placed(*spot, heart_patches(hx as int, hy as int, big)).take(i as int),
            all_bounded(plan@),
        decreases cells@.len() - i,
    {
        let p: (i32, i32) = cells[i];
        assert(0 <= p.0 <= 4 && 0 <= p.1 <= 3);
        proof {
            lemma_reaches(*spot, hy + p.1);
        }
        plan.push(place(spot, hx + p.0, hy + p.1, 1, 1, pink));
        i = i + 1;
    }
    plan.push(place(spot, hx, hy, 1, 1, bgra(HEART_HI.0, HEART_HI.1, HEART_HI.2)));
    assert(plan@ =~= start + placed(*spot, heart_patches(hx as int, hy as int, big)));
}

fn add_hearts(spot: &Spot, elapsed: u32, frame: u64, plan: &mut Vec<Block>)
    requires
        spot.wf(),
        kiss_fits(*spot, elapsed as int),
        all_bounded(old(plan)@),
    ensures
        final(plan)@ == old(plan)@ + placed(*spot, kiss_patches(elapsed as int, frame as int)),
        all_bounded(final(plan)@),
{
    let rise: i32 = elapsed as i32 / 2;
    proof {
        lemma_reaches(*spot, heart_row(11, elapsed as int));
        lemma_reaches(*spot, heart_row(12, elapsed as int));
    }
    let big1: bool = frame % 2 == 0;
    let big2: bool = frame / 2 % 2 == 0;
    let big3: bool = frame / 3 % 2 == 0;
    draw_heart(spot, 16 + if big1 { 1i32 } else { 0 }, 7 - rise, big1, plan);
    if elapsed >= 4 {
        draw_heart(spot, 19 + if big2 { 1i32 } else { 0 }, 11 - rise, big2, plan);
    }
    if elapsed >= 8 {
        draw_heart(spot, 13 + if big3 { 1i32 } else { 0 }, 12 - rise, big3, plan);
    }
    assert(plan@ =~= old(plan)@ + placed(*spot, kiss_patches(elapsed as int, frame as int)));
}

fn add_face(spot: &Spot, anim: &Anim, mood: Band, kissing: bool, plan: &mut Vec<Block>)
    requires
        spot.wf(),
        anim.small(),
        all_bounded(old(plan)@),
    ensures
        final(plan)@ == old(plan)@ + placed(
            *spot,
            row_patches(anim.body_dy as int, eyes(kissing, anim.blink)),
        ) + placed(*spot, row_patches(anim.body_dy as int, CHEEKS@)) + placed(
            *spot,
            row_patches(anim.body_dy as int, mouth(kissing, mood)),
        ),
        all_bounded(final(plan)@),
{
    let dy: i32 = anim.body_dy;
    if kissing {
        add_rows(spot, dy, &SMILING_EYES, plan);
    } else if anim.blink {
        add_rows(spot, dy, &SHUT_EYES, plan);
    } else {
        add_rows(spot, dy, &OPEN_EYES, plan);
    }
    add_rows(spot, dy, &CHEEKS, plan);
    if kissing {
        add_rows(spot, dy, &KISSING_MOUTH, plan);
    } else {
        match mood {
            Band::Low => add_rows(spot, dy, &CALM_MOUTH, plan),
            Band::Soft => add_rows(spot, dy, &WORRIED_MOUTH, plan),
            Band::Urgent => add_rows(spot, dy, &ALARMED_MOUTH, plan),
        }
    }
}

/// The girl is painted part by part.
proof fn lemma_parts(
    spot: Spot,
    anim: Anim,
    mood: Band,
    usage: int,
    kiss: int,
    kiss_max: int,
    frame: int,
)
    ensures
        ({
            let dy = anim.body_dy as int;
            girl_plan(spot, anim, mood, usage, kiss, kiss_max, frame) == placed(
                spot,
                row_patches(dy, BACK_HAIR@),
            ) + placed(spot, tail_patches(anim)) + placed(spot, row_patches(dy, FIGURE@)) + placed(
                spot,
                leg_patches(anim),
            ) + placed(spot, row_patches(dy, clothes(stage_of(usage)))) + placed(
                spot,
                row_patches(dy, FRONT_HAIR@),
            ) + placed(spot, row_patches(dy, eyes(kiss > 0, anim.blink))) + placed(
                spot,
                row_patches(dy, CHEEKS@),
            ) + placed(spot, row_patches(dy, mouth(kiss > 0, mood))) + placed(
                spot,
                if kiss > 0 {
                    kiss_patches(kiss_max - kiss, frame)
                } else {
                    seq![]
                },
            )
        }),
        spot.wf() && anim.small() && (kiss > 0 ==> kiss_fits(alone(spot.u, false), kiss_max - kiss))
            ==> tidy(spot.u, girl_patches(anim, mood, usage, kiss, kiss_max, frame)),
{
    let dy = anim.body_dy as int;
    let p1 = row_patches(dy, BACK_HAIR@);
    let p2 = tail_patches(anim);
    let p3 = row_patches(dy, FIGURE@);
    let p4 = leg_patches(anim);
    let p5 = row_patches(dy, clothes(stage_of(usage)));
    let p6 = row_patches(dy, FRONT_HAIR@);
    let p7 = row_patches(dy, eyes(kiss > 0, anim.blink));
    let p8 = row_patches(dy, CHEEKS@);
    let p9 = row_patches(dy, mouth(kiss > 0, mood));
    let hearts: Seq<Patch> = if kiss > 0 {
        kiss_patches(kiss_max - kiss, frame)
    } else {
        seq![]
    };
    lemma_placed_on(spot, p1, p2);
    lemma_placed_on(spot, p1 + p2, p3);
    lemma_placed_on(spot, p1 + p2 + p3, p4);
    lemma_placed_on(spot, p1 + p2 + p3 + p4, p5);
    lemma_placed_on(spot, p1 + p2 + p3 + p4 + p5, p6);
    lemma_placed_on(spot, p1 + p2 + p3 + p4 + p5 + p6, p7);
    lemma_placed_on(spot, p1 + p2 + p3 + p4 + p5 + p6 + p7, p8);
    lemma_placed_on(spot, p1 + p2 + p3 + p4 + p5 + p6 + p7 + p8, p9);
    lemma_placed_on(spot, p1 + p2 + p3 + p4 + p5 + p6 + p7 + p8 + p9, hearts);
    if spot.wf() && anim.small() && (kiss > 0 ==> kiss_fits(
        alone(spot.u, false),
        kiss_max - kiss,
    )) {
        lemma_rows_tidy(spot.u, dy, BACK_HAIR@);
        lemma_rows_tidy(spot.u, dy, FIGURE@);
        lemma_rows_tidy(spot.u, dy, FRONT_HAIR@);
        lemma_rows_tidy(spot.u, dy, CHEEKS@);
        lemma_clothes_tidy(spot.u, dy, stage_of(usage));
        lemma_face_tidy(spot.u, dy, kiss > 0, anim.blink, mood);
        if kiss > 0 {
            lemma_kiss_tidy(spot.u, kiss_max - kiss, frame);
        }
    }
}

proof fn lemma_rows_tidy(u: i32, dy: int, rows: Seq<GirlRow>)
    requires
        -4 <= dy <= 1,
        on_grid(rows),
    ensures
        tidy(u, row_patches(dy, rows)),
{
}

proof fn lemma_clothes_tidy(u: i32, dy: int, stage: int)
    requires
        -4 <= dy <= 1,
    ensures
        tidy(u, row_patches(dy, clothes(stage))),
{
    assert(on_grid(SKIRT_ROWS@));
    assert(on_grid(BIKINI_BOTTOM@));
    assert(on_grid(SHIRT_ROWS@));
    assert(on_grid(BIKINI_TOP@));
    assert(on_grid(JACKET_ROWS@));
    assert(on_grid(clothes(stage)));
}

proof fn lemma_face_tidy(u: i32, dy: int, kissing: bool, blink: bool, mood: Band)
    requires
        -4 <= dy <= 1,
    ensures
        tidy(u, row_patches(dy, eyes(kissing, blink))),
        tidy(u, row_patches(dy, mouth(kissing, mood))),
{
    lemma_rows_tidy(u, dy, eyes(kissing, blink));
    lemma_rows_tidy(u, dy, mouth(kissing, mood));
}

proof fn lemma_kiss_tidy(u: i32, elapsed: int, frame: int)
    requires
        alone(u, false).wf(),
        kiss_fits(alone(u, false), elapsed),
    ensures
        tidy(u, kiss_patches(elapsed, frame)),
{
    lemma_reaches(alone(u, false), heart_row(11, elapsed));
    lemma_reaches(alone(u, false), heart_row(12, elapsed));
    let big1 = frame % 2 == 0;
    let big2 = frame / 2 % 2 == 0;
    let big3 = frame / 3 % 2 == 0;
    lemma_heart_tidy(u, heart_column(16, big1), heart_row(7, elapsed), big1);
    lemma_heart_tidy(u, heart_column(19, big2), heart_row(11, elapsed), big2);
    lemma_heart_tidy(u, heart_column(13, big3), heart_row(12, elapsed), big3);
}

proof fn lemma_heart_tidy(u: i32, hx: int, hy: int, big: bool)
    requires
        alone(u, false).wf(),
        -10 <= hx <= 30,
        hy <= 30,
        alone(u, false).reaches(hy),
    ensures
        tidy(u, heart_patches(hx, hy, big)),
{
    assert forall|k: int| 0 <= k < heart_patches(hx, hy, big).len() implies (
    #[trigger] heart_patches(hx, hy, big)[k]).near(u) by {
        let cells = if big {
            BIG_HEART@
        } else {
            SMALL_HEART@
        };
        if k < cells.len() {
            assert(0 <= cells[k].0 <= 4 && 0 <= cells[k].1 <= 3);
            lemma_reaches(alone(u, false), hy + cells[k].1);
        }
    }
}

/// Paints the girl.
pub fn draw_girl(
    bits: &mut [u32],
    w: i32,
    h: i32,
    spot: &Spot,
    anim: &Anim,
    mood: Band,
    usage: i32,
    kiss: u32,
    kiss_max: u32,
    frame: u64,
)
    requires
        holds_window(old(bits)@, w as int, h as int),
        spot.wf(),
        anim.small(),
        kiss <= kiss_max,
        kiss > 0 ==> kiss_fits(*spot, kiss_max - kiss),
    ensures
        final(bits)@ == painted(
            old(bits)@,
            w as int,
            h as int,
            girl_plan(
                *spot,
                *anim,
                mood,
                usage as int,
                kiss as int,
                kiss_max as int,
                frame as int,
            ),
        ),
{
    let dy: i32 = anim.body_dy;
    let kissing: bool = kiss > 0;
    let mut plan: Vec<Block> = Vec::new();
    add_rows(spot, dy, &BACK_HAIR, &mut plan);
    add_tails(spot, anim, &mut plan);
    add_rows(spot, dy, &FIGURE, &mut plan);
    add_legs(spot, anim, &mut plan);
    add_clothes(spot, dy, girl_stage(usage), &mut plan);
    add_rows(spot, dy, &FRONT_HAIR, &mut plan);
    add_face(spot, anim, mood, kissing, &mut plan);
    if kissing {
        add_hearts(spot, kiss_max - kiss, frame, &mut plan);
    }
    proof {
        lemma_parts(
            *spot,
            *anim,
            mood,
            usage as int,
            kiss as int,
            kiss_max as int,
            frame as int,
        );
        assert(placed(*spot, Seq::<Patch>::empty()) =~= Seq::<Block>::empty());
        assert(plan@ =~= girl_plan(
            *spot,
            *anim,
            mood,
            usage as int,
            kiss as int,
            kiss_max as int,
            frame as int,
        ));
    }
    paint(bits, w, h, &plan);
}

/// The girl's legs stay planted: however her body bobs, they keep their rows.
pub proof fn law_girls_legs_stay_planted(spot: Spot, anim: Anim, other: Anim, k: int)
    requires
        0 <= k < leg_patches(anim).len(),
    ensures
        leg_patches(other).len() == leg_patches(anim).len(),
        placed(spot, leg_patches(anim))[k].y == placed(spot, leg_patches(other))[k].y,
{
}

/// The hearts of a kiss only rise, and by a row every other tick.
pub proof fn law_hearts_rise(start: int, elapsed: int, later: int)
    requires
        elapsed <= later,
    ensures
        heart_row(start, later) <= heart_row(start, elapsed),
        heart_row(start, elapsed + 2) == heart_row(start, elapsed) - 1,
{
}

/// The girl's picture facing left is the mirror image of that facing right.
pub proof fn law_turning_round_mirrors_the_girl(
    u: i32,
    anim: Anim,
    mood: Band,
    usage: int,
    kiss: int,
    kiss_max: int,
    frame: int,
    y: int,
    x: int,
)
    requires
        1 <= u,
        alone(u, false).wf(),
        anim.small(),
        0 <= kiss <= kiss_max,
        kiss > 0 ==> kiss_fits(alone(u, false), kiss_max - kiss),
        in_square(u as int, y, x),
    ensures
        ({
            let left = girl_plan(alone(u, true), anim, mood, usage, kiss, kiss_max, frame);
            let right = girl_plan(alone(u, false), anim, mood, usage, kiss, kiss_max, frame);
            pixel(picture(u as int, left), u as int, y, x) == pixel(
                picture(u as int, right),
                u as int,
                y,
                SPRITE * u - 1 - x,
            )
        }),
{
    lemma_parts(alone(u, true), anim, mood, usage, kiss, kiss_max, frame);
    lemma_turned_round(
        u,
        girl_patches(anim, mood, usage, kiss, kiss_max, frame),
        y,
        x,
    );
}

/// The girl's picture at scale `u` is that at scale 1 with every pixel grown to a square, and each
/// pixel of it is opaque or blank.
pub proof fn law_scaling_keeps_the_girl_crisp(
    u: i32,
    mirror: bool,
    anim: Anim,
    mood: Band,
    usage: int,
    kiss: int,
    kiss_max: int,
    frame: int,
    y: int,
    x: int,
)
    requires
        1 <= u,
        alone(u, mirror).wf(),
        anim.small(),
        0 <= kiss <= kiss_max,
        kiss > 0 ==> kiss_fits(alone(u, false), kiss_max - kiss),
        in_square(u as int, y, x),
    ensures
        ({
            let large = girl_plan(alone(u, mirror), anim, mood, usage, kiss, kiss_max, frame);
            let small = girl_plan(alone(1, mirror), anim, mood, usage, kiss, kiss_max, frame);
            let px = pixel(picture(u as int, large), u as int, y, x);
            &&& px == pixel(picture(1, small), 1, y / (u as int), x / (u as int))
            &&& px == 0 || px >= 0xFF00_0000
        }),
{
    let patches = girl_patches(anim, mood, usage, kiss, kiss_max, frame);
    lemma_parts(alone(u, mirror), anim, mood, usage, kiss, kiss_max, frame);
    lemma_grown(u, mirror, patches, y, x);
    lemma_opaque_or_blank(u, mirror, patches, y, x);
}

/// Without a kiss nothing of the girl's picture depends on the frame or on the last kiss.
pub proof fn law_only_kisses_follow_the_frame(
    spot: Spot,
    anim: Anim,
    mood: Band,
    usage: int,
    kiss_max: int,
    frame: int,
    other_max: int,
    other_frame: int,
)
    ensures
        girl_plan(spot, anim, mood, usage, 0, kiss_max, frame) == girl_plan(
            spot,
            anim,
            mood,
            usage,
            0,
            other_max,
            other_frame,
        ),
{
}

} // verus!
