//! What the characters look like, stated in the cells and colours that can be seen of them.

use crate::canvas::opaque;
use crate::canvas::{Block, Rgb};
use crate::critter::Pose;
use crate::girl::girl_plan;
use crate::girl::heart_column;
use crate::girl::heart_patches;
use crate::girl::kiss_patches;
use crate::girl::GirlRow;
use crate::girl::{ALARMED_MOUTH, CALM_MOUTH, KISSING_MOUTH, WORRIED_MOUTH};
use crate::girl::{BACK_HAIR, CHEEKS, FIGURE, FRONT_HAIR};
use crate::girl::{BIG_HEART, SMALL_HEART};
use crate::girl::{BIKINI_BOTTOM, BIKINI_TOP, JACKET_ROWS, SHIRT_ROWS, SKIRT_ROWS};
use crate::girl::{OPEN_EYES, SHUT_EYES, SMILING_EYES};
use crate::mood::Band;
use crate::picture::lemma_placed_on;
use crate::picture::placed;
use crate::sprite::anim_of;
use crate::sprite::body_patches;
use crate::sprite::part_rgb;
use crate::sprite::pet_plan;
use crate::sprite::row_patch;
use crate::sprite::row_shown;
use crate::sprite::{Anim, Part, Row, Spot, Tag, CAT_BLOCKS, DOG_BLOCKS};
use vstd::prelude::*;

verus! {

/// A rectangle of cells of a sprite that faces right, where the sprite stands. In a sprite that faces
/// left it lies as far from the right edge as it would otherwise lie from the left one.
pub open spec fn cells_at(spot: Spot, x: int, y: int, bw: int, bh: int, rgb: Rgb) -> Block {
    Block {
        x: if spot.mirror {
            (spot.ox + (32 - x - bw) * spot.u) as i32
        } else {
            (spot.ox + x * spot.u) as i32
        },
        y: (spot.oy + y * spot.u) as i32,
        bw: (bw * spot.u) as i32,
        bh: (bh * spot.u) as i32,
        color: opaque(rgb),
    }
}

// ----- poses ------------------------------------------------------------------

/// A swing of twice `n` frames, told by the frame's place in it.
#[verifier::spinoff_prover]
proof fn lemma_turns(frame: int)
    requires
        0 <= frame,
    ensures
        frame / 2 % 2 == 0 <==> frame % 4 < 2,
        frame / 3 % 2 == 0 <==> frame % 6 < 3,
        frame / 4 % 2 == 0 <==> frame % 8 < 4,
        frame / 6 % 2 == 0 <==> frame % 12 < 6,
        frame / 8 % 2 == 0 <==> frame % 16 < 8,
        frame / 2 % 4 == frame % 8 / 2,
{
    assert(frame / 2 % 2 == 0 <==> frame % 4 < 2);
    assert(frame / 3 % 2 == 0 <==> frame % 6 < 3);
    assert(frame / 4 % 2 == 0 <==> frame % 8 < 4);
    assert(frame / 6 % 2 == 0 <==> frame % 12 < 6);
    assert(frame / 8 % 2 == 0 <==> frame % 16 < 8);
    assert(frame / 2 % 4 == frame % 8 / 2);
}

/// A character at rest bobs and sways a little, and blinks.
#[verifier::spinoff_prover]
pub proof fn law_resting_characters_bob_and_blink(frame: int, blink_ctr: int)
    requires
        0 <= frame,
    ensures
        ({
            let a = anim_of(Pose::Idle, frame, blink_ctr);
            &&& a.blink <==> blink_ctr < 2
            &&& a.body_dy == if frame % 12 < 6 {
                0int
            } else {
                1
            }
            &&& a.tail_dy == if frame % 16 < 8 {
                0int
            } else {
                -1
            }
            &&& a.ear_dy == 0 && a.leg_front_dx == 0 && a.leg_back_dx == 0
        }),
{
    lemma_turns(frame);
}

/// A walking character takes a step in eight frames: its legs swing against each other, apart and
/// back and the other way.
#[verifier::spinoff_prover]
pub proof fn law_walking_characters_step(frame: int, blink_ctr: int)
    requires
        0 <= frame,
    ensures
        ({
            let a = anim_of(Pose::Walk, frame, blink_ctr);
            &&& !a.blink
            &&& a.leg_back_dx == -a.leg_front_dx
            &&& frame % 8 < 2 ==> a.leg_front_dx == 2
            &&& 4 <= frame % 8 < 6 ==> a.leg_front_dx == -2
            &&& frame % 4 >= 2 ==> a.leg_front_dx == 0
            &&& a.body_dy == if frame % 4 < 2 {
                0int
            } else {
                1
            }
            &&& a.tail_dy == if frame % 6 < 3 {
                -1int
            } else {
                0
            }
            &&& a.ear_dy == 0
        }),
{
    lemma_turns(frame);
}

/// A startled character pricks its ears and wags, one under the mouse does so a little less, and one
/// that was clicked jumps. None of them blinks or steps.
#[verifier::spinoff_prover]
pub proof fn law_roused_characters_prick_their_ears(frame: int, blink_ctr: int)
    requires
        0 <= frame,
    ensures
        ({
            let a = anim_of(Pose::React, frame, blink_ctr);
            &&& !a.blink && a.leg_front_dx == 0 && a.leg_back_dx == 0
            &&& a.ear_dy == -2
            &&& a.tail_dy == if frame % 4 < 2 {
                -3int
            } else {
                -1
            }
            &&& a.body_dy == if frame % 6 < 3 {
                0int
            } else {
                1
            }
        }),
        ({
            let a = anim_of(Pose::Hover, frame, blink_ctr);
            &&& !a.blink && a.leg_front_dx == 0 && a.leg_back_dx == 0
            &&& a.ear_dy == -1
            &&& a.tail_dy == if frame % 4 < 2 {
                -2int
            } else {
                0
            }
            &&& a.body_dy == if frame % 8 < 4 {
                0int
            } else {
                1
            }
        }),
        ({
            let a = anim_of(Pose::Clicked, frame, blink_ctr);
            &&& !a.blink && a.leg_front_dx == 0 && a.leg_back_dx == 0
            &&& a.ear_dy == -2 && a.tail_dy == -3 && a.body_dy == -4
        }),
{
    lemma_turns(frame);
}

// ----- the cat and the dog ----------------------------------------------------

/// Cats are orange or grey, dogs are brown or black: the first variant is the former of the two.
pub proof fn law_coats_have_their_colours(variant: int)
    ensures
        variant == 0 ==> part_rgb(true, variant, Part::Body) == (235u8, 160u8, 80u8),
        variant == 0 ==> part_rgb(true, variant, Part::Dark) == (200u8, 120u8, 50u8),
        variant == 0 ==> part_rgb(true, variant, Part::Light) == (250u8, 205u8, 140u8),
        variant == 0 ==> part_rgb(true, variant, Part::Ear) == (240u8, 175u8, 185u8),
        variant == 0 ==> part_rgb(true, variant, Part::Nose) == (220u8, 120u8, 130u8),
        variant != 0 ==> part_rgb(true, variant, Part::Body) == (150u8, 154u8, 160u8),
        variant != 0 ==> part_rgb(true, variant, Part::Dark) == (110u8, 114u8, 122u8),
        variant != 0 ==> part_rgb(true, variant, Part::Light) == (205u8, 208u8, 214u8),
        variant != 0 ==> part_rgb(true, variant, Part::Ear) == (235u8, 180u8, 188u8),
        variant != 0 ==> part_rgb(true, variant, Part::Nose) == (210u8, 130u8, 140u8),
        variant == 0 ==> part_rgb(false, variant, Part::Body) == (184u8, 134u8, 84u8),
        variant == 0 ==> part_rgb(false, variant, Part::Dark) == (140u8, 95u8, 55u8),
        variant == 0 ==> part_rgb(false, variant, Part::Light) == (222u8, 188u8, 142u8),
        variant == 0 ==> part_rgb(false, variant, Part::Ear) == (150u8, 105u8, 65u8),
        variant == 0 ==> part_rgb(false, variant, Part::Nose) == (60u8, 45u8, 42u8),
        variant != 0 ==> part_rgb(false, variant, Part::Body) == (92u8, 92u8, 100u8),
        variant != 0 ==> part_rgb(false, variant, Part::Dark) == (58u8, 58u8, 66u8),
        variant != 0 ==> part_rgb(false, variant, Part::Light) == (140u8, 140u8, 150u8),
        variant != 0 ==> part_rgb(false, variant, Part::Ear) == (70u8, 70u8, 78u8),
        variant != 0 ==> part_rgb(false, variant, Part::Nose) == (40u8, 38u8, 42u8),
{
}

/// Eyes, mouth and collar are the same in every coat.
pub proof fn law_coats_share_their_trimmings(is_cat: bool, variant: int)
    ensures
        part_rgb(is_cat, variant, Part::Eye) == (40u8, 38u8, 45u8),
        part_rgb(is_cat, variant, Part::EyeHi) == (255u8, 255u8, 255u8),
        part_rgb(is_cat, variant, Part::Mouth) == (70u8, 55u8, 55u8),
        part_rgb(is_cat, variant, Part::Collar) == (210u8, 70u8, 70u8),
        part_rgb(is_cat, variant, Part::Buckle) == (240u8, 210u8, 90u8),
{
}

/// A row of a pet's table as it is painted. Legs swing and keep to their row; all else goes up and
/// down with the body, ears and tail by as much again as they move themselves.
pub open spec fn row_at(spot: Spot, is_cat: bool, variant: int, anim: Anim, row: Row) -> Block {
    let leg = row.5 == Tag::LegFront || row.5 == Tag::LegBack;
    let dx: int = if row.5 == Tag::LegFront {
        anim.leg_front_dx as int
    } else if row.5 == Tag::LegBack {
        anim.leg_back_dx as int
    } else {
        0
    };
    let own: int = if row.5 == Tag::Ear {
        anim.ear_dy as int
    } else if row.5 == Tag::Tail {
        anim.tail_dy as int
    } else {
        0
    };
    let dy: int = if leg {
        0
    } else {
        anim.body_dy + own
    };
    cells_at(
        spot,
        row.0 + dx,
        row.1 + dy,
        row.2 as int,
        row.3 as int,
        part_rgb(is_cat, variant, row.4),
    )
}

proof fn lemma_all_kept(rows: Seq<Row>, p: spec_fn(Row) -> bool)
    requires
        forall|i: int| 0 <= i < rows.len() ==> p(#[trigger] rows[i]),
    ensures
        rows.filter(p) == rows,
    decreases rows.len(),
{
    reveal(Seq::filter);
    if rows.len() > 0 {
        lemma_all_kept(rows.drop_last(), p);
        assert(rows.drop_last().push(rows.last()) =~= rows);
    }
}

proof fn lemma_none_kept(rows: Seq<Row>, p: spec_fn(Row) -> bool)
    requires
        forall|i: int| 0 <= i < rows.len() ==> !p(#[trigger] rows[i]),
    ensures
        rows.filter(p) == Seq::<Row>::empty(),
    decreases rows.len(),
{
    reveal(Seq::filter);
    if rows.len() > 0 {
        lemma_none_kept(rows.drop_last(), p);
    } else {
        assert(rows =~= Seq::empty());
    }
}

/// The rows that are shown: all of them, or all but those from `from` up to `to`.
proof fn lemma_rows_shown(rows: Seq<Row>, from: int, to: int, anim: Anim)
    requires
        0 <= from <= to <= rows.len(),
        forall|i: int|
            0 <= i < rows.len() ==> ((#[trigger] rows[i]).5 == Tag::Eyes <==> from <= i < to),
    ensures
        rows.filter(|row: Row| row_shown(anim, row)) == if anim.blink {
            rows.take(from) + rows.skip(to)
        } else {
            rows
        },
{
    let p = |row: Row| row_shown(anim, row);
    if anim.blink {
        let (a, b, c) = (rows.take(from), rows.subrange(from, to), rows.skip(to));
        assert(rows =~= (a + b) + c);
        Seq::filter_distributes_over_add(a + b, c, p);
        Seq::filter_distributes_over_add(a, b, p);
        lemma_all_kept(a, p);
        lemma_none_kept(b, p);
        lemma_all_kept(c, p);
        assert(a + Seq::<Row>::empty() + c =~= a + c);
    } else {
        lemma_all_kept(rows, p);
    }
}

proof fn lemma_body(is_cat: bool, variant: int, anim: Anim)
    ensures
        ({
            let rows: Seq<Row> = if is_cat {
                CAT_BLOCKS@
            } else {
                DOG_BLOCKS@
            };
            let eye: int = if is_cat {
                11
            } else {
                8
            };
            let shown = if anim.blink {
                rows.take(eye) + rows.skip(eye + 4)
            } else {
                rows
            };
            &&& rows.len() == if is_cat {
                24int
            } else {
                20
            }
            &&& body_patches(is_cat, variant, anim) == shown.map_values(
                |row: Row| row_patch(is_cat, variant, anim, row),
            )
        }),
{
    if is_cat {
        lemma_rows_shown(CAT_BLOCKS@, 11, 15, anim);
    } else {
        lemma_rows_shown(DOG_BLOCKS@, 8, 12, anim);
    }
}

/// How many blocks a pet's mood adds.
pub open spec fn mood_count(mood: Band) -> int {
    if mood == Band::Urgent {
        3
    } else if mood == Band::Soft {
        1
    } else {
        0
    }
}

/// Every row of a pet's table is painted in the table's order, in its place and in the colour of its
/// part. Only the eyes, the four rows from the cat's eleventh or the dog's eighth on, are left out
/// while they are shut; two lids are painted in their stead.
pub proof fn law_pets_are_put_together(
    spot: Spot,
    is_cat: bool,
    variant: int,
    anim: Anim,
    mood: Band,
    i: int,
)
    requires
        0 <= i < if is_cat {
            24int
        } else {
            20
        },
    ensures
        ({
            let plan = pet_plan(spot, is_cat, variant, anim, mood);
            let row: Row = if is_cat {
                CAT_BLOCKS@[i]
            } else {
                DOG_BLOCKS@[i]
            };
            let eye: int = if is_cat {
                11
            } else {
                8
            };
            let want = row_at(spot, is_cat, variant, anim, row);
            &&& !anim.blink ==> plan[i] == want
            &&& anim.blink && i < eye ==> plan[i] == want
            &&& anim.blink && i >= eye + 4 ==> plan[i - 4] == want
            &&& row.5 == Tag::Eyes <==> eye <= i < eye + 4
            &&& plan.len() == mood_count(mood) + (if is_cat {
                24int
            } else {
                20
            }) - (if anim.blink {
                2int
            } else {
                0
            })
        }),
{
    lemma_body(is_cat, variant, anim);
}

/// The lids of shut eyes are dark and lie across the middle of the eyes.
pub proof fn law_shut_eyes_have_lids(
    spot: Spot,
    is_cat: bool,
    variant: int,
    anim: Anim,
    mood: Band,
)
    requires
        anim.blink,
    ensures
        ({
            let plan = pet_plan(spot, is_cat, variant, anim, mood);
            let dark = part_rgb(is_cat, variant, Part::Dark);
            let dy = anim.body_dy;
            &&& is_cat ==> plan[20] == cells_at(spot, 11, 11 + dy, 3, 1, dark)
            &&& is_cat ==> plan[21] == cells_at(spot, 19, 11 + dy, 3, 1, dark)
            &&& !is_cat ==> plan[16] == cells_at(spot, 12, 10 + dy, 3, 1, dark)
            &&& !is_cat ==> plan[17] == cells_at(spot, 18, 10 + dy, 3, 1, dark)
        }),
{
    lemma_body(is_cat, variant, anim);
}

/// A worried pet sweats; an alarmed one opens its mouth and raises its brows. That is painted over
/// all else. The alarmed dog's mouth keeps its columns when the dog turns round.
pub proof fn law_moods_show_in_the_face(
    spot: Spot,
    is_cat: bool,
    variant: int,
    anim: Anim,
)
    ensures
        ({
            let plan = pet_plan(spot, is_cat, variant, anim, Band::Soft);
            let dy = anim.body_dy;
            plan.last() == cells_at(
                spot,
                if is_cat {
                    24
                } else {
                    23
                },
                6 + dy,
                1,
                2,
                (150, 205, 240),
            )
        }),
        ({
            let plan = pet_plan(spot, is_cat, variant, anim, Band::Urgent);
            let n = plan.len() as int;
            let mouth = part_rgb(is_cat, variant, Part::Mouth);
            let white: Rgb = (255, 255, 255);
            let dy = anim.body_dy;
            &&& is_cat ==> plan[n - 3] == cells_at(spot, 14, 15 + dy, 4, 3, mouth)
            &&& is_cat ==> plan[n - 2] == cells_at(spot, 11, 7 + dy, 3, 1, white)
            &&& is_cat ==> plan[n - 1] == cells_at(spot, 19, 7 + dy, 3, 1, white)
            &&& !is_cat ==> plan[n - 3] == (Block {
                x: (spot.ox + 14 * spot.u) as i32,
                y: (spot.oy + (17 + dy) * spot.u) as i32,
                bw: (5 * spot.u) as i32,
                bh: (2 * spot.u) as i32,
                color: opaque(mouth),
            })
            &&& !is_cat ==> plan[n - 2] == cells_at(spot, 12, 6 + dy, 3, 1, white)
            &&& !is_cat ==> plan[n - 1] == cells_at(spot, 18, 6 + dy, 3, 1, white)
        }),
{
    lemma_body(is_cat, variant, anim);
}

// ----- the girl ---------------------------------------------------------------

/// From the `k`th on, the blocks are those of a table, moved down by `dy`.
pub open spec fn table_at(plan: Seq<Block>, k: int, spot: Spot, dy: int, rows: Seq<GirlRow>) -> bool {
    &&& k + rows.len() <= plan.len()
    &&& forall|i: int|
        0 <= i < rows.len() ==> plan[k + i] == cells_at(
            spot,
            (#[trigger] rows[i]).0 as int,
            rows[i].1 + dy,
            rows[i].2 as int,
            rows[i].3 as int,
            rows[i].4,
        )
}

/// Where the blocks of the girl's clothes end.
pub open spec fn dressed_to(usage: int) -> int {
    if usage < 60 {
        35
    } else if usage < 75 {
        32
    } else if usage < 90 {
        33
    } else {
        35
    }
}

/// The girl is painted from back to front: the hair behind, the twin tails, the figure, the legs. The
/// tails swing, and the legs step without leaving their rows.
#[verifier::spinoff_prover]
pub proof fn law_the_girl_has_a_figure(
    spot: Spot,
    anim: Anim,
    mood: Band,
    usage: int,
    kiss: int,
    kiss_max: int,
    frame: int,
)
    ensures
        ({
            let plan = girl_plan(spot, anim, mood, usage, kiss, kiss_max, frame);
            let dy = anim.body_dy as int;
            let sway = 5 + dy + anim.tail_dy;
            let back = 12 + anim.leg_back_dx;
            let front = 17 + anim.leg_front_dx;
            let hair: Rgb = (116, 80, 62);
            let skin: Rgb = (255, 222, 196);
            let shade: Rgb = (214, 172, 148);
            &&& table_at(plan, 0, spot, dy, BACK_HAIR@)
            &&& plan[1] == cells_at(spot, 7, sway, 2, 13, hair)
            &&& plan[2] == cells_at(spot, 23, sway, 2, 13, hair)
            &&& table_at(plan, 3, spot, dy, FIGURE@)
            &&& plan[20] == cells_at(spot, back, 23, 3, 4, skin)
            &&& plan[21] == cells_at(spot, front, 23, 3, 4, skin)
            &&& plan[22] == cells_at(spot, back + 1, 27, 2, 4, skin)
            &&& plan[23] == cells_at(spot, front + 1, 27, 2, 4, skin)
            &&& plan[24] == cells_at(spot, back, 30, 3, 1, shade)
            &&& plan[25] == cells_at(spot, front, 30, 3, 1, shade)
        }),
{
}

/// Below 60 percent the girl wears skirt, shirt and jacket; from 60 on the jacket is off, from 75 on
/// the shirt, and from 90 on the skirt.
#[verifier::spinoff_prover]
pub proof fn law_the_girl_dresses_by_usage(
    spot: Spot,
    anim: Anim,
    mood: Band,
    usage: int,
    kiss: int,
    kiss_max: int,
    frame: int,
)
    ensures
        ({
            let plan = girl_plan(spot, anim, mood, usage, kiss, kiss_max, frame);
            let dy = anim.body_dy as int;
            &&& usage < 90 ==> table_at(plan, 26, spot, dy, SKIRT_ROWS@)
            &&& usage < 75 ==> table_at(plan, 28, spot, dy, SHIRT_ROWS@)
            &&& usage < 60 ==> table_at(plan, 32, spot, dy, JACKET_ROWS@)
            &&& 75 <= usage < 90 ==> table_at(plan, 28, spot, dy, BIKINI_TOP@)
            &&& 90 <= usage ==> table_at(plan, 26, spot, dy, BIKINI_BOTTOM@)
            &&& 90 <= usage ==> table_at(plan, 30, spot, dy, BIKINI_TOP@)
            &&& table_at(plan, dressed_to(usage), spot, dy, FRONT_HAIR@)
        }),
{
}

/// The girl's eyes smile while she blows a kiss, and are shut in a blink. Her mouth tells her mood
/// unless she blows a kiss. Nothing is painted after it but the hearts of the kiss.
#[verifier::spinoff_prover]
pub proof fn law_the_girls_face_tells_her_mood(
    spot: Spot,
    anim: Anim,
    mood: Band,
    usage: int,
    kiss: int,
    kiss_max: int,
    frame: int,
)
    ensures
        ({
            let plan = girl_plan(spot, anim, mood, usage, kiss, kiss_max, frame);
            let dy = anim.body_dy as int;
            let face = dressed_to(usage) + 4;
            let cheeks = face + if kiss <= 0 && anim.blink {
                2int
            } else {
                4
            };
            let mouth = cheeks + 2;
            &&& kiss > 0 ==> table_at(plan, face, spot, dy, SMILING_EYES@)
            &&& kiss <= 0 && anim.blink ==> table_at(plan, face, spot, dy, SHUT_EYES@)
            &&& kiss <= 0 && !anim.blink ==> table_at(plan, face, spot, dy, OPEN_EYES@)
            &&& table_at(plan, cheeks, spot, dy, CHEEKS@)
            &&& kiss > 0 ==> table_at(plan, mouth, spot, dy, KISSING_MOUTH@)
            &&& kiss <= 0 && mood == Band::Low ==> table_at(plan, mouth, spot, dy, CALM_MOUTH@)
                && plan.len() == mouth + 1
            &&& kiss <= 0 && mood == Band::Soft ==> table_at(plan, mouth, spot, dy, WORRIED_MOUTH@)
                && plan.len() == mouth + 2
            &&& kiss <= 0 && mood == Band::Urgent ==> table_at(plan, mouth, spot, dy, ALARMED_MOUTH@)
                && plan.len() == mouth + 4
        }),
{
}

/// From the `k`th on, the blocks are those of a heart with a highlight on its first cell. A large
/// heart is a cell further to her facing side.
pub open spec fn heart_at(plan: Seq<Block>, k: int, spot: Spot, x: int, y: int, big: bool) -> bool {
    let pink: Rgb = (240, 92, 132);
    let glint: Rgb = (255, 156, 184);
    if big {
        &&& k + 14 <= plan.len()
        &&& forall|i: int|
            0 <= i < 13 ==> plan[k + i] == cells_at(
                spot,
                x + 1 + (#[trigger] BIG_HEART@[i]).0,
                y + BIG_HEART@[i].1,
                1,
                1,
                pink,
            )
        &&& plan[k + 13] == cells_at(spot, x + 1, y, 1, 1, glint)
    } else {
        &&& k + 7 <= plan.len()
        &&& forall|i: int|
            0 <= i < 6 ==> plan[k + i] == cells_at(
                spot,
                x + (#[trigger] SMALL_HEART@[i]).0,
                y + SMALL_HEART@[i].1,
                1,
                1,
                pink,
            )
        &&& plan[k + 6] == cells_at(spot, x, y, 1, 1, glint)
    }
}

/// How many blocks a heart has.
pub open spec fn heart_count(big: bool) -> int {
    if big {
        14
    } else {
        7
    }
}

/// The blocks of a heart of a kiss.
spec fn heart_blocks(spot: Spot, x: int, y: int, big: bool) -> Seq<Block> {
    placed(spot, heart_patches(heart_column(x, big), y, big))
}

proof fn lemma_heart(spot: Spot, x: int, y: int, big: bool)
    ensures
        ({
            let part = heart_blocks(spot, x, y, big);
            &&& heart_at(part, 0, spot, x, y, big)
            &&& part.len() == heart_count(big)
        }),
{
}

proof fn lemma_heart_on(
    a: Seq<Block>,
    part: Seq<Block>,
    b: Seq<Block>,
    spot: Spot,
    x: int,
    y: int,
    big: bool,
)
    requires
        heart_at(part, 0, spot, x, y, big),
    ensures
        heart_at(a + part + b, a.len() as int, spot, x, y, big),
{
    let all = a + part + b;
    let n = a.len() as int;
    if big {
        assert forall|i: int| 0 <= i < 13 implies all[n + i] == cells_at(
            spot,
            x + 1 + (#[trigger] BIG_HEART@[i]).0,
            y + BIG_HEART@[i].1,
            1,
            1,
            (240, 92, 132),
        ) by {
            assert(all[n + i] == part[i]);
        }
        assert(all[n + 13] == part[13]);
    } else {
        assert forall|i: int| 0 <= i < 6 implies all[n + i] == cells_at(
            spot,
            x + (#[trigger] SMALL_HEART@[i]).0,
            y + SMALL_HEART@[i].1,
            1,
            1,
            (240, 92, 132),
        ) by {
            assert(all[n + i] == part[i]);
        }
        assert(all[n + 6] == part[6]);
    }
}

#[verifier::spinoff_prover]
proof fn lemma_before_hearts(
    spot: Spot,
    anim: Anim,
    mood: Band,
    usage: int,
    kiss: int,
    kiss_max: int,
    frame: int,
)
    requires
        0 < kiss,
    ensures
        ({
            let plan = girl_plan(spot, anim, mood, usage, kiss, kiss_max, frame);
            let hearts = placed(spot, kiss_patches(kiss_max - kiss, frame));
            let first = dressed_to(usage) + 14;
            &&& plan.len() == first + hearts.len()
            &&& plan == plan.take(first) + hearts
        }),
{
    let plan = girl_plan(spot, anim, mood, usage, kiss, kiss_max, frame);
    let hearts = placed(spot, kiss_patches(kiss_max - kiss, frame));
    let first = dressed_to(usage) + 14;
    assert(plan.len() == first + hearts.len());
    assert(plan =~= plan.take(first) + hearts);
}

proof fn lemma_hearts(spot: Spot, age: int, frame: int)
    requires
        0 <= frame,
    ensures
        ({
            let all = placed(spot, kiss_patches(age, frame));
            let h1 = heart_blocks(spot, 16, 7 - age / 2, frame % 2 == 0);
            let h2 = heart_blocks(spot, 19, 11 - age / 2, frame % 4 < 2);
            let h3 = heart_blocks(spot, 13, 12 - age / 2, frame % 6 < 3);
            &&& age < 4 ==> all == h1
            &&& 4 <= age < 8 ==> all == h1 + h2
            &&& 8 <= age ==> all == h1 + h2 + h3
        }),
{
    let (big1, big2, big3) = (frame % 2 == 0, frame % 4 < 2, frame % 6 < 3);
    let p1 = heart_patches(heart_column(16, big1), 7 - age / 2, big1);
    let p2 = heart_patches(heart_column(19, big2), 11 - age / 2, big2);
    let p3 = heart_patches(heart_column(13, big3), 12 - age / 2, big3);
    lemma_turns(frame);
    lemma_placed_on(spot, p1, p2);
    lemma_placed_on(spot, p1 + p2, p3);
    if age < 4 {
        assert(kiss_patches(age, frame) =~= p1);
    } else if age < 8 {
        assert(kiss_patches(age, frame) =~= p1 + p2);
    } else {
        assert(kiss_patches(age, frame) =~= p1 + p2 + p3);
    }
}

/// What `law_kisses_send_up_hearts` says, of any blocks that come before the hearts.
proof fn lemma_kiss(head: Seq<Block>, hearts: Seq<Block>, spot: Spot, age: int, frame: int)
    requires
        0 <= frame,
        hearts == placed(spot, kiss_patches(age, frame)),
    ensures
        ({
            let plan = head + hearts;
            let first = head.len() as int;
            let (big1, big2, big3) = (frame % 2 == 0, frame % 4 < 2, frame % 6 < 3);
            let second = first + heart_count(big1);
            let third = second + heart_count(big2);
            &&& heart_at(plan, first, spot, 16, 7 - age / 2, big1)
            &&& age >= 4 ==> heart_at(plan, second, spot, 19, 11 - age / 2, big2)
            &&& age >= 8 ==> heart_at(plan, third, spot, 13, 12 - age / 2, big3)
            &&& age < 4 ==> plan.len() == second
            &&& 4 <= age < 8 ==> plan.len() == third
            &&& 8 <= age ==> plan.len() == third + heart_count(big3)
        }),
{
    let plan = head + hearts;
    let (big1, big2, big3) = (frame % 2 == 0, frame % 4 < 2, frame % 6 < 3);
    let h1 = heart_blocks(spot, 16, 7 - age / 2, big1);
    let h2 = heart_blocks(spot, 19, 11 - age / 2, big2);
    let h3 = heart_blocks(spot, 13, 12 - age / 2, big3);
    let none = Seq::<Block>::empty();
    lemma_hearts(spot, age, frame);
    lemma_heart(spot, 16, 7 - age / 2, big1);
    lemma_heart(spot, 19, 11 - age / 2, big2);
    lemma_heart(spot, 13, 12 - age / 2, big3);
    if age < 4 {
        assert(plan =~= head + h1 + none);
        lemma_heart_on(head, h1, none, spot, 16, 7 - age / 2, big1);
    } else if age < 8 {
        assert(plan =~= head + h1 + h2);
        assert(plan =~= (head + h1) + h2 + none);
        lemma_heart_on(head, h1, h2, spot, 16, 7 - age / 2, big1);
        lemma_heart_on(head + h1, h2, none, spot, 19, 11 - age / 2, big2);
    } else {
        assert(plan =~= head + h1 + (h2 + h3));
        assert(plan =~= (head + h1) + h2 + h3);
        assert(plan =~= (head + h1 + h2) + h3 + none);
        lemma_heart_on(head, h1, h2 + h3, spot, 16, 7 - age / 2, big1);
        lemma_heart_on(head + h1, h2, h3, spot, 19, 11 - age / 2, big2);
        lemma_heart_on(head + h1 + h2, h3, none, spot, 13, 12 - age / 2, big3);
    }
}

/// A kiss has one heart at first, a second one from its fourth tick on and a third from its eighth.
/// They rise by a row every other tick, and throb: the first changes size every frame, the second
/// every two and the third every three.
pub proof fn law_kisses_send_up_hearts(
    spot: Spot,
    anim: Anim,
    mood: Band,
    usage: int,
    kiss: int,
    kiss_max: int,
    frame: int,
)
    requires
        0 < kiss <= kiss_max,
        0 <= frame,
    ensures
        ({
            let plan = girl_plan(spot, anim, mood, usage, kiss, kiss_max, frame);
            let age = kiss_max - kiss;
            let first = dressed_to(usage) + 14;
            let (big1, big2, big3) = (frame % 2 == 0, frame % 4 < 2, frame % 6 < 3);
            let second = first + heart_count(big1);
            let third = second + heart_count(big2);
            &&& heart_at(plan, first, spot, 16, 7 - age / 2, big1)
            &&& age >= 4 ==> heart_at(plan, second, spot, 19, 11 - age / 2, big2)
            &&& age >= 8 ==> heart_at(plan, third, spot, 13, 12 - age / 2, big3)
            &&& age < 4 ==> plan.len() == second
            &&& 4 <= age < 8 ==> plan.len() == third
            &&& 8 <= age ==> plan.len() == third + heart_count(big3)
        }),
{
    let plan = girl_plan(spot, anim, mood, usage, kiss, kiss_max, frame);
    let first = dressed_to(usage) + 14;
    let hearts = placed(spot, kiss_patches(kiss_max - kiss, frame));
    lemma_before_hearts(spot, anim, mood, usage, kiss, kiss_max, frame);
    assert(plan.take(first).len() == first);
    lemma_kiss(plan.take(first), hearts, spot, kiss_max - kiss, frame);
}

} // verus!
