//! What a frame shows, stated in the places, words and colours that can be seen in it.

use crate::canvas::opaque;
use crate::canvas::Block;
use crate::girl::girl_plan;
use crate::kind::CharacterKind;
use crate::mood::Band;
use crate::position::device_column;
use crate::scene::balloon_views;
use crate::scene::balloons_of;
use crate::scene::columns;
use crate::scene::girl_blocks;
use crate::scene::lemma_one_more;
use crate::scene::pet_blocks;
use crate::scene::scene_blocks;
use crate::scene::speakers;
use crate::scene::{BubbleSnap, Scene, SceneView, Snapshot, SnapshotView};
use crate::speech::balloon_blocks;
use crate::speech::balloon_for;
use crate::speech::blended;
use crate::speech::blended_over;
use crate::speech::centred;
use crate::speech::lemma_bytes;
use crate::speech::lemma_channel;
use crate::speech::made_way;
use crate::speech::{Balloon, BalloonView};
use crate::sprite::anim_of;
use crate::sprite::pet_plan;
use crate::sprite::Spot;
use vstd::arithmetic::div_mod::lemma_mod_bound;
use vstd::prelude::*;

verus! {

// ----- what is seen -----------------------------------------------------------

/// The views of a frame show all that there is of it.
pub proof fn law_scenes_are_seen_whole(s: Scene, c: Snapshot, b: BubbleSnap)
    ensures
        b@.text == b.text@,
        b@.ttl == b.ttl,
        b@.max_ttl == b.max_ttl,
        c@.x == c.x,
        c@.dir == c.dir,
        c@.pose == c.pose,
        c@.variant == c.variant,
        c@.blink_ctr == c.blink_ctr,
        c@.mood == c.mood,
        c@.bubble is Some <==> c.bubble is Some,
        c.bubble is Some ==> c@.bubble->0 == c.bubble->0@,
        c@.kiss == c.kiss,
        c@.kiss_max == c.kiss_max,
        s@.hwnd == s.hwnd,
        s@.win_w == s.win_w,
        s@.win_h == s.win_h,
        s@.u == s.u,
        s@.kind == s.kind,
        s@.frame == s.frame,
        s@.usage == s.usage,
        s@.cat == s.cat@,
        s@.dog == s.dog@,
        s@.girl == s.girl@,
{
}

/// A list of bubbles is seen one for one, and each of them whole.
pub proof fn law_balloons_are_seen_whole(list: Seq<Balloon>, i: int)
    requires
        0 <= i < list.len(),
    ensures
        balloon_views(list).len() == list.len(),
        balloon_views(list)[i].text == list[i].text@,
        balloon_views(list)[i].bx == list[i].bx,
        balloon_views(list)[i].tail_x == list[i].tail_x,
        balloon_views(list)[i].alpha == list[i].alpha,
{
}

// ----- bubbles ----------------------------------------------------------------

/// Whether the cat is on show and has something to say.
pub open spec fn cat_speaks(s: SceneView) -> bool {
    (s.kind == CharacterKind::Cat || s.kind == CharacterKind::Both) && s.cat.bubble is Some
}

/// Whether the dog is on show and has something to say.
pub open spec fn dog_speaks(s: SceneView) -> bool {
    (s.kind == CharacterKind::Dog || s.kind == CharacterKind::Both) && s.dog.bubble is Some
}

/// Whether the girl is on show and has something to say.
pub open spec fn girl_speaks(s: SceneView) -> bool {
    s.kind == CharacterKind::Girl && s.girl.bubble is Some
}

/// The column over a character's middle: 16 logical pixels into the sprite.
pub open spec fn over(c: SnapshotView, u: int) -> int {
    (c.x / 0x100_0000int + 16) * u
}

/// A bubble that is its character's: it has the character's words, it has faded as far as it should
/// have, and its tail is as near over the character as the bubble reaches.
pub open spec fn speaks_for(b: BalloonView, c: SnapshotView, u: int) -> bool {
    let said = c.bubble->0;
    let tail = over(c, u) - u;
    &&& c.bubble is Some
    &&& b.text == said.text
    &&& said.ttl >= 4 || said.max_ttl <= 4 ==> b.alpha == 255
    &&& said.max_ttl > 4 && said.ttl == 3 ==> b.alpha == 207
    &&& said.max_ttl > 4 && said.ttl == 2 ==> b.alpha == 159
    &&& said.max_ttl > 4 && said.ttl == 1 ==> b.alpha == 111
    &&& said.max_ttl > 4 && said.ttl == 0 ==> b.alpha == 64
    &&& b.bx + 2 * u <= b.tail_x <= b.bx + 81 * u
    &&& b.bx + 2 * u <= tail <= b.bx + 81 * u ==> b.tail_x == tail
    &&& tail < b.bx + 2 * u ==> b.tail_x == b.bx + 2 * u
    &&& tail > b.bx + 81 * u ==> b.tail_x == b.bx + 81 * u
}

/// A left edge that puts a bubble over the middle of its character, as far as the window allows.
pub open spec fn in_the_middle(bx: int, c: SnapshotView, u: int) -> bool {
    let want = over(c, u) - 42 * u;
    &&& 0 <= bx <= 100 * u
    &&& 0 <= want <= 100 * u ==> bx == want
    &&& want < 0 ==> bx == 0
    &&& want > 100 * u ==> bx == 100 * u
}

proof fn lemma_speaks_for(c: SnapshotView, u: int, used: Seq<(i32, i32)>)
    requires
        c.bubble is Some,
        0 <= u,
    ensures
        ({
            let said = c.bubble->0;
            let b = balloon_for(said.text, c.x, said.ttl, said.max_ttl, u, 184 * u, used);
            &&& speaks_for(b, c, u)
            &&& b.bx == made_way(centred(c.x, u, 184 * u), u, 184 * u, used)
            &&& in_the_middle(centred(c.x, u, 184 * u), c, u)
        }),
{
}

proof fn lemma_first(s: SceneView, c: SnapshotView)
    requires
        s.wf(),
        c.bubble is Some,
    ensures
        ({
            let out = balloons_of(seq![c], s.u, s.win_w);
            &&& out.len() == 1
            &&& speaks_for(out[0], c, s.u)
            &&& in_the_middle(out[0].bx, c, s.u)
            &&& out[0].bx == centred(c.x, s.u, s.win_w)
        }),
{
    let none = Seq::<SnapshotView>::empty();
    lemma_one_more(none, c, s.u, s.win_w);
    assert(none.push(c) =~= seq![c]);
    assert(balloons_of(none, s.u, s.win_w) =~= Seq::empty());
    assert(columns(balloons_of(none, s.u, s.win_w), s.u) =~= Seq::empty());
    lemma_speaks_for(c, s.u, Seq::empty());
}

/// There is a bubble for everyone on show who has something to say, and for nobody else. Each has
/// its character's words. A bubble that is alone stands over its character, as far as the window
/// allows, and so does the first of two; the first is the cat's.
pub proof fn law_everyone_who_speaks_has_a_bubble(s: SceneView)
    requires
        s.wf(),
    ensures
        ({
            let out = balloons_of(speakers(s), s.u, s.win_w);
            &&& out.len() == (if cat_speaks(s) {
                1int
            } else {
                0
            }) + (if dog_speaks(s) {
                1int
            } else {
                0
            }) + (if girl_speaks(s) {
                1int
            } else {
                0
            })
            &&& cat_speaks(s) ==> speaks_for(out[0], s.cat, s.u) && in_the_middle(
                out[0].bx,
                s.cat,
                s.u,
            )
            &&& dog_speaks(s) && !cat_speaks(s) ==> speaks_for(out[0], s.dog, s.u)
                && in_the_middle(out[0].bx, s.dog, s.u)
            &&& dog_speaks(s) && cat_speaks(s) ==> speaks_for(out[1], s.dog, s.u)
            &&& girl_speaks(s) ==> speaks_for(out[0], s.girl, s.u) && in_the_middle(
                out[0].bx,
                s.girl,
                s.u,
            )
        }),
{
    if cat_speaks(s) {
        lemma_first(s, s.cat);
        if dog_speaks(s) {
            let used = columns(balloons_of(seq![s.cat], s.u, s.win_w), s.u);
            lemma_one_more(seq![s.cat], s.dog, s.u, s.win_w);
            lemma_speaks_for(s.dog, s.u, used);
            assert(speakers(s) =~= seq![s.cat].push(s.dog));
        } else {
            assert(speakers(s) =~= seq![s.cat]);
        }
    } else if dog_speaks(s) {
        lemma_first(s, s.dog);
        assert(speakers(s) =~= seq![s.dog]);
    } else if girl_speaks(s) {
        lemma_first(s, s.girl);
        assert(speakers(s) =~= seq![s.girl]);
    } else {
        assert(speakers(s) =~= Seq::empty());
    }
}

/// Whoever is on show with something to say is heard: one of the bubbles has those words.
pub proof fn law_everyone_who_speaks_is_heard(s: SceneView)
    requires
        s.wf(),
    ensures
        ({
            let out = balloons_of(speakers(s), s.u, s.win_w);
            &&& cat_speaks(s) ==> exists|i: int|
                0 <= i < out.len() && speaks_for(#[trigger] out[i], s.cat, s.u)
            &&& dog_speaks(s) ==> exists|i: int|
                0 <= i < out.len() && speaks_for(#[trigger] out[i], s.dog, s.u)
            &&& girl_speaks(s) ==> exists|i: int|
                0 <= i < out.len() && speaks_for(#[trigger] out[i], s.girl, s.u)
        }),
{
    law_everyone_who_speaks_has_a_bubble(s);
    let out = balloons_of(speakers(s), s.u, s.win_w);
    if cat_speaks(s) {
        assert(speaks_for(out[0], s.cat, s.u));
    }
    if dog_speaks(s) {
        assert(if cat_speaks(s) {
            speaks_for(out[1], s.dog, s.u)
        } else {
            speaks_for(out[0], s.dog, s.u)
        });
    }
    if girl_speaks(s) {
        assert(speaks_for(out[0], s.girl, s.u));
    }
}

/// Where the dog's bubble goes that would lie across the cat's, whose left edge is at `lo`: 2 logical
/// pixels to the right of it if there is room for that much, else 2 to the left or as far left as
/// there is room, and as far right as the window goes where it fits on neither side.
pub open spec fn out_of_the_way(bx: int, lo: int, u: int) -> bool {
    &&& lo < 14 * u ==> bx == lo + 86 * u
    &&& 14 * u <= lo < 84 * u ==> bx == 100 * u
    &&& 84 * u <= lo <= 86 * u ==> bx == 0
    &&& 86 * u < lo ==> bx == lo - 86 * u
}

/// When the cat and the dog both speak, the dog's bubble stands where it would stand alone unless it
/// would lie across the cat's there. Only then does it make way.
pub proof fn law_the_dogs_bubble_makes_way(s: SceneView, alone: int)
    requires
        s.wf(),
        cat_speaks(s),
        dog_speaks(s),
        in_the_middle(alone, s.dog, s.u),
    ensures
        ({
            let out = balloons_of(speakers(s), s.u, s.win_w);
            let apart = alone + 84 * s.u <= out[0].bx || out[0].bx + 84 * s.u <= alone;
            &&& apart ==> out[1].bx == alone
            &&& !apart ==> out_of_the_way(out[1].bx, out[0].bx, s.u)
        }),
{
    let u = s.u;
    let w = s.win_w;
    let first = balloons_of(seq![s.cat], u, w);
    lemma_first(s, s.cat);
    lemma_one_more(seq![s.cat], s.dog, u, w);
    let used = columns(first, u);
    lemma_speaks_for(s.dog, u, used);
    assert(speakers(s) =~= seq![s.cat].push(s.dog));
    assert(u <= 402) by (nonlinear_arith)
        requires
            1 <= u,
            (184 * u) * (72 * u) <= 0x7fff_ffff,
    ;
    assert(used.drop_last() =~= Seq::empty());
    assert(made_way(centred(s.dog.x, u, w), u, w, used.drop_last()) == centred(s.dog.x, u, w));
    assert(centred(s.dog.x, u, w) == alone);
    assert(used.last() == (first[0].bx as i32, (first[0].bx + 84 * u) as i32));
}

/// A bubble is a box 84 logical pixels wide and 18 high, one below the window's upper edge, with an
/// outline of one around its paper and a tail of two by two under it.
pub proof fn law_bubbles_are_drawn_as_boxes(b: BalloonView, u: int)
    ensures
        ({
            let blocks = balloon_blocks(b, u);
            &&& blocks.len() == 3
            &&& blocks[0] == (Block {
                x: b.bx as i32,
                y: u as i32,
                bw: (84 * u) as i32,
                bh: (18 * u) as i32,
                color: opaque((120, 120, 128)),
            })
            &&& blocks[1] == (Block {
                x: (b.bx + u) as i32,
                y: (2 * u) as i32,
                bw: (82 * u) as i32,
                bh: (16 * u) as i32,
                color: opaque((252, 252, 250)),
            })
            &&& blocks[2] == (Block {
                x: b.tail_x as i32,
                y: (19 * u) as i32,
                bw: (2 * u) as i32,
                bh: (2 * u) as i32,
                color: opaque((252, 252, 250)),
            })
        }),
{
}

/// Fading changes nothing outside a bubble's columns, nor above its box, nor below its tail.
pub proof fn law_fading_stays_with_the_bubble(
    bits: Seq<u32>,
    w: int,
    h: int,
    u: int,
    b: BalloonView,
    i: int,
)
    requires
        0 < w,
        0 <= i < bits.len(),
    ensures
        ({
            let after = blended_over(bits, w, h, u, b);
            let (row, col) = (i / w, i % w);
            let inside = u <= row < 21 * u && row < h && b.bx <= col < b.bx + 84 * u;
            &&& after.len() == bits.len()
            &&& !inside ==> after[i] == bits[i]
            &&& inside && row < 19 * u ==> after[i] == blended(bits[i], b.alpha, true)
            &&& inside && row >= 19 * u ==> after[i] == blended(bits[i], b.alpha, false)
        }),
{
    lemma_mod_bound(i, w);
}

/// In a fading bubble every colour is taken down with the bubble: the pixel has the bubble's alpha,
/// and each channel is that part of what it was. Only blank pixels beside the tail are left alone.
pub proof fn law_fading_takes_every_colour_down(px: u32, alpha: int, in_box: bool)
    requires
        0 <= alpha < 255,
    ensures
        ({
            let p = blended(px, alpha, in_box) as int;
            let blank = px as int % 0x100_0000 == 0;
            &&& blank && !in_box ==> p == px
            &&& !blank || in_box ==> {
                &&& p / 0x100_0000 == alpha
                &&& p / 0x1_0000 % 0x100 == (px as int / 0x1_0000 % 0x100) * alpha / 255
                &&& p / 0x100 % 0x100 == (px as int / 0x100 % 0x100) * alpha / 255
                &&& p % 0x100 == (px as int % 0x100) * alpha / 255
            }
        }),
{
    let color: u32 = px % 0x100_0000;
    assert(color / 0x1_0000 % 0x100 == px / 0x1_0000 % 0x100 && color / 0x100 % 0x100 == px / 0x100
        % 0x100 && color % 0x100 == px % 0x100) by (bit_vector)
        requires
            color == px % 0x100_0000,
    ;
    lemma_channel(px as int / 0x1_0000 % 0x100, alpha);
    lemma_channel(px as int / 0x100 % 0x100, alpha);
    lemma_channel(px as int % 0x100, alpha);
    lemma_bytes(
        alpha,
        px as int / 0x1_0000 % 0x100 * alpha / 255,
        px as int / 0x100 % 0x100 * alpha / 255,
        px as int % 0x100 * alpha / 255,
    );
}

// ----- characters -------------------------------------------------------------

/// Where a character stands: at its own column, 38 logical pixels down, turned the way that it
/// walks. Only an alarmed character shakes: by one logical pixel, to the right in even frames and to
/// the left in odd ones.
pub open spec fn stands(spot: Spot, c: SnapshotView, frame: int, u: int) -> bool {
    let home = device_column(c.x, u);
    &&& spot.oy == (38 * u) as i32
    &&& spot.u == u as i32
    &&& spot.mirror <==> c.dir < 0
    &&& c.mood != Band::Urgent ==> spot.ox == home as i32
    &&& c.mood == Band::Urgent && frame % 2 == 0 ==> spot.ox == (home + u) as i32
    &&& c.mood == Band::Urgent && frame % 2 != 0 ==> spot.ox == (home - u) as i32
}

/// The blocks of a cat or a dog with its own coat, pose and mood, where it stands.
pub open spec fn pet_shown(
    blocks: Seq<Block>,
    spot: Spot,
    c: SnapshotView,
    is_cat: bool,
    s: SceneView,
) -> bool {
    stands(spot, c, s.frame, s.u) ==> blocks == pet_plan(
        spot,
        is_cat,
        c.variant,
        anim_of(c.pose, s.frame, c.blink_ctr),
        c.mood,
    )
}

/// A frame paints whoever is on show, as they are and where they stand, and nobody else. The dog is
/// painted over the cat.
pub proof fn law_frames_paint_whom_they_show(s: SceneView, spot: Spot, other: Spot)
    ensures
        s.kind == CharacterKind::Cat ==> pet_shown(scene_blocks(s), spot, s.cat, true, s),
        s.kind == CharacterKind::Dog ==> pet_shown(scene_blocks(s), spot, s.dog, false, s),
        s.kind == CharacterKind::Both && stands(spot, s.cat, s.frame, s.u) && stands(
            other,
            s.dog,
            s.frame,
            s.u,
        ) ==> scene_blocks(s) == pet_plan(
            spot,
            true,
            s.cat.variant,
            anim_of(s.cat.pose, s.frame, s.cat.blink_ctr),
            s.cat.mood,
        ) + pet_plan(
            other,
            false,
            s.dog.variant,
            anim_of(s.dog.pose, s.frame, s.dog.blink_ctr),
            s.dog.mood,
        ),
        s.kind == CharacterKind::Girl && stands(spot, s.girl, s.frame, s.u) ==> scene_blocks(s)
            == girl_plan(
            spot,
            anim_of(s.girl.pose, s.frame, s.girl.blink_ctr),
            s.girl.mood,
            s.usage,
            s.girl.kiss,
            s.girl.kiss_max,
            s.frame,
        ),
{
    let blocks = scene_blocks(s);
    if s.kind == CharacterKind::Cat {
        assert(blocks =~= pet_blocks(s.cat, true, s.frame, s.u));
    } else if s.kind == CharacterKind::Dog {
        assert(blocks =~= pet_blocks(s.dog, false, s.frame, s.u));
    } else if s.kind == CharacterKind::Girl {
        assert(blocks =~= girl_blocks(s.girl, s.usage, s.frame, s.u));
    } else {
        assert(blocks =~= pet_blocks(s.cat, true, s.frame, s.u)
            + pet_blocks(s.dog, false, s.frame, s.u));
    }
}

} // verus!
