//! What one frame shows, and how it is painted.

use crate::canvas::clear;
use crate::canvas::law_painting_goes_on;
use crate::canvas::law_painting_keeps_size;
use crate::canvas::painted;
use crate::canvas::Block;
use crate::critter::BubbleView;
use crate::critter::CritterView;
use crate::critter::{Critter, Pose, KISS_TICKS};
use crate::girl::draw_girl;
use crate::girl::girl_plan;
use crate::girl::heart_row;
use crate::kind::CharacterKind;
use crate::mood::Band;
use crate::position::device_column;
use crate::position::scale_column;
use crate::position::{BASE_OY, MAX_X, WIN_LH, WIN_LW};
use crate::speech::all_in_window;
use crate::speech::balloon_for;
use crate::speech::centred;
use crate::speech::fair;
use crate::speech::law_bubbles_lie_in_the_window;
use crate::speech::law_second_bubble_keeps_clear;
use crate::speech::overlaps;
use crate::speech::place_bubble;
use crate::speech::rightmost;
use crate::speech::sane;
use crate::speech::BalloonView;
use crate::speech::{Balloon, BUBBLE_LW};
use crate::sprite::anim_for;
use crate::sprite::anim_of;
use crate::sprite::draw_character;
use crate::sprite::lemma_reaches;
use crate::sprite::pet_plan;
use crate::sprite::{Anim, Spot};
use vstd::prelude::*;

verus! {

/// A bubble as a frame shows it.
#[derive(Debug)]
pub struct BubbleSnap {
    pub text: String,
    pub ttl: u32,
    pub max_ttl: u32,
}

/// A character as a frame shows it.
#[derive(Debug)]
pub struct Snapshot {
    pub x: i64,
    pub dir: i32,
    pub pose: Pose,
    pub variant: u8,
    pub blink_ctr: u32,
    pub mood: Band,
    pub bubble: Option<BubbleSnap>,
    pub kiss: u32,
    pub kiss_max: u32,
}

/// All that one frame shows.
#[derive(Debug)]
pub struct Scene {
    pub hwnd: isize,
    pub win_w: i32,
    pub win_h: i32,
    pub u: i32,
    pub kind: CharacterKind,
    pub frame: u64,
    pub usage: i32,
    pub cat: Snapshot,
    pub dog: Snapshot,
    pub girl: Snapshot,
}

pub ghost struct BubbleSnapView {
    pub text: Seq<char>,
    pub ttl: int,
    pub max_ttl: int,
}

pub ghost struct SnapshotView {
    pub x: int,
    pub dir: int,
    pub pose: Pose,
    pub variant: int,
    pub blink_ctr: int,
    pub mood: Band,
    pub bubble: Option<BubbleSnapView>,
    pub kiss: int,
    pub kiss_max: int,
}

pub ghost struct SceneView {
    pub hwnd: int,
    pub win_w: int,
    pub win_h: int,
    pub u: int,
    pub kind: CharacterKind,
    pub frame: int,
    pub usage: int,
    pub cat: SnapshotView,
    pub dog: SnapshotView,
    pub girl: SnapshotView,
}

impl View for BubbleSnap {
    type V = BubbleSnapView;

    open spec fn view(&self) -> BubbleSnapView {
        BubbleSnapView { text: self.text@, ttl: self.ttl as int, max_ttl: self.max_ttl as int }
    }
}

impl View for Snapshot {
    type V = SnapshotView;

    open spec fn view(&self) -> SnapshotView {
        SnapshotView {
            x: self.x as int,
            dir: self.dir as int,
            pose: self.pose,
            variant: self.variant as int,
            blink_ctr: self.blink_ctr as int,
            mood: self.mood,
            bubble: match self.bubble {
                Some(b) => Some(b@),
                None => None,
            },
            kiss: self.kiss as int,
            kiss_max: self.kiss_max as int,
        }
    }
}

impl View for Scene {
    type V = SceneView;

    open spec fn view(&self) -> SceneView {
        SceneView {
            hwnd: self.hwnd as int,
            win_w: self.win_w as int,
            win_h: self.win_h as int,
            u: self.u as int,
            kind: self.kind,
            frame: self.frame as int,
            usage: self.usage as int,
            cat: self.cat@,
            dog: self.dog@,
            girl: self.girl@,
        }
    }
}

/// A bubble as a frame shows it.
pub open spec fn bubble_shown(b: BubbleView) -> BubbleSnapView {
    BubbleSnapView { text: b.text, ttl: b.ttl, max_ttl: b.max_ttl }
}

/// A character as a frame shows it.
pub open spec fn snapshot_of(c: CritterView, mood: Band) -> SnapshotView {
    SnapshotView {
        x: c.x,
        dir: c.dir,
        pose: c.pose,
        variant: c.variant,
        blink_ctr: c.blink_ctr,
        mood,
        bubble: match c.bubble {
            Some(b) => Some(bubble_shown(b)),
            None => None,
        },
        kiss: c.kiss,
        kiss_max: c.kiss_max,
    }
}

pub fn snapshot(c: &Critter, mood: Band) -> (s: Snapshot)
    ensures
        s@ == snapshot_of(c@, mood),
{
    let bubble: Option<BubbleSnap> = match &c.bubble {
        Some(b) => Some(BubbleSnap { text: b.text.clone(), ttl: b.ttl, max_ttl: b.max_ttl }),
        None => None,
    };
    Snapshot {
        x: c.x,
        dir: c.dir,
        pose: c.pose,
        variant: c.variant,
        blink_ctr: c.blink_ctr,
        mood,
        bubble,
        kiss: c.kiss,
        kiss_max: c.kiss_max,
    }
}

impl SnapshotView {
    pub open spec fn wf(self) -> bool {
        &&& 0 <= self.x <= MAX_X
        &&& 0 <= self.kiss <= self.kiss_max <= KISS_TICKS
    }
}

impl SceneView {
    /// The window has the size that its scale calls for, and its pixels can be counted in an `i32`.
    pub open spec fn wf(self) -> bool {
        &&& 1 <= self.u
        &&& self.win_w == WIN_LW * self.u
        &&& self.win_h == WIN_LH * self.u
        &&& self.win_w * self.win_h <= i32::MAX
        &&& self.cat.wf()
        &&& self.dog.wf()
        &&& self.girl.wf()
    }
}

/// Alarmed characters shake from side to side.
pub open spec fn shaken(mood: Band, frame: int, u: int) -> int {
    if mood == Band::Urgent {
        if frame % 2 == 0 {
            u
        } else {
            -u
        }
    } else {
        0
    }
}

/// Where a character of a scene stands.
pub open spec fn spot_of(c: SnapshotView, frame: int, u: int) -> Spot {
    Spot {
        ox: (device_column(c.x, u) + shaken(c.mood, frame, u)) as i32,
        oy: (BASE_OY * u) as i32,
        u: u as i32,
        mirror: c.dir < 0,
    }
}

/// The blocks of the cat or the dog of a scene.
pub open spec fn pet_blocks(c: SnapshotView, is_cat: bool, frame: int, u: int) -> Seq<Block> {
    pet_plan(
        spot_of(c, frame, u),
        is_cat,
        c.variant,
        anim_of(c.pose, frame, c.blink_ctr),
        c.mood,
    )
}

/// The blocks of the girl of a scene.
pub open spec fn girl_blocks(c: SnapshotView, usage: int, frame: int, u: int) -> Seq<Block> {
    girl_plan(
        spot_of(c, frame, u),
        anim_of(c.pose, frame, c.blink_ctr),
        c.mood,
        usage,
        c.kiss,
        c.kiss_max,
        frame,
    )
}

/// Every block of a scene's characters, in the order in which they are painted.
pub open spec fn scene_blocks(s: SceneView) -> Seq<Block> {
    (if s.kind.has_cat() {
        pet_blocks(s.cat, true, s.frame, s.u)
    } else {
        seq![]
    }) + (if s.kind.has_dog() {
        pet_blocks(s.dog, false, s.frame, s.u)
    } else {
        seq![]
    }) + (if s.kind.has_girl() {
        girl_blocks(s.girl, s.usage, s.frame, s.u)
    } else {
        seq![]
    })
}

proof fn lemma_scale(u: int)
    requires
        1 <= u,
        (WIN_LW * u) * (WIN_LH * u) <= i32::MAX,
    ensures
        u <= 402,
{
    assert(u <= 402) by (nonlinear_arith)
        requires
            1 <= u,
            (184 * u) * (72 * u) <= 0x7fff_ffff,
    ;
}

fn spot_for(c: &Snapshot, frame: u64, u: i32) -> (spot: Spot)
    requires
        c@.wf(),
        1 <= u <= 402,
    ensures
        spot == spot_of(c@, frame as int, u as int),
        spot.wf(),
{
    let shake: i32 = match c.mood {
        Band::Urgent => if frame % 2 == 0 {
            u
        } else {
            -u
        },
        Band::Low | Band::Soft => 0,
    };
    Spot { ox: scale_column(c.x, u) + shake, oy: BASE_OY * u, u, mirror: c.dir < 0 }
}

/// Paints the characters of a scene onto a transparent window.
pub fn draw_scene(s: &Scene, bits: &mut [u32])
    requires
        s@.wf(),
        old(bits)@.len() == s.win_w * s.win_h,
    ensures
        final(bits)@ == painted(
            Seq::new(old(bits)@.len(), |i: int| 0u32),
            s.win_w as int,
            s.win_h as int,
            scene_blocks(s@),
        ),
{
    let ghost w = s.win_w as int;
    let ghost h = s.win_h as int;
    proof {
        lemma_scale(s.u as int);
    }
    clear(bits, 0);
    let ghost blank = bits@;
    let ghost a: Seq<Block> = if s.kind.has_cat() {
        pet_blocks(s.cat@, true, s.frame as int, s.u as int)
    } else {
        seq![]
    };
    let ghost b: Seq<Block> = if s.kind.has_dog() {
        pet_blocks(s.dog@, false, s.frame as int, s.u as int)
    } else {
        seq![]
    };
    let ghost c: Seq<Block> = if s.kind.has_girl() {
        girl_blocks(s.girl@, s.usage as int, s.frame as int, s.u as int)
    } else {
        seq![]
    };
    proof {
        law_painting_goes_on(blank, w, h, a, b);
        law_painting_goes_on(blank, w, h, a + b, c);
        law_painting_keeps_size(blank, w, h, a);
        law_painting_keeps_size(blank, w, h, a + b);
    }
    if s.kind.shows_cat() {
        let spot: Spot = spot_for(&s.cat, s.frame, s.u);
        let anim: Anim = anim_for(s.cat.pose, s.frame, s.cat.blink_ctr);
        draw_character(bits, s.win_w, s.win_h, true, s.cat.variant, &spot, &anim, s.cat.mood);
    }
    assert(bits@ == painted(blank, w, h, a));
    if s.kind.shows_dog() {
        let spot: Spot = spot_for(&s.dog, s.frame, s.u);
        let anim: Anim = anim_for(s.dog.pose, s.frame, s.dog.blink_ctr);
        draw_character(bits, s.win_w, s.win_h, false, s.dog.variant, &spot, &anim, s.dog.mood);
    }
    assert(bits@ == painted(blank, w, h, a + b));
    if s.kind.shows_girl() {
        let spot: Spot = spot_for(&s.girl, s.frame, s.u);
        let anim: Anim = anim_for(s.girl.pose, s.frame, s.girl.blink_ctr);
        proof {
            lemma_reaches(spot, heart_row(7, s.girl.kiss_max - s.girl.kiss));
        }
        draw_girl(
            bits,
            s.win_w,
            s.win_h,
            &spot,
            &anim,
            s.girl.mood,
            s.usage,
            s.girl.kiss,
            s.girl.kiss_max,
            s.frame,
        );
    }
    assert(bits@ == painted(blank, w, h, a + b + c));
}

/// The characters of a scene that have a bubble up, in the order in which the bubbles are drawn.
pub open spec fn speakers(s: SceneView) -> Seq<SnapshotView> {
    (if s.kind.has_cat() && s.cat.bubble is Some {
        seq![s.cat]
    } else {
        seq![]
    }) + (if s.kind.has_dog() && s.dog.bubble is Some {
        seq![s.dog]
    } else {
        seq![]
    }) + (if s.kind.has_girl() && s.girl.bubble is Some {
        seq![s.girl]
    } else {
        seq![]
    })
}

/// The columns that bubbles take up.
pub open spec fn columns(balloons: Seq<BalloonView>, u: int) -> Seq<(i32, i32)> {
    balloons.map_values(|b: BalloonView| (b.bx as i32, (b.bx + BUBBLE_LW * u) as i32))
}

/// The bubbles of speakers, each placed after those before it.
pub open spec fn balloons_of(list: Seq<SnapshotView>, u: int, w: int) -> Seq<BalloonView>
    decreases list.len(),
{
    if list.len() == 0 {
        seq![]
    } else {
        let before = balloons_of(list.drop_last(), u, w);
        let c = list.last();
        let b = c.bubble->0;
        before.push(balloon_for(b.text, c.x, b.ttl, b.max_ttl, u, w, columns(before, u)))
    }
}

/// The views of a list of bubbles.
pub open spec fn balloon_views(list: Seq<Balloon>) -> Seq<BalloonView> {
    list.map_values(|b: Balloon| b@)
}

/// Every bubble of a list can be drawn.
pub open spec fn all_sane(list: Seq<Balloon>, u: int) -> bool {
    forall|i: int| 0 <= i < list.len() ==> sane((#[trigger] list[i])@, u)
}

fn add_balloon(c: &Snapshot, u: i32, w: i32, used: &mut Vec<(i32, i32)>, out: &mut Vec<Balloon>)
    requires
        c@.wf(),
        1 <= u <= 402,
        w == WIN_LW * u,
        old(used)@ == columns(balloon_views(old(out)@), u as int),
        all_in_window(old(used)@, u as int, w as int),
        all_sane(old(out)@, u as int),
    ensures
        balloon_views(final(out)@) == match c@.bubble {
            Some(b) => balloon_views(old(out)@).push(
                balloon_for(
                    b.text,
                    c@.x,
                    b.ttl,
                    b.max_ttl,
                    u as int,
                    w as int,
                    columns(balloon_views(old(out)@), u as int),
                ),
            ),
            None => balloon_views(old(out)@),
        },
        final(used)@ == columns(balloon_views(final(out)@), u as int),
        all_in_window(final(used)@, u as int, w as int),
        all_sane(final(out)@, u as int),
{
    if let Some(b) = &c.bubble {
        let ghost before = balloon_views(out@);
        let balloon: Balloon = place_bubble(b.text.clone(), c.x, b.ttl, b.max_ttl, u, w, used);
        out.push(balloon);
        assert(balloon_views(out@) =~= before.push(balloon@));
        assert(used@ =~= columns(balloon_views(out@), u as int));
    }
}

/// The bubbles of a scene in their places. A later one makes way for those before it.
pub fn scene_balloons(s: &Scene) -> (out: Vec<Balloon>)
    requires
        s@.wf(),
    ensures
        balloon_views(out@) == balloons_of(speakers(s@), s.u as int, s.win_w as int),
        all_sane(out@, s.u as int),
{
    proof {
        lemma_scale(s.u as int);
    }
    let mut out: Vec<Balloon> = Vec::new();
    let mut used: Vec<(i32, i32)> = Vec::new();
    let ghost u = s.u as int;
    let ghost w = s.win_w as int;
    let ghost mut list: Seq<SnapshotView> = seq![];
    assert(balloon_views(out@) =~= balloons_of(list, u, w));
    assert(used@ =~= columns(balloon_views(out@), u));
    if s.kind.shows_cat() {
        add_balloon(&s.cat, s.u, s.win_w, &mut used, &mut out);
        proof {
            if s.cat@.bubble is Some {
                lemma_one_more(list, s.cat@, u, w);
                list = list.push(s.cat@);
            }
        }
    }
    if s.kind.shows_dog() {
        add_balloon(&s.dog, s.u, s.win_w, &mut used, &mut out);
        proof {
            if s.dog@.bubble is Some {
                lemma_one_more(list, s.dog@, u, w);
                list = list.push(s.dog@);
            }
        }
    }
    if s.kind.shows_girl() {
        add_balloon(&s.girl, s.u, s.win_w, &mut used, &mut out);
        proof {
            if s.girl@.bubble is Some {
                lemma_one_more(list, s.girl@, u, w);
                list = list.push(s.girl@);
            }
        }
    }
    assert(list =~= speakers(s@));
    out
}

pub proof fn lemma_one_more(list: Seq<SnapshotView>, c: SnapshotView, u: int, w: int)
    requires
        c.bubble is Some,
    ensures
        balloons_of(list.push(c), u, w) == balloons_of(list, u, w).push(
            balloon_for(
                c.bubble->0.text,
                c.x,
                c.bubble->0.ttl,
                c.bubble->0.max_ttl,
                u,
                w,
                columns(balloons_of(list, u, w), u),
            ),
        ),
{
    assert(list.push(c).drop_last() =~= list);
}

proof fn lemma_placed(list: Seq<SnapshotView>, u: int, w: int)
    requires
        0 <= u,
        w == WIN_LW * u,
        fair(u, w),
        forall|i: int| 0 <= i < list.len() ==> 0 <= (#[trigger] list[i]).x <= MAX_X,
    ensures
        balloons_of(list, u, w).len() == list.len(),
        all_in_window(columns(balloons_of(list, u, w), u), u, w),
        forall|k: int|
            0 <= k < list.len() ==> 0 <= (#[trigger] balloons_of(list, u, w)[k]).bx
                && balloons_of(list, u, w)[k].bx + BUBBLE_LW * u <= w,
    decreases list.len(),
{
    if list.len() > 0 {
        let shorter = list.drop_last();
        assert forall|i: int| 0 <= i < shorter.len() implies 0 <= (#[trigger] shorter[i]).x
            <= MAX_X by {
            assert(shorter[i] == list[i]);
        }
        lemma_placed(shorter, u, w);
        let before = balloons_of(shorter, u, w);
        let c = list.last();
        let b = c.bubble->0;
        law_bubbles_lie_in_the_window(
            b.text,
            c.x,
            b.ttl,
            b.max_ttl,
            u,
            w,
            columns(before, u),
        );
        let all = balloons_of(list, u, w);
        assert forall|i: int| 0 <= i < columns(all, u).len() implies {
            &&& 0 <= (#[trigger] columns(all, u)[i]).0
            &&& columns(all, u)[i].1 == columns(all, u)[i].0 + BUBBLE_LW * u
            &&& columns(all, u)[i].0 <= rightmost(u, w)
        } by {
            if i < before.len() {
                assert(columns(all, u)[i] == columns(before, u)[i]);
            }
        }
    }
}

/// Every bubble of a sound scene lies in the window.
pub proof fn law_scenes_keep_their_bubbles(s: SceneView, k: int)
    requires
        s.wf(),
        0 <= k < speakers(s).len(),
    ensures
        ({
            let b = balloons_of(speakers(s), s.u, s.win_w)[k];
            0 <= b.bx && b.bx + BUBBLE_LW * s.u <= s.win_w
        }),
{
    lemma_scale(s.u);
    lemma_placed(speakers(s), s.u, s.win_w);
}

/// Of two bubbles the second is clear of the first, wherever a bubble fits on either side of it.
pub proof fn law_scenes_keep_bubbles_apart(s: SceneView)
    requires
        s.wf(),
        speakers(s).len() == 2,
    ensures
        ({
            let all = balloons_of(speakers(s), s.u, s.win_w);
            let lo = all[0].bx;
            let hi = lo + BUBBLE_LW * s.u;
            hi <= rightmost(s.u, s.win_w) || lo >= BUBBLE_LW * s.u ==> !overlaps(
                all[1].bx,
                s.u,
                lo,
                hi,
            )
        }),
{
    let (u, w) = (s.u, s.win_w);
    let list = speakers(s);
    lemma_scale(u);
    lemma_placed(list, u, w);
    let one = balloons_of(list.drop_last(), u, w);
    let all = balloons_of(list, u, w);
    lemma_one_more(list.drop_last(), list[1], u, w);
    assert(list.drop_last().push(list[1]) =~= list);
    assert(one.len() == 1) by {
        lemma_placed(list.drop_last(), u, w);
    }
    assert(one[0] == all[0]);
    let lo = all[0].bx as i32;
    let hi = (all[0].bx + BUBBLE_LW * u) as i32;
    assert(columns(one, u) =~= seq![(lo, hi)]);
    law_second_bubble_keeps_clear(centred(list[1].x, u, w), u, w, lo, hi);
}

} // verus!
