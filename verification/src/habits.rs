//! What a character does in a tick, stated in the numbers that can be seen of it.

use crate::critter::blinked;
use crate::critter::bubbled;
use crate::critter::chattered;
use crate::critter::chosen;
use crate::critter::fresh;
use crate::critter::greeted;
use crate::critter::hovered;
use crate::critter::is_over;
use crate::critter::law_bubbles_run_out;
use crate::critter::lemma_aged;
use crate::critter::lemma_chattered;
use crate::critter::lemma_chosen;
use crate::critter::lemma_greeted;
use crate::critter::lemma_picked;
use crate::critter::lemma_roamed;
use crate::critter::lemma_settled;
use crate::critter::picked;
use crate::critter::posed;
use crate::critter::roamed;
use crate::critter::spoke;
use crate::critter::stepped;
use crate::critter::timed;
use crate::critter::{Bubble, BubbleView, Critter, CritterView, Pose};
use crate::language::LanguageId;
use crate::phrases::law_pools_are_varied;
use crate::phrases::lines;
use crate::phrases::pool_slot;
use crate::phrases::{Pool, Species};
use crate::position::device_column;
use crate::position::gap;
use crate::position::is_single;
use crate::position::law_rounding_does_not_pass_singles;
use crate::position::law_rounding_is_to_the_nearest;
use crate::position::law_steps_cover_their_distance;
use crate::rng::xorshift;
use vstd::arithmetic::div_mod::lemma_mod_self_0;
use vstd::arithmetic::div_mod::lemma_small_mod;
use vstd::prelude::*;

verus! {

/// A character's view shows all that there is of it.
pub proof fn law_characters_are_seen_whole(c: Critter, b: Bubble)
    ensures
        c@.species == c.species,
        c@.variant == c.variant,
        c@.x == c.x,
        c@.dir == c.dir,
        c@.moving == c.moving,
        c@.move_ticks == c.move_ticks,
        c@.pose == c.pose,
        c@.clicked_ticks == c.clicked_ticks,
        c@.react_ticks == c.react_ticks,
        c@.hovering == c.hovering,
        c.hover_since is None ==> c@.hover_since is None,
        c.hover_since is Some ==> c@.hover_since == Some(c.hover_since->0 as int),
        c@.blink_ctr == c.blink_ctr,
        c.bubble is None ==> c@.bubble is None,
        c.bubble is Some ==> c@.bubble == Some(c.bubble->0@),
        c@.last_idx == c.last_idx@,
        c@.kiss == c.kiss,
        c@.kiss_max == c.kiss_max,
        b@.text == b.text@,
        b@.ttl == b.ttl,
        b@.max_ttl == b.max_ttl,
        b@.pri == b.pri,
{
}

/// A text is one of the phrases that a character has on an occasion.
pub open spec fn from_pool(text: Seq<char>, lang: LanguageId, species: Species, pool: Pool) -> bool {
    exists|i: int|
        0 <= i < lines(lang, species, pool).len() && text == (#[trigger] lines(
            lang,
            species,
            pool,
        )[i])@
}

/// Whether a device pixel lies on a character: in a square of 32 logical pixels whose left edge is
/// where the character stands and whose top is 38 logical pixels down the window.
pub open spec fn touches(c: CritterView, u: int, x: int, y: int) -> bool {
    &&& device_column(c.x, u) <= x < device_column(c.x, u) + 32 * u
    &&& 38 * u <= y < 70 * u
}

/// A character is touched where it is seen.
pub proof fn law_characters_are_touched_where_they_are(c: CritterView, u: int, x: int, y: int)
    ensures
        is_over(c, u, x, y) == touches(c, u, x, y),
{
    assert(38 * u + 32 * u == 70 * u);
}

/// Whether a character is free to roam in the coming tick: the mouse is off it, and it has neither
/// a hop nor a kiss to finish.
pub open spec fn free(c: CritterView) -> bool {
    !c.hovering && c.clicked_ticks <= 1 && c.kiss <= 1
}

/// A character that picks a phrase for an occasion picks one of its own for that occasion, other
/// than the one that it remembers, and remembers it. It draws once.
pub proof fn law_picks_come_from_the_pool(c: CritterView, rng: u64, lang: LanguageId, pool: Pool)
    requires
        c.sound(),
    ensures
        ({
            let (c1, r1, text) = picked(c, rng, lang, pool);
            let now = c1.last_idx[pool_slot(pool)] as int;
            &&& from_pool(text, lang, c.species, pool)
            &&& 0 <= now < lines(lang, c.species, pool).len()
            &&& text == lines(lang, c.species, pool)[now]@
            &&& now != c.last_idx[pool_slot(pool)]
            &&& r1 == xorshift(rng)
            &&& c1 == CritterView { last_idx: c1.last_idx, ..c }
        }),
{
    law_pools_are_varied(lang, c.species, pool);
    lemma_chosen(
        lines(lang, c.species, pool).len() as int,
        c.last_idx[pool_slot(pool)] as int,
        xorshift(rng),
    );
}

/// Every phrase but the last one can come: it is the one that the draw, divided by how many there
/// are, leaves over. Where that is the last one, the one after it comes instead.
pub proof fn law_every_phrase_can_come(len: int, last: int, drawn: u64)
    requires
        2 <= len,
        drawn <= u32::MAX,
    ensures
        ({
            let i = drawn as int % len;
            &&& i != last ==> chosen(len, last, drawn) == i
            &&& i == last && i + 1 < len ==> chosen(len, last, drawn) == i + 1
            &&& i == last && i + 1 == len ==> chosen(len, last, drawn) == 0
        }),
{
    let i = drawn as int % len;
    assert((drawn as usize) as int == drawn);
    if i + 1 < len {
        lemma_small_mod((i + 1) as nat, len as nat);
    } else {
        lemma_mod_self_0(len);
    }
}

/// Saying something puts a phrase of the occasion up for its full time, unless something more
/// important is up. Nothing else of the character changes but what it remembers.
pub proof fn law_what_is_said_goes_up(
    c: CritterView,
    rng: u64,
    lang: LanguageId,
    pool: Pool,
    ttl: int,
    pri: int,
)
    requires
        c.sound(),
    ensures
        ({
            let (c1, r1) = spoke(c, rng, lang, pool, ttl, pri);
            &&& r1 == xorshift(rng)
            &&& c1 == CritterView { last_idx: c1.last_idx, bubble: c1.bubble, ..c }
            &&& c.bubble is Some && c.bubble->0.pri > pri ==> c1.bubble == c.bubble
            &&& !(c.bubble is Some && c.bubble->0.pri > pri) ==> {
                &&& c1.bubble is Some
                &&& from_pool(c1.bubble->0.text, lang, c.species, pool)
                &&& c1.bubble->0.ttl == ttl
                &&& c1.bubble->0.max_ttl == ttl
                &&& c1.bubble->0.pri == pri
            }
        }),
{
    lemma_picked(c, rng, lang, pool);
    law_picks_come_from_the_pool(c, rng, lang, pool);
}

/// Nothing changes when there is nothing to say.
pub proof fn law_silence_changes_nothing(c: CritterView, ttl: int, pri: int)
    ensures
        bubbled(c, seq![], ttl, pri) == c,
{
}

/// A hop, a startle and a kiss each run down by one in every tick.
pub proof fn law_timers_run_down(
    c: CritterView,
    rng: u64,
    frame: int,
    lang: LanguageId,
    max_x: int,
    speed: int,
)
    requires
        c.sound(),
        c.stands(max_x),
        0 < max_x,
        is_single(max_x as nat),
        0 <= speed,
    ensures
        ({
            let c1 = stepped(c, rng, frame, lang, max_x, speed).0;
            &&& c.clicked_ticks > 0 ==> c1.clicked_ticks == c.clicked_ticks - 1
            &&& c.clicked_ticks == 0 ==> c1.clicked_ticks == 0
            &&& c.react_ticks > 0 ==> c1.react_ticks == c.react_ticks - 1
            &&& c.react_ticks == 0 ==> c1.react_ticks == 0
            &&& c.kiss > 0 ==> c1.kiss == c.kiss - 1
            &&& c.kiss == 0 ==> c1.kiss == 0
        }),
{
    lemma_tick(c, rng, frame, lang, max_x, speed);
}

/// What follows what in a tick.
proof fn lemma_tick(
    c: CritterView,
    rng: u64,
    frame: int,
    lang: LanguageId,
    max_x: int,
    speed: int,
)
    requires
        c.sound(),
        c.stands(max_x),
        0 < max_x,
        is_single(max_x as nat),
        0 <= speed,
    ensures
        ({
            let c0 = timed(c);
            let (a, r1) = greeted(c0, rng, frame, lang);
            let (b, r2) = roamed(a, r1, max_x, speed);
            let c1 = stepped(c, rng, frame, lang, max_x, speed).0;
            &&& a == CritterView { bubble: a.bubble, last_idx: a.last_idx, ..c0 }
            &&& a.sound()
            &&& b == CritterView {
                x: b.x,
                dir: b.dir,
                moving: b.moving,
                move_ticks: b.move_ticks,
                ..a
            }
            &&& c1 == CritterView {
                blink_ctr: c1.blink_ctr,
                pose: c1.pose,
                bubble: c1.bubble,
                last_idx: c1.last_idx,
                ..b
            }
        }),
{
    let c0 = timed(c);
    lemma_greeted(c0, rng, frame, lang);
    let (a, r1) = greeted(c0, rng, frame, lang);
    lemma_roamed(a, r1, max_x, speed);
    let (b, r2) = roamed(a, r1, max_x, speed);
    lemma_settled(b, r2, lang);
}

/// A character's pose after a tick follows from what it is about: a hop shows over the mouse, that
/// over a startle, and that over walking or standing.
pub proof fn law_poses_show_what_matters_most(
    c: CritterView,
    rng: u64,
    frame: int,
    lang: LanguageId,
    max_x: int,
    speed: int,
)
    requires
        c.sound(),
        c.stands(max_x),
        0 < max_x,
        is_single(max_x as nat),
        0 <= speed,
    ensures
        ({
            let c1 = stepped(c, rng, frame, lang, max_x, speed).0;
            &&& c1.pose == Pose::Clicked <==> c1.clicked_ticks > 0
            &&& c1.pose == Pose::Hover <==> c1.clicked_ticks == 0 && c1.hovering
            &&& c1.pose == Pose::React <==> c1.clicked_ticks == 0 && !c1.hovering && c1.react_ticks
                > 0
            &&& c1.pose == Pose::Walk <==> c1.clicked_ticks == 0 && !c1.hovering && c1.react_ticks
                == 0 && c1.moving
            &&& c1.pose == Pose::Idle <==> c1.clicked_ticks == 0 && !c1.hovering && c1.react_ticks
                == 0 && !c1.moving
        }),
{
    lemma_tick(c, rng, frame, lang, max_x, speed);
    lemma_pose(c, rng, frame, lang, max_x, speed);
}

proof fn lemma_pose(
    c: CritterView,
    rng: u64,
    frame: int,
    lang: LanguageId,
    max_x: int,
    speed: int,
)
    requires
        c.sound(),
        c.stands(max_x),
        0 < max_x,
        is_single(max_x as nat),
        0 <= speed,
    ensures
        ({
            let c1 = stepped(c, rng, frame, lang, max_x, speed).0;
            c1.pose == posed(c1)
        }),
{
    let c0 = timed(c);
    lemma_greeted(c0, rng, frame, lang);
    let (a, r1) = greeted(c0, rng, frame, lang);
    lemma_roamed(a, r1, max_x, speed);
    let (b, r2) = roamed(a, r1, max_x, speed);
    let (d, r3) = blinked(b, r2);
    let e = CritterView { pose: posed(d), ..d };
    lemma_chattered(e, r3, lang);
    lemma_aged(chattered(e, r3, lang).0);
}

/// The pose that is told of a character before its next tick.
pub proof fn law_poses_are_told_the_same_way(c: CritterView)
    requires
        c.sound(),
    ensures
        posed(c) == Pose::Clicked <==> c.clicked_ticks > 0,
        posed(c) == Pose::Hover <==> c.clicked_ticks == 0 && c.hovering,
        posed(c) == Pose::React <==> c.clicked_ticks == 0 && !c.hovering && c.react_ticks > 0,
        posed(c) == Pose::Walk <==> c.clicked_ticks == 0 && !c.hovering && c.react_ticks == 0
            && c.moving,
        posed(c) == Pose::Idle <==> c.clicked_ticks == 0 && !c.hovering && c.react_ticks == 0
            && !c.moving,
{
}

/// A character that walks, and is neither held up nor at the end of its walk, walks on: as far as
/// its speed says, to the nearest position that can be held, facing as before.
pub proof fn law_walkers_walk_on(
    c: CritterView,
    rng: u64,
    frame: int,
    lang: LanguageId,
    max_x: int,
    speed: int,
    m: nat,
)
    requires
        c.sound(),
        c.stands(max_x),
        0 < max_x,
        is_single(max_x as nat),
        0 <= speed,
        free(c),
        c.moving,
        c.move_ticks > 0,
        is_single(m),
    ensures
        ({
            let c1 = stepped(c, rng, frame, lang, max_x, speed).0;
            let raw = c.x + c.dir * speed;
            &&& c1.moving
            &&& c1.move_ticks == c.move_ticks - 1
            &&& raw <= 0 ==> c1.x == 0 && c1.dir == 1
            &&& raw >= max_x ==> c1.x == max_x && c1.dir == -1
            &&& 0 < raw < max_x ==> gap(c1.x, raw) <= gap(m as int, raw)
            &&& 0 < raw < max_x && c1.x < max_x ==> c1.dir == c.dir
        }),
{
    lemma_tick(c, rng, frame, lang, max_x, speed);
    let raw = c.x + c.dir * speed;
    if raw > 0 {
        law_steps_cover_their_distance(c.x, c.dir, max_x, speed, m);
        law_rounding_is_to_the_nearest(raw as nat, m);
        law_rounding_does_not_pass_singles(raw as nat, max_x as nat);
    }
}

/// A character that stands, and has not stood long enough, stands on.
pub proof fn law_standing_characters_stand_on(
    c: CritterView,
    rng: u64,
    frame: int,
    lang: LanguageId,
    max_x: int,
    speed: int,
)
    requires
        c.sound(),
        c.stands(max_x),
        0 < max_x,
        is_single(max_x as nat),
        0 <= speed,
        free(c),
        !c.moving,
        c.move_ticks > 0,
    ensures
        ({
            let c1 = stepped(c, rng, frame, lang, max_x, speed).0;
            &&& !c1.moving
            &&& c1.move_ticks == c.move_ticks - 1
            &&& c1.x == c.x
            &&& c1.dir == c.dir
        }),
{
    lemma_tick(c, rng, frame, lang, max_x, speed);
}

/// At the end of a walk a character stops where it is, for 20 to 49 ticks.
pub proof fn law_walks_end_in_a_rest(
    c: CritterView,
    rng: u64,
    frame: int,
    lang: LanguageId,
    max_x: int,
    speed: int,
)
    requires
        c.sound(),
        c.stands(max_x),
        0 < max_x,
        is_single(max_x as nat),
        0 <= speed,
        free(c),
        c.moving,
        c.move_ticks == 0,
    ensures
        ({
            let c1 = stepped(c, rng, frame, lang, max_x, speed).0;
            &&& !c1.moving
            &&& c1.move_ticks + 1 == 20 + xorshift(rng) as int % 30
            &&& c1.x == c.x
            &&& c1.dir == c.dir
        }),
{
    lemma_tick(c, rng, frame, lang, max_x, speed);
}

/// At the end of a rest a character sets off, for 40 to 99 ticks, and as a coin falls turns round
/// first. Away from the ends of its range it is off at once, as far as its speed says.
pub proof fn law_rests_end_in_a_walk(
    c: CritterView,
    rng: u64,
    frame: int,
    lang: LanguageId,
    max_x: int,
    speed: int,
    m: nat,
)
    requires
        c.sound(),
        c.stands(max_x),
        0 < max_x,
        is_single(max_x as nat),
        0 <= speed,
        free(c),
        !c.moving,
        c.move_ticks == 0,
        is_single(m),
    ensures
        ({
            let c1 = stepped(c, rng, frame, lang, max_x, speed).0;
            let coin = xorshift(xorshift(rng));
            let dir = if coin % 2 == 0 {
                -c.dir
            } else {
                c.dir
            };
            let raw = c.x + dir * speed;
            &&& c1.moving
            &&& c1.move_ticks + 1 == 40 + xorshift(rng) as int % 60
            &&& raw <= 0 ==> c1.x == 0 && c1.dir == 1
            &&& raw >= max_x ==> c1.x == max_x && c1.dir == -1
            &&& 0 < raw < max_x ==> gap(c1.x, raw) <= gap(m as int, raw)
            &&& 0 < raw < max_x && c1.x < max_x ==> c1.dir == dir
        }),
{
    lemma_tick(c, rng, frame, lang, max_x, speed);
    let coin = xorshift(xorshift(rng));
    let dir = if coin % 2 == 0 {
        -c.dir
    } else {
        c.dir
    };
    let raw = c.x + dir * speed;
    if raw > 0 {
        law_steps_cover_their_distance(c.x, dir, max_x, speed, m);
        law_rounding_is_to_the_nearest(raw as nat, m);
        law_rounding_does_not_pass_singles(raw as nat, max_x as nat);
    }
}

/// A character that is held up does not move, and its walk or rest is not used up.
pub proof fn law_held_up_characters_wait(
    c: CritterView,
    rng: u64,
    frame: int,
    lang: LanguageId,
    max_x: int,
    speed: int,
)
    requires
        c.sound(),
        c.stands(max_x),
        0 < max_x,
        is_single(max_x as nat),
        0 <= speed,
        !free(c),
    ensures
        ({
            let c1 = stepped(c, rng, frame, lang, max_x, speed).0;
            c1.x == c.x && c1.dir == c.dir && c1.moving == c.moving && c1.move_ticks == c.move_ticks
        }),
{
    lemma_tick(c, rng, frame, lang, max_x, speed);
}

/// The countdown to a blink runs down by one, and at its end starts anew from 30 to 69: as the draw
/// falls, which is the first of the tick where nothing else is left to chance in it.
pub proof fn law_blinks_come_again(
    c: CritterView,
    rng: u64,
    frame: int,
    lang: LanguageId,
    max_x: int,
    speed: int,
)
    requires
        c.sound(),
        c.stands(max_x),
        0 < max_x,
        is_single(max_x as nat),
        0 <= speed,
    ensures
        ({
            let c1 = stepped(c, rng, frame, lang, max_x, speed).0;
            &&& c.blink_ctr > 0 ==> c1.blink_ctr == c.blink_ctr - 1
            &&& c.blink_ctr == 0 ==> 29 <= c1.blink_ctr <= 68
            &&& c.blink_ctr == 0 && c.move_ticks > 0 && (c.hovering ==> frame != c.hover_since->0
                + 12) ==> c1.blink_ctr == 29 + xorshift(rng) as int % 40
        }),
{
    lemma_tick(c, rng, frame, lang, max_x, speed);
    lemma_blink(c, rng, frame, lang, max_x, speed);
}

proof fn lemma_blink(
    c: CritterView,
    rng: u64,
    frame: int,
    lang: LanguageId,
    max_x: int,
    speed: int,
)
    requires
        c.sound(),
        c.stands(max_x),
        0 < max_x,
        is_single(max_x as nat),
        0 <= speed,
    ensures
        ({
            let (a, r1) = greeted(timed(c), rng, frame, lang);
            let (b, r2) = roamed(a, r1, max_x, speed);
            stepped(c, rng, frame, lang, max_x, speed).0.blink_ctr == blinked(
                b,
                r2,
            ).0.blink_ctr
        }),
{
    let c0 = timed(c);
    lemma_greeted(c0, rng, frame, lang);
    let (a, r1) = greeted(c0, rng, frame, lang);
    lemma_roamed(a, r1, max_x, speed);
    let (b, r2) = roamed(a, r1, max_x, speed);
    let (d, r3) = blinked(b, r2);
    let e = CritterView { pose: posed(d), ..d };
    lemma_chattered(e, r3, lang);
    lemma_aged(chattered(e, r3, lang).0);
}

/// What a character says stays up while it lasts, a tick less of it in every tick, and then is gone.
/// Only the mouse, resting on it for 12 ticks, can make it say something else in a tick.
pub proof fn law_what_is_said_runs_out(
    c: CritterView,
    rng: u64,
    frame: int,
    lang: LanguageId,
    max_x: int,
    speed: int,
)
    requires
        c.sound(),
        c.stands(max_x),
        0 < max_x,
        is_single(max_x as nat),
        0 <= speed,
        c.bubble is Some,
        c.hovering ==> frame != c.hover_since->0 + 12,
    ensures
        ({
            let c1 = stepped(c, rng, frame, lang, max_x, speed).0;
            let b = c.bubble->0;
            &&& b.ttl == 1 ==> c1.bubble is None
            &&& b.ttl > 1 ==> c1.bubble == Some(
                BubbleView { text: b.text, ttl: b.ttl - 1, max_ttl: b.max_ttl, pri: b.pri },
            )
        }),
{
    law_bubbles_run_out(c, rng, frame, lang, max_x, speed);
}

/// Once the mouse has rested on a character for 12 ticks the character makes a remark about it,
/// unless something more important is up. It stays up for 36 ticks, this one counted.
pub proof fn law_the_mouse_draws_a_remark(
    c: CritterView,
    rng: u64,
    frame: int,
    lang: LanguageId,
    max_x: int,
    speed: int,
)
    requires
        c.sound(),
        c.stands(max_x),
        0 < max_x,
        is_single(max_x as nat),
        0 <= speed,
        c.hovering,
        frame == c.hover_since->0 + 12,
        c.bubble is Some ==> c.bubble->0.pri <= 1,
    ensures
        ({
            let c1 = stepped(c, rng, frame, lang, max_x, speed).0;
            &&& c1.bubble is Some
            &&& from_pool(c1.bubble->0.text, lang, c.species, Pool::Hover)
            &&& c1.bubble->0.ttl == 35
            &&& c1.bubble->0.max_ttl == 36
            &&& c1.bubble->0.pri == 1
        }),
{
    let c0 = timed(c);
    law_what_is_said_goes_up(c0, rng, lang, Pool::Hover, 36, 1);
    lemma_greeted(c0, rng, frame, lang);
    let (a, r1) = greeted(c0, rng, frame, lang);
    lemma_roamed(a, r1, max_x, speed);
    let (b, r2) = roamed(a, r1, max_x, speed);
    assert(b.bubble == a.bubble);
    assert(b.bubble is Some && b.bubble->0.ttl == 36);
}

/// A character under the mouse, or on its feet, or in the middle of a hop or a startle, says nothing
/// of its own accord.
pub proof fn law_busy_characters_keep_silent(
    c: CritterView,
    rng: u64,
    frame: int,
    lang: LanguageId,
    max_x: int,
    speed: int,
)
    requires
        c.sound(),
        c.stands(max_x),
        0 < max_x,
        is_single(max_x as nat),
        0 <= speed,
        c.bubble is None,
        c.hovering ==> frame != c.hover_since->0 + 12,
    ensures
        ({
            let c1 = stepped(c, rng, frame, lang, max_x, speed).0;
            c1.moving || c1.hovering || c1.clicked_ticks > 0 || c1.react_ticks > 0
                ==> c1.bubble is None
        }),
{
    lemma_tick(c, rng, frame, lang, max_x, speed);
}

/// A character that stands about in silence makes an idle remark one time in 220, as the draw
/// falls. It stays up for 30 ticks, this one counted.
pub proof fn law_idle_characters_chatter(
    c: CritterView,
    rng: u64,
    frame: int,
    lang: LanguageId,
    max_x: int,
    speed: int,
)
    requires
        c.sound(),
        c.stands(max_x),
        0 < max_x,
        is_single(max_x as nat),
        0 <= speed,
        free(c),
        !c.moving,
        c.move_ticks > 0,
        c.react_ticks <= 1,
        c.blink_ctr > 0,
        c.bubble is None,
    ensures
        ({
            let c1 = stepped(c, rng, frame, lang, max_x, speed).0;
            &&& xorshift(rng) % 220 != 0 ==> c1.bubble is None
            &&& xorshift(rng) % 220 == 0 ==> {
                &&& c1.bubble is Some
                &&& from_pool(c1.bubble->0.text, lang, c.species, Pool::Idle)
                &&& c1.bubble->0.ttl == 29
                &&& c1.bubble->0.max_ttl == 30
                &&& c1.bubble->0.pri == 0
            }
        }),
{
    let c0 = timed(c);
    let (b, r2) = roamed(c0, rng, max_x, speed);
    assert(r2 == rng);
    let (d, r3) = blinked(b, r2);
    assert(r3 == rng);
    let e = CritterView { pose: posed(d), ..d };
    assert(e.pose == Pose::Idle);
    assert(e.sound()) by {
        lemma_roamed(c0, rng, max_x, speed);
    }
    law_what_is_said_goes_up(e, xorshift(rng), lang, Pool::Idle, 30, 0);
}

/// A new character walks, says nothing, remembers nothing, and stands and faces as it was told to.
pub proof fn law_new_characters_start_out_walking(species: Species, variant: int, x: int, dir: int)
    ensures
        ({
            let c = fresh(species, variant, x, dir);
            &&& c.species == species
            &&& c.variant == variant
            &&& c.x == x
            &&& c.dir == dir
            &&& c.moving
            &&& c.pose == Pose::Walk
            &&& c.move_ticks == 0 && c.clicked_ticks == 0 && c.react_ticks == 0
            &&& !c.hovering
            &&& c.hover_since is None
            &&& c.blink_ctr == 0 && c.kiss == 0 && c.kiss_max == 0
            &&& c.bubble is None
            &&& c.last_idx.len() == 7
            &&& forall|i: int| 0 <= i < 7 ==> #[trigger] c.last_idx[i] == -1
        }),
{
}

/// A character knows whether the mouse is on it, and since when: from the frame in which it came.
pub proof fn law_characters_know_the_mouse(c: CritterView, over: bool, frame: int)
    requires
        c.sound(),
    ensures
        ({
            let c1 = hovered(c, over, frame);
            &&& c1.hovering == over
            &&& !over ==> c1.hover_since is None
            &&& over && !c.hovering ==> c1.hover_since == Some(frame)
            &&& over && c.hovering ==> c1.hover_since == c.hover_since
            &&& c1 == CritterView { hovering: c1.hovering, hover_since: c1.hover_since, ..c }
        }),
{
}

} // verus!
