//! One character: how it roams, what pose it strikes, and what it says.

use crate::language::LanguageId;
use crate::phrases::law_pools_are_varied;
use crate::phrases::lines;
use crate::phrases::message_pool;
use crate::phrases::pool_index;
use crate::phrases::pool_slot;
use crate::phrases::Pool;
use crate::phrases::Species;
use crate::phrases::POOL_COUNT;
use crate::position::device_column;
use crate::position::glide;
use crate::position::glided;
use crate::position::is_single;
use crate::position::law_steps_stay_in_range;
use crate::position::scale_column;
use crate::position::BASE_OY;
use crate::position::FAR;
use crate::position::MAX_X;
use crate::position::SPRITE;
use crate::position::WIN_LW;
use crate::rng::rng_next;
use crate::rng::xorshift;
use crate::rng::Rng;
use vstd::arithmetic::div_mod::lemma_mod_self_0;
use vstd::arithmetic::div_mod::lemma_small_mod;
use vstd::prelude::*;

verus! {

// Durations, in animation ticks.
pub const HOVER_DELAY_TICKS: u64 = 12;

pub const CLICK_BUBBLE_TICKS: u32 = 31;

pub const CLICKED_POSE_TICKS: u32 = 6;

pub const KISS_TICKS: u32 = 26;

pub const REACT_TICKS: u32 = 12;

pub const HOVER_BUBBLE_TICKS: u32 = 36;

pub const THRESHOLD_BUBBLE_TICKS: u32 = 50;

pub const IDLE_BUBBLE_TICKS: u32 = 30;

// Bubble priorities: a higher one wins, and a click does not override a threshold.
pub const PRI_IDLE: u8 = 0;

pub const PRI_HOVER: u8 = 1;

pub const PRI_CLICK: u8 = 2;

pub const PRI_THRESHOLD: u8 = 3;

/// What a character is seen doing.
#[derive(Clone, Copy, Debug, PartialEq, Eq, Structural)]
pub enum Pose {
    Idle,
    Walk,
    React,
    Hover,
    Clicked,
}

/// A speech bubble, with the ticks that it has left and had at first.
#[derive(Debug)]
pub struct Bubble {
    pub text: String,
    pub ttl: u32,
    pub max_ttl: u32,
    pub pri: u8,
}

pub ghost struct BubbleView {
    pub text: Seq<char>,
    pub ttl: int,
    pub max_ttl: int,
    pub pri: int,
}

impl View for Bubble {
    type V = BubbleView;

    open spec fn view(&self) -> BubbleView {
        BubbleView {
            text: self.text@,
            ttl: self.ttl as int,
            max_ttl: self.max_ttl as int,
            pri: self.pri as int,
        }
    }
}

/// A character.
#[derive(Debug)]
pub struct Critter {
    pub species: Species,
    /// Which of two coats it wears.
    pub variant: u8,
    /// Where its sprite's left edge is, in fractions of a logical pixel.
    pub x: i64,
    /// 1 when it faces right, -1 when it faces left.
    pub dir: i32,
    pub moving: bool,
    pub move_ticks: u32,
    pub pose: Pose,
    pub clicked_ticks: u32,
    pub react_ticks: u32,
    pub hovering: bool,
    pub hover_since: Option<u64>,
    pub blink_ctr: u32,
    pub bubble: Option<Bubble>,
    /// The phrase said last out of each pool, or -1.
    pub last_idx: [i32; POOL_COUNT],
    /// The ticks left of a kiss, which only the girl blows.
    pub kiss: u32,
    pub kiss_max: u32,
}

pub ghost struct CritterView {
    pub species: Species,
    pub variant: int,
    pub x: int,
    pub dir: int,
    pub moving: bool,
    pub move_ticks: int,
    pub pose: Pose,
    pub clicked_ticks: int,
    pub react_ticks: int,
    pub hovering: bool,
    pub hover_since: Option<int>,
    pub blink_ctr: int,
    pub bubble: Option<BubbleView>,
    pub last_idx: Seq<i32>,
    pub kiss: int,
    pub kiss_max: int,
}

impl View for Critter {
    type V = CritterView;

    open spec fn view(&self) -> CritterView {
        CritterView {
            species: self.species,
            variant: self.variant as int,
            x: self.x as int,
            dir: self.dir as int,
            moving: self.moving,
            move_ticks: self.move_ticks as int,
            pose: self.pose,
            clicked_ticks: self.clicked_ticks as int,
            react_ticks: self.react_ticks as int,
            hovering: self.hovering,
            hover_since: match self.hover_since {
                Some(f) => Some(f as int),
                None => None,
            },
            blink_ctr: self.blink_ctr as int,
            bubble: match self.bubble {
                Some(b) => Some(b@),
                None => None,
            },
            last_idx: self.last_idx@,
            kiss: self.kiss as int,
            kiss_max: self.kiss_max as int,
        }
    }
}

impl CritterView {
    /// What holds of a character wherever it stands.
    pub open spec fn sound(self) -> bool {
        &&& 0 <= self.variant <= 1
        &&& self.dir == 1 || self.dir == -1
        &&& 0 <= self.move_ticks < 100
        &&& 0 <= self.clicked_ticks <= CLICKED_POSE_TICKS
        &&& 0 <= self.react_ticks <= REACT_TICKS
        &&& self.hovering <==> self.hover_since is Some
        &&& 0 <= self.blink_ctr < 70
        &&& self.bubble matches Some(b) ==> {
            &&& b.text.len() > 0
            &&& 0 < b.ttl <= b.max_ttl <= THRESHOLD_BUBBLE_TICKS
            &&& PRI_IDLE <= b.pri <= PRI_THRESHOLD
        }
        &&& self.last_idx.len() == POOL_COUNT
        &&& forall|i: int| 0 <= i < POOL_COUNT ==> -1 <= #[trigger] self.last_idx[i] < 5
        &&& 0 <= self.kiss <= self.kiss_max <= KISS_TICKS
    }

    /// It stands in a range that ends at `max_x`, where a single precision number can say.
    pub open spec fn stands(self, max_x: int) -> bool {
        0 <= self.x <= max_x && is_single(self.x as nat)
    }

    /// What holds of a character of the window at all times.
    pub open spec fn wf(self) -> bool {
        self.sound() && self.stands(MAX_X as int)
    }
}

/// A character as it is made: walking, silent, with nothing said yet.
pub open spec fn fresh(species: Species, variant: int, x: int, dir: int) -> CritterView {
    CritterView {
        species,
        variant,
        x,
        dir,
        moving: true,
        move_ticks: 0,
        pose: Pose::Walk,
        clicked_ticks: 0,
        react_ticks: 0,
        hovering: false,
        hover_since: None,
        blink_ctr: 0,
        bubble: None,
        last_idx: Seq::new(POOL_COUNT as nat, |i: int| -1i32),
        kiss: 0,
        kiss_max: 0,
    }
}

/// The pose that a character's timers and the mouse call for. A click shows over hovering, hovering
/// over a startle, and that over walking.
pub open spec fn posed(c: CritterView) -> Pose {
    if c.clicked_ticks > 0 {
        Pose::Clicked
    } else if c.hovering {
        Pose::Hover
    } else if c.react_ticks > 0 {
        Pose::React
    } else if c.moving {
        Pose::Walk
    } else {
        Pose::Idle
    }
}

impl Critter {
    pub fn new(species: Species, variant: u8, x: i64, dir: i32) -> (c: Critter)
        ensures
            c@ == fresh(species, variant as int, x as int, dir as int),
    {
        let c = Critter {
            species,
            variant,
            x,
            dir,
            moving: true,
            move_ticks: 0,
            pose: Pose::Walk,
            clicked_ticks: 0,
            react_ticks: 0,
            hovering: false,
            hover_since: None,
            blink_ctr: 0,
            bubble: None,
            last_idx: [-1; POOL_COUNT],
            kiss: 0,
            kiss_max: 0,
        };
        assert(c@.last_idx =~= Seq::new(POOL_COUNT as nat, |i: int| -1i32));
        c
    }

    pub fn pose_now(&self) -> (pose: Pose)
        ensures
            pose == posed(self@),
    {
        if self.clicked_ticks > 0 {
            Pose::Clicked
        } else if self.hovering {
            Pose::Hover
        } else if self.react_ticks > 0 {
            Pose::React
        } else if self.moving {
            Pose::Walk
        } else {
            Pose::Idle
        }
    }
}

/// Which of `len` phrases a draw, cut to a machine word, picks when `last` was said before: never
/// that one again.
pub open spec fn chosen(len: int, last: int, drawn: u64) -> int {
    let i = (drawn as usize) as int % len;
    if i == last {
        (i + 1) % len
    } else {
        i
    }
}

/// What a character picks out of a pool: the character, which remembers the pick, the generator
/// after it, and the phrase.
pub open spec fn picked(c: CritterView, rng: u64, lang: LanguageId, pool: Pool) -> (
    CritterView,
    u64,
    Seq<char>,
) {
    let all = lines(lang, c.species, pool);
    if all.len() == 0 {
        (c, rng, Seq::empty())
    } else if all.len() == 1 {
        (c, rng, all[0]@)
    } else {
        let drawn = xorshift(rng);
        let slot = pool_slot(pool);
        let i = chosen(all.len() as int, c.last_idx[slot] as int, drawn);
        (CritterView { last_idx: c.last_idx.update(slot, i as i32), ..c }, drawn, all[i]@)
    }
}

/// A character after it was given a bubble: the bubble is refused while one of higher priority is
/// still up, and when it has no text.
pub open spec fn bubbled(c: CritterView, text: Seq<char>, ttl: int, pri: int) -> CritterView {
    let outranked = c.bubble matches Some(b) && b.ttl > 0 && b.pri > pri;
    if outranked || text.len() == 0 {
        c
    } else {
        CritterView { bubble: Some(BubbleView { text, ttl, max_ttl: ttl, pri }), ..c }
    }
}

/// A character after it picked a phrase and said it.
pub open spec fn spoke(
    c: CritterView,
    rng: u64,
    lang: LanguageId,
    pool: Pool,
    ttl: int,
    pri: int,
) -> (CritterView, u64) {
    let (c1, r1, text) = picked(c, rng, lang, pool);
    (bubbled(c1, text, ttl, pri), r1)
}

/// Picks a phrase at random, but not the one picked from the same pool before.
pub fn pick_message(critter: &mut Critter, rng: &mut Rng, lang: LanguageId, pool: Pool) -> (text:
    String)
    ensures
        (final(critter)@, final(rng)@, text@) == picked(old(critter)@, old(rng)@, lang, pool),
{
    proof {
        law_pools_are_varied(lang, critter.species, pool);
    }
    let msgs: &'static [&'static str] = message_pool(lang, critter.species, pool);
    if msgs.len() == 0 {
        return String::new();
    }
    if msgs.len() == 1 {
        return msgs[0].to_string();
    }
    let slot: usize = pool_index(pool);
    let last: i32 = critter.last_idx[slot];
    let n: usize = msgs.len();
    let drawn: u64 = rng_next(rng);
    let mut idx: i32 = (drawn as usize % n) as i32;
    if idx == last {
        idx = ((idx as usize + 1) % n) as i32;
    }
    critter.last_idx[slot] = idx;
    let text: String = msgs[idx as usize].to_string();
    text
}

pub fn set_bubble(critter: &mut Critter, text: String, ttl: u32, pri: u8)
    ensures
        final(critter)@ == bubbled(old(critter)@, text@, ttl as int, pri as int),
{
    if let Some(b) = &critter.bubble {
        if b.ttl > 0 && b.pri > pri {
            return;
        }
    }
    if text.as_str().is_empty() {
        return;
    }
    critter.bubble = Some(Bubble { text, ttl, max_ttl: ttl, pri });
}

/// Picks a phrase and puts it up as a bubble.
pub fn say(critter: &mut Critter, rng: &mut Rng, lang: LanguageId, pool: Pool, ttl: u32, pri: u8)
    ensures
        (final(critter)@, final(rng)@) == spoke(
            old(critter)@,
            old(rng)@,
            lang,
            pool,
            ttl as int,
            pri as int,
        ),
{
    let text: String = pick_message(critter, rng, lang, pool);
    set_bubble(critter, text, ttl, pri);
}

/// Ticks from `start` to `frame`, none if `frame` is the earlier.
pub open spec fn ticks_since(frame: int, start: int) -> int {
    if frame >= start {
        frame - start
    } else {
        0
    }
}

/// `n` counted down by one, to zero at the lowest.
pub open spec fn counted_down(n: int) -> int {
    if n > 0 {
        n - 1
    } else {
        0
    }
}

/// A tick of the timers of passing poses.
pub open spec fn timed(c: CritterView) -> CritterView {
    CritterView {
        clicked_ticks: counted_down(c.clicked_ticks),
        react_ticks: counted_down(c.react_ticks),
        kiss: counted_down(c.kiss),
        ..c
    }
}

/// The remark that a character makes once the mouse has rested on it for the dwell delay.
pub open spec fn greeted(c: CritterView, rng: u64, frame: int, lang: LanguageId) -> (
    CritterView,
    u64,
) {
    if c.hovering && c.hover_since is Some && ticks_since(frame, c.hover_since->0)
        == HOVER_DELAY_TICKS {
        spoke(c, rng, lang, Pool::Hover, HOVER_BUBBLE_TICKS as int, PRI_HOVER as int)
    } else {
        (c, rng)
    }
}

/// Whether a character stays where it is: under the mouse, just clicked, or blowing a kiss.
pub open spec fn frozen(c: CritterView) -> bool {
    c.hovering || c.clicked_ticks > 0 || c.kiss > 0
}

/// A character that changes between walking and standing: for how long is drawn, and on setting
/// off also whether it turns round.
pub open spec fn switched(c: CritterView, rng: u64) -> (CritterView, u64) {
    let drawn = xorshift(rng);
    if c.moving {
        (CritterView { moving: false, move_ticks: 20 + drawn as int % 30, ..c }, drawn)
    } else {
        let coin = xorshift(drawn);
        (
            CritterView {
                moving: true,
                move_ticks: 40 + drawn as int % 60,
                dir: if coin % 2 == 0 {
                    -c.dir
                } else {
                    c.dir
                },
                ..c
            },
            coin,
        )
    }
}

/// A tick of roaming in a range that ends at `max_x`.
pub open spec fn roamed(c: CritterView, rng: u64, max_x: int, speed: int) -> (CritterView, u64) {
    if frozen(c) {
        (c, rng)
    } else {
        let (c1, r1) = if c.move_ticks == 0 {
            switched(c, rng)
        } else {
            (c, rng)
        };
        let (x, dir) = if c1.moving {
            glided(c1.x, c1.dir, max_x, speed)
        } else {
            (c1.x, c1.dir)
        };
        (CritterView { move_ticks: c1.move_ticks - 1, x, dir, ..c1 }, r1)
    }
}

/// A tick of the countdown to the next blink.
pub open spec fn blinked(c: CritterView, rng: u64) -> (CritterView, u64) {
    if c.blink_ctr == 0 {
        let drawn = xorshift(rng);
        (CritterView { blink_ctr: 29 + drawn as int % 40, ..c }, drawn)
    } else {
        (CritterView { blink_ctr: c.blink_ctr - 1, ..c }, rng)
    }
}

/// The remark that a character standing still and silent makes now and then.
pub open spec fn chattered(c: CritterView, rng: u64, lang: LanguageId) -> (CritterView, u64) {
    if c.pose == Pose::Idle && c.bubble is None {
        let drawn = xorshift(rng);
        if drawn % 220 == 0 {
            spoke(c, drawn, lang, Pool::Idle, IDLE_BUBBLE_TICKS as int, PRI_IDLE as int)
        } else {
            (c, drawn)
        }
    } else {
        (c, rng)
    }
}

/// A tick of the bubble's life: at its end the bubble is gone.
pub open spec fn aged(c: CritterView) -> CritterView {
    match c.bubble {
        Some(b) => CritterView {
            bubble: if b.ttl <= 1 {
                None
            } else {
                Some(BubbleView { ttl: b.ttl - 1, ..b })
            },
            ..c
        },
        None => c,
    }
}

/// What follows a tick of roaming: the blink, the pose, the remark and the bubble's age.
pub open spec fn settled(c: CritterView, rng: u64, lang: LanguageId) -> (CritterView, u64) {
    let (c1, r1) = blinked(c, rng);
    let (c2, r2) = chattered(CritterView { pose: posed(c1), ..c1 }, r1, lang);
    (aged(c2), r2)
}

/// A character and the generator after one tick.
pub open spec fn stepped(
    c: CritterView,
    rng: u64,
    frame: int,
    lang: LanguageId,
    max_x: int,
    speed: int,
) -> (CritterView, u64) {
    let (c1, r1) = greeted(timed(c), rng, frame, lang);
    let (c2, r2) = roamed(c1, r1, max_x, speed);
    settled(c2, r2, lang)
}

fn run_timers(c: &mut Critter)
    ensures
        final(c)@ == timed(old(c)@),
{
    if c.clicked_ticks > 0 {
        c.clicked_ticks = c.clicked_ticks - 1;
    }
    if c.react_ticks > 0 {
        c.react_ticks = c.react_ticks - 1;
    }
    if c.kiss > 0 {
        c.kiss = c.kiss - 1;
    }
}

fn greet(c: &mut Critter, rng: &mut Rng, frame: u64, lang: LanguageId)
    ensures
        (final(c)@, final(rng)@) == greeted(old(c)@, old(rng)@, frame as int, lang),
{
    if c.hovering {
        if let Some(since) = c.hover_since {
            if frame.saturating_sub(since) == HOVER_DELAY_TICKS {
                say(c, rng, lang, Pool::Hover, HOVER_BUBBLE_TICKS, PRI_HOVER);
            }
        }
    }
}

fn roam(c: &mut Critter, rng: &mut Rng, max_x: i64, speed: i64)
    requires
        0 <= old(c).x <= max_x <= FAR,
        old(c).dir == 1 || old(c).dir == -1,
        0 <= speed <= FAR,
    ensures
        (final(c)@, final(rng)@) == roamed(old(c)@, old(rng)@, max_x as int, speed as int),
{
    let still: bool = c.hovering || c.clicked_ticks > 0 || c.kiss > 0;
    if still {
        return;
    }
    if c.move_ticks == 0 {
        c.moving = !c.moving;
        if c.moving {
            let drawn: u64 = rng_next(rng);
            c.move_ticks = 40 + (drawn % 60) as u32;
            let coin: u64 = rng_next(rng);
            if coin % 2 == 0 {
                c.dir = -c.dir;
            }
        } else {
            let drawn: u64 = rng_next(rng);
            c.move_ticks = 20 + (drawn % 30) as u32;
        }
    }
    c.move_ticks = c.move_ticks - 1;
    if c.moving {
        let r: (i64, i32) = glide(c.x, c.dir, max_x, speed);
        c.x = r.0;
        c.dir = r.1;
    }
}

fn run_blink(c: &mut Critter, rng: &mut Rng)
    ensures
        (final(c)@, final(rng)@) == blinked(old(c)@, old(rng)@),
{
    if c.blink_ctr == 0 {
        let drawn: u64 = rng_next(rng);
        c.blink_ctr = 30 + (drawn % 40) as u32;
    }
    c.blink_ctr = c.blink_ctr - 1;
}

fn chatter(c: &mut Critter, rng: &mut Rng, lang: LanguageId)
    ensures
        (final(c)@, final(rng)@) == chattered(old(c)@, old(rng)@, lang),
{
    if c.pose == Pose::Idle && c.bubble.is_none() {
        let drawn: u64 = rng_next(rng);
        if drawn % 220 == 0 {
            say(c, rng, lang, Pool::Idle, IDLE_BUBBLE_TICKS, PRI_IDLE);
        }
    }
}

fn age_bubble(c: &mut Critter)
    ensures
        final(c)@ == aged(old(c)@),
{
    match c.bubble.take() {
        Some(mut b) => {
            if b.ttl > 0 {
                b.ttl = b.ttl - 1;
            }
            if b.ttl > 0 {
                c.bubble = Some(b);
            }
        },
        None => {},
    }
}

/// One animation tick of a character that walks `speed` far in it, in a range that ends at `max_x`.
pub fn step_critter(
    c: &mut Critter,
    rng: &mut Rng,
    frame: u64,
    lang: LanguageId,
    max_x: i64,
    speed: i64,
)
    requires
        old(c)@.sound(),
        old(c)@.stands(max_x as int),
        0 < max_x <= FAR,
        is_single(max_x as nat),
        0 <= speed <= FAR,
    ensures
        (final(c)@, final(rng)@) == stepped(
            old(c)@,
            old(rng)@,
            frame as int,
            lang,
            max_x as int,
            speed as int,
        ),
        final(c)@.sound(),
        final(c)@.stands(max_x as int),
        final(c)@.species == old(c)@.species,
{
    proof {
        law_steps_keep_characters_sound(
            c@,
            rng@,
            frame as int,
            lang,
            max_x as int,
            speed as int,
        );
    }
    run_timers(c);
    greet(c, rng, frame, lang);
    roam(c, rng, max_x, speed);
    run_blink(c, rng);
    c.pose = c.pose_now();
    chatter(c, rng, lang);
    age_bubble(c);
}

/// Picking a phrase changes nothing of a character but what it remembers to have said, keeps its
/// memory sound, and gives some text.
pub proof fn lemma_picked(c: CritterView, rng: u64, lang: LanguageId, pool: Pool)
    requires
        c.last_idx.len() == POOL_COUNT,
        forall|i: int| 0 <= i < POOL_COUNT ==> -1 <= #[trigger] c.last_idx[i] < 5,
    ensures
        ({
            let (c1, r1, text) = picked(c, rng, lang, pool);
            &&& c1 == CritterView { last_idx: c1.last_idx, ..c }
            &&& c1.last_idx.len() == POOL_COUNT
            &&& forall|i: int| 0 <= i < POOL_COUNT ==> -1 <= #[trigger] c1.last_idx[i] < 5
            &&& text.len() > 0
        }),
{
    law_pools_are_varied(lang, c.species, pool);
}

/// A character that speaks stays sound, and nothing of it changes but its bubble and its memory.
pub proof fn lemma_spoke(
    c: CritterView,
    rng: u64,
    lang: LanguageId,
    pool: Pool,
    ttl: int,
    pri: int,
)
    requires
        c.sound(),
        0 < ttl <= THRESHOLD_BUBBLE_TICKS,
        PRI_IDLE <= pri <= PRI_THRESHOLD,
    ensures
        ({
            let c1 = spoke(c, rng, lang, pool, ttl, pri).0;
            &&& c1.sound()
            &&& c1 == CritterView { bubble: c1.bubble, last_idx: c1.last_idx, ..c }
        }),
{
    lemma_picked(c, rng, lang, pool);
}

pub proof fn lemma_greeted(c: CritterView, rng: u64, frame: int, lang: LanguageId)
    requires
        c.sound(),
    ensures
        ({
            let c1 = greeted(c, rng, frame, lang).0;
            &&& c1.sound()
            &&& c1 == CritterView { bubble: c1.bubble, last_idx: c1.last_idx, ..c }
        }),
{
    lemma_spoke(c, rng, lang, Pool::Hover, HOVER_BUBBLE_TICKS as int, PRI_HOVER as int);
}

pub proof fn lemma_roamed(c: CritterView, rng: u64, max_x: int, speed: int)
    requires
        c.sound(),
        c.stands(max_x),
        0 < max_x,
        is_single(max_x as nat),
        0 <= speed,
    ensures
        ({
            let c1 = roamed(c, rng, max_x, speed).0;
            &&& c1.sound()
            &&& c1.stands(max_x)
            &&& c1 == CritterView {
                x: c1.x,
                dir: c1.dir,
                moving: c1.moving,
                move_ticks: c1.move_ticks,
                ..c
            }
            &&& c1.x != c.x ==> c1.moving
            &&& c1.x == 0 && c1.x != c.x ==> c1.dir == 1
            &&& c1.x == max_x && c1.x != c.x ==> c1.dir == -1
        }),
{
    law_steps_stay_in_range(c.x, c.dir, max_x, speed);
    law_steps_stay_in_range(c.x, -c.dir, max_x, speed);
}

pub proof fn lemma_chattered(c: CritterView, rng: u64, lang: LanguageId)
    requires
        c.sound(),
    ensures
        ({
            let c1 = chattered(c, rng, lang).0;
            &&& c1.sound()
            &&& c1 == CritterView { bubble: c1.bubble, last_idx: c1.last_idx, ..c }
        }),
{
    lemma_spoke(
        c,
        xorshift(rng),
        lang,
        Pool::Idle,
        IDLE_BUBBLE_TICKS as int,
        PRI_IDLE as int,
    );
}

pub proof fn lemma_settled(c: CritterView, rng: u64, lang: LanguageId)
    requires
        c.sound(),
    ensures
        ({
            let c1 = settled(c, rng, lang).0;
            &&& c1.sound()
            &&& c1 == CritterView {
                blink_ctr: c1.blink_ctr,
                pose: c1.pose,
                bubble: c1.bubble,
                last_idx: c1.last_idx,
                ..c
            }
        }),
{
    let (c1, r1) = blinked(c, rng);
    let c2 = CritterView { pose: posed(c1), ..c1 };
    assert(c2.sound());
    lemma_chattered(c2, r1, lang);
    lemma_aged(chattered(c2, r1, lang).0);
}

pub proof fn lemma_aged(c: CritterView)
    requires
        c.sound(),
    ensures
        aged(c).sound(),
        aged(c) == (CritterView { bubble: aged(c).bubble, ..c }),
{
}

/// A sound character stays sound in every tick, wherever it walks and whatever is drawn. It stays
/// in its range and faces one way or the other. What it is, what it wears, whether the mouse is on
/// it and how long its last kiss was do not change.
pub proof fn law_steps_keep_characters_sound(
    c: CritterView,
    rng: u64,
    frame: int,
    lang: LanguageId,
    max_x: int,
    speed: int,
)
    requires
        c.sound(),
        c.stands(max_x),
        0 < max_x,
        is_single(max_x as nat),
        0 <= speed,
    ensures
        ({
            let c1 = stepped(c, rng, frame, lang, max_x, speed).0;
            &&& c1.sound()
            &&& c1.stands(max_x)
            &&& c1.dir == 1 || c1.dir == -1
            &&& c1.species == c.species
            &&& c1.variant == c.variant
            &&& c1.hovering == c.hovering
            &&& c1.hover_since == c.hover_since
            &&& c1.kiss_max == c.kiss_max
        }),
{
    let c0 = timed(c);
    let (c1, r1) = greeted(c0, rng, frame, lang);
    lemma_greeted(c0, rng, frame, lang);
    let (c2, r2) = roamed(c1, r1, max_x, speed);
    lemma_roamed(c1, r1, max_x, speed);
    lemma_settled(c2, r2, lang);
}

/// A character that has moved is walking, and where it has come to an end of its range it has turned
/// round.
pub proof fn law_characters_turn_at_the_walls(
    c: CritterView,
    rng: u64,
    frame: int,
    lang: LanguageId,
    max_x: int,
    speed: int,
)
    requires
        c.sound(),
        c.stands(max_x),
        0 < max_x,
        is_single(max_x as nat),
        0 <= speed,
    ensures
        ({
            let c1 = stepped(c, rng, frame, lang, max_x, speed).0;
            c1.x != c.x ==> {
                &&& c1.moving
                &&& c1.x == 0 ==> c1.dir == 1
                &&& c1.x == max_x ==> c1.dir == -1
            }
        }),
{
    let c0 = timed(c);
    let (c1, r1) = greeted(c0, rng, frame, lang);
    lemma_greeted(c0, rng, frame, lang);
    let (c2, r2) = roamed(c1, r1, max_x, speed);
    lemma_roamed(c1, r1, max_x, speed);
    lemma_settled(c2, r2, lang);
}

/// A character after the mouse was seen over it, or not, at a frame.
pub open spec fn hovered(c: CritterView, over: bool, frame: int) -> CritterView {
    if over == c.hovering {
        c
    } else {
        CritterView {
            hovering: over,
            hover_since: if over {
                Some(frame)
            } else {
                None
            },
            ..c
        }
    }
}

/// Notes whether the mouse is over a character, and says whether that is news.
pub fn update_hover(c: &mut Critter, over: bool, frame: u64) -> (changed: bool)
    ensures
        final(c)@ == hovered(old(c)@, over, frame as int),
        changed == (over != old(c).hovering),
{
    if over && !c.hovering {
        c.hovering = true;
        c.hover_since = Some(frame);
        true
    } else if !over && c.hovering {
        c.hovering = false;
        c.hover_since = None;
        true
    } else {
        false
    }
}

/// A character's bounding box at scale `u`: left, top, width and height in device pixels.
pub open spec fn bounds(c: CritterView, u: int) -> (int, int, int, int) {
    (device_column(c.x, u), BASE_OY * u, SPRITE * u, SPRITE * u)
}

/// Whether a device pixel lies in a character's bounding box.
pub open spec fn is_over(c: CritterView, u: int, x: int, y: int) -> bool {
    let (l, t, w, h) = bounds(c, u);
    l <= x < l + w && t <= y < t + h
}

pub fn critter_bounds(c: &Critter, uscale: i32) -> (r: (i32, i32, i32, i32))
    requires
        0 <= c.x <= MAX_X,
        1 <= uscale,
        WIN_LW * uscale <= i32::MAX,
    ensures
        (r.0 as int, r.1 as int, r.2 as int, r.3 as int) == bounds(c@, uscale as int),
        0 <= r.0,
{
    (scale_column(c.x, uscale), BASE_OY * uscale, SPRITE * uscale, SPRITE * uscale)
}

pub fn point_in(c: &Critter, uscale: i32, x: i32, y: i32) -> (over: bool)
    requires
        0 <= c.x <= MAX_X,
        1 <= uscale,
        WIN_LW * uscale <= i32::MAX,
    ensures
        over == is_over(c@, uscale as int, x as int, y as int),
{
    let (l, t, w, h) = critter_bounds(c, uscale);
    x >= l && x - l < w && y >= t && y < t + h
}

/// A character never says the same phrase of a pool twice running: what it picks next is another
/// text, whatever is drawn and whatever it picked from other pools in between.
pub proof fn law_no_phrase_twice_running(
    c: CritterView,
    later: CritterView,
    rng: u64,
    later_rng: u64,
    lang: LanguageId,
    pool: Pool,
)
    requires
        c.sound(),
        later.sound(),
        later.species == c.species,
        later.last_idx[pool_slot(pool)] == picked(c, rng, lang, pool).0.last_idx[pool_slot(pool)],
    ensures
        picked(later, later_rng, lang, pool).2 != picked(c, rng, lang, pool).2,
{
    law_pools_are_varied(lang, c.species, pool);
    let all = lines(lang, c.species, pool);
    let n = all.len() as int;
    let slot = pool_slot(pool);
    let i = chosen(n, c.last_idx[slot] as int, xorshift(rng));
    let j = chosen(n, i, xorshift(later_rng));
    lemma_chosen(n, c.last_idx[slot] as int, xorshift(rng));
    lemma_chosen(n, i, xorshift(later_rng));
    assert(all[i]@ != all[j]@);
}

/// A pick is in range and not the one before.
pub proof fn lemma_chosen(len: int, last: int, drawn: u64)
    requires
        2 <= len,
    ensures
        0 <= chosen(len, last, drawn) < len,
        chosen(len, last, drawn) != last,
{
    let i = (drawn as usize) as int % len;
    if i + 1 < len {
        lemma_small_mod((i + 1) as nat, len as nat);
    } else {
        lemma_mod_self_0(len);
    }
}

/// Picking from one pool does not touch what is remembered of another.
pub proof fn law_pools_are_remembered_apart(
    c: CritterView,
    rng: u64,
    lang: LanguageId,
    pool: Pool,
    other: Pool,
)
    requires
        c.sound(),
        other != pool,
    ensures
        picked(c, rng, lang, pool).0.last_idx[pool_slot(other)] == c.last_idx[pool_slot(other)],
{
}

/// A bubble that is up is not replaced by one of lower priority; in particular a click, a hover and
/// an idle remark leave a threshold message alone.
pub proof fn law_higher_priority_stays(c: CritterView, text: Seq<char>, ttl: int, pri: int)
    requires
        c.sound(),
        c.bubble is Some,
        c.bubble->0.pri > pri,
    ensures
        bubbled(c, text, ttl, pri) == c,
        PRI_IDLE < PRI_HOVER < PRI_CLICK < PRI_THRESHOLD,
{
}

/// A message of at least the same priority goes up at once, for its full time.
pub proof fn law_equal_priority_replaces(c: CritterView, text: Seq<char>, ttl: int, pri: int)
    requires
        c.sound(),
        text.len() > 0,
        c.bubble is Some ==> c.bubble->0.pri <= pri,
    ensures
        bubbled(c, text, ttl, pri).bubble == Some(BubbleView { text, ttl, max_ttl: ttl, pri }),
{
}

/// A character does not move while it is hovered, clicked or blowing a kiss.
pub proof fn law_frozen_characters_stay(
    c: CritterView,
    rng: u64,
    frame: int,
    lang: LanguageId,
    max_x: int,
    speed: int,
)
    requires
        c.sound(),
        frozen(timed(c)),
    ensures
        stepped(c, rng, frame, lang, max_x, speed).0.x == c.x,
        stepped(c, rng, frame, lang, max_x, speed).0.dir == c.dir,
{
    let c0 = timed(c);
    let (c1, r1) = greeted(c0, rng, frame, lang);
    lemma_greeted(c0, rng, frame, lang);
    lemma_settled(c1, r1, lang);
}

/// A bubble loses a tick of its life in every tick and is gone at the end of it, unless the mouse
/// has just rested on the character long enough for a remark.
pub proof fn law_bubbles_run_out(
    c: CritterView,
    rng: u64,
    frame: int,
    lang: LanguageId,
    max_x: int,
    speed: int,
)
    requires
        c.sound(),
        c.bubble is Some,
        c.hovering ==> ticks_since(frame, c.hover_since->0) != HOVER_DELAY_TICKS,
    ensures
        stepped(c, rng, frame, lang, max_x, speed).0.bubble == aged(c).bubble,
        c.bubble->0.ttl == 1 ==> stepped(c, rng, frame, lang, max_x, speed).0.bubble is None,
{
    let c0 = timed(c);
    let (c2, r2) = roamed(c0, rng, max_x, speed);
    assert(c2.bubble == c.bubble);
    assert(settled(c2, r2, lang).0.bubble == aged(c2).bubble);
}

/// A character that the mouse has rested on for the dwell delay speaks up, unless something of
/// higher priority is still being said.
pub proof fn law_hover_remark_comes_after_the_delay(
    c: CritterView,
    rng: u64,
    frame: int,
    lang: LanguageId,
)
    requires
        c.sound(),
        c.hovering,
        frame == c.hover_since->0 + HOVER_DELAY_TICKS,
        c.bubble is Some ==> c.bubble->0.pri <= PRI_HOVER,
    ensures
        ({
            let b = greeted(c, rng, frame, lang).0.bubble;
            &&& b is Some
            &&& b->0.text == picked(c, rng, lang, Pool::Hover).2
            &&& b->0.ttl == HOVER_BUBBLE_TICKS
            &&& b->0.pri == PRI_HOVER
        }),
{
    lemma_picked(c, rng, lang, Pool::Hover);
}

} // verus!
