//! What a report of usage and a tick bring about in the character window, stated in the numbers
//! that can be seen of it.

use crate::character::all_announced;
use crate::character::announced;
use crate::character::forecast_made;
use crate::character::scene_of;
use crate::character::ticked;
use crate::character::usage_updated;
use crate::character::{CharView, OpView};
use crate::critter::stepped;
use crate::critter::CritterView;
use crate::forecast::frame_of;
use crate::forecast::hhmm;
use crate::forecast::second_of_day_after;
use crate::forecast::{LocalTime, Projection};
use crate::habits::free;
use crate::habits::from_pool;
use crate::habits::law_walkers_walk_on;
use crate::habits::law_what_is_said_goes_up;
use crate::language::LanguageId;
use crate::laws::cat_on;
use crate::laws::dog_on;
use crate::laws::girl_on;
use crate::mood::band_of;
use crate::mood::Band;
use crate::phrases::Pool;
use crate::phrases::Species;
use crate::position::gap;
use crate::position::is_single;
use crate::position::law_singles_are_24_bits_and_a_shift;
use crate::position::lemma_whole_pixels_are_singles;
use crate::rng::xorshift;
use vstd::arithmetic::power2::lemma2_to64;
use vstd::arithmetic::power2::pow2;
use vstd::prelude::*;

verus! {

// ----- reports ----------------------------------------------------------------

/// A character makes an announcement: one of its phrases for the occasion goes up for 50 ticks as
/// the most important thing that can be said. A startled character startles for 12 ticks. Nothing
/// else of it changes but what it remembers.
pub open spec fn announces(
    c: CritterView,
    c1: CritterView,
    lang: LanguageId,
    pool: Pool,
    startled: bool,
) -> bool {
    &&& c1.bubble is Some
    &&& from_pool(c1.bubble->0.text, lang, c.species, pool)
    &&& c1.bubble->0.ttl == 50
    &&& c1.bubble->0.max_ttl == 50
    &&& c1.bubble->0.pri == 3
    &&& startled ==> c1.react_ticks == 12
    &&& !startled ==> c1.react_ticks == c.react_ticks
    &&& c1 == CritterView {
        bubble: c1.bubble,
        last_idx: c1.last_idx,
        react_ticks: c1.react_ticks,
        ..c
    }
}

/// Every character on show makes an announcement, and no other is concerned.
pub open spec fn all_announce(
    s: CharView,
    s1: CharView,
    lang: LanguageId,
    pool: Pool,
    startled: bool,
) -> bool {
    &&& cat_on(s) ==> announces(s.cat, s1.cat, lang, pool, startled)
    &&& dog_on(s) ==> announces(s.dog, s1.dog, lang, pool, startled)
    &&& girl_on(s) ==> announces(s.girl, s1.girl, lang, pool, startled)
    &&& !cat_on(s) ==> s1.cat == s.cat
    &&& !dog_on(s) ==> s1.dog == s.dog
    &&& !girl_on(s) ==> s1.girl == s.girl
}

proof fn lemma_announced(c: CritterView, rng: u64, lang: LanguageId, pool: Pool, startled: bool)
    requires
        c.wf(),
    ensures
        announces(c, announced(c, rng, lang, pool, startled).0, lang, pool, startled),
        announced(c, rng, lang, pool, startled).1 == xorshift(rng),
{
    law_what_is_said_goes_up(c, rng, lang, pool, 50, 3);
}

proof fn lemma_all_announced(s: CharView, rng: u64, pool: Pool, startled: bool)
    requires
        s.wf(),
    ensures
        ({
            let s1 = all_announced(s, rng, pool, startled).0;
            &&& all_announce(s, s1, s.lang, pool, startled)
            &&& s1 == CharView { cat: s1.cat, dog: s1.dog, girl: s1.girl, ..s }
        }),
{
    lemma_announced(s.cat, rng, s.lang, pool, startled);
    lemma_announced(s.dog, rng, s.lang, pool, startled);
    lemma_announced(s.dog, xorshift(rng), s.lang, pool, startled);
    lemma_announced(s.girl, rng, s.lang, pool, startled);
}

/// A report sets mood and band by the percentage: from 90 on alarmed, from 80 on worried, else
/// calm. It is kept, and so is its language. Beyond the characters and what was last announced
/// nothing else of the window changes.
pub proof fn law_reports_set_the_mood(
    s: CharView,
    rng: u64,
    max_percent: int,
    session_percent: int,
    projection: Option<Projection>,
    now: LocalTime,
    lang: LanguageId,
)
    requires
        s.enabled,
    ensures
        ({
            let s1 = usage_updated(
                s,
                rng,
                max_percent,
                session_percent,
                projection,
                now,
                lang,
            ).0;
            &&& s1.mood == Band::Urgent <==> max_percent >= 90
            &&& s1.mood == Band::Soft <==> 80 <= max_percent < 90
            &&& s1.mood == Band::Low <==> max_percent < 80
            &&& s1.last_band == s1.mood
            &&& s1 == CharView {
                lang,
                usage: max_percent,
                mood: s1.mood,
                last_band: s1.mood,
                last_idle_frame: s1.last_idle_frame,
                last_pred_frame: s1.last_pred_frame,
                cat: s1.cat,
                dog: s1.dog,
                girl: s1.girl,
                ..s
            }
        }),
{
}

/// A report that crosses a threshold upwards is answered with a warning and a startle: an urgent one
/// from 90 percent on, a soft one from 80 on if usage was low before. A report that usage is low
/// again is answered with praise, and without a startle.
pub proof fn law_crossings_are_announced(
    s: CharView,
    rng: u64,
    max_percent: int,
    session_percent: int,
    projection: Option<Projection>,
    now: LocalTime,
    lang: LanguageId,
)
    requires
        s.wf(),
        s.enabled,
    ensures
        ({
            let s1 = usage_updated(
                s,
                rng,
                max_percent,
                session_percent,
                projection,
                now,
                lang,
            ).0;
            let crossed = {
                ||| max_percent >= 90 && s.last_band != Band::Urgent
                ||| 80 <= max_percent < 90 && s.last_band == Band::Low
                ||| max_percent < 80 && s.last_band != Band::Low
            };
            &&& max_percent >= 90 && s.last_band != Band::Urgent ==> all_announce(
                s,
                s1,
                lang,
                Pool::Urgent,
                true,
            )
            &&& 80 <= max_percent < 90 && s.last_band == Band::Low ==> all_announce(
                s,
                s1,
                lang,
                Pool::Soft,
                true,
            )
            &&& max_percent < 80 && s.last_band != Band::Low ==> all_announce(
                s,
                s1,
                lang,
                Pool::Rest,
                false,
            )
            &&& crossed ==> s1.last_idle_frame == s.last_idle_frame && s1.last_pred_frame
                == s.last_pred_frame
        }),
{
    let band = band_of(max_percent);
    let s0 = CharView { lang, usage: max_percent, mood: band, last_band: band, ..s };
    lemma_all_announced(s0, rng, Pool::Urgent, true);
    lemma_all_announced(s0, rng, Pool::Soft, true);
    lemma_all_announced(s0, rng, Pool::Rest, false);
}

/// Whether a report comes while usage stays low, long enough after the last kind word, and the draw
/// falls on one in four: the time for a kind word.
pub open spec fn kind_word_time(s: CharView, rng: u64, max_percent: int) -> bool {
    &&& max_percent < 80
    &&& s.last_band == Band::Low
    &&& s.frame >= s.last_idle_frame + 220
    &&& xorshift(rng) % 4 == 0
}

/// While usage stays low, one report in four is answered with a kind word, but none comes within 220
/// ticks of another.
pub proof fn law_kind_words_come_now_and_then(
    s: CharView,
    rng: u64,
    max_percent: int,
    session_percent: int,
    projection: Option<Projection>,
    now: LocalTime,
    lang: LanguageId,
)
    requires
        s.wf(),
        s.enabled,
        s.last_idle_frame >= 0,
        kind_word_time(s, rng, max_percent),
    ensures
        ({
            let s1 = usage_updated(
                s,
                rng,
                max_percent,
                session_percent,
                projection,
                now,
                lang,
            ).0;
            &&& all_announce(s, s1, lang, Pool::Encourage, false)
            &&& s1.last_idle_frame == s.frame
            &&& s1.last_pred_frame == s.last_pred_frame
        }),
{
    let band = band_of(max_percent);
    let s0 = CharView {
        lang,
        usage: max_percent,
        mood: band,
        last_band: band,
        last_idle_frame: s.frame,
        ..s
    };
    lemma_all_announced(s0, xorshift(rng), Pool::Encourage, false);
}

/// Whether the session is on its way to run out before it resets, is neither too fresh to judge nor
/// all but over, and the last forecast is at least 1800 ticks ago.
pub open spec fn forecast_time(
    s: CharView,
    session_percent: int,
    projection: Option<Projection>,
) -> bool {
    &&& 25 <= session_percent < 95
    &&& projection is Some
    &&& projection->0.secs_to_full < projection->0.secs_to_reset
    &&& s.frame >= s.last_pred_frame + 1800
}

/// A clock's face: hours and minutes of a second of the day, two digits each.
pub open spec fn clock(second: int) -> Seq<char> {
    let h = second / 3600;
    let m = second % 3600 / 60;
    seq![
        ('0' as int + h / 10) as char,
        ('0' as int + h % 10) as char,
        ':',
        ('0' as int + m / 10) as char,
        ('0' as int + m % 10) as char,
    ]
}

/// A character makes a forecast for a time of day, unless a warning is up: the time stands in its own
/// words for forecasts, for 50 ticks. Nothing else of it changes.
pub open spec fn forecasts(c: CritterView, c1: CritterView, lang: LanguageId, at: Seq<char>) -> bool {
    &&& c1 == CritterView { bubble: c1.bubble, ..c }
    &&& c.bubble is Some && c.bubble->0.pri == 3 ==> c1.bubble == c.bubble
    &&& !(c.bubble is Some && c.bubble->0.pri == 3) ==> {
        &&& c1.bubble is Some
        &&& c1.bubble->0.text == frame_of(lang, c.species).0@ + at + frame_of(lang, c.species).1@
        &&& c1.bubble->0.ttl == 50
        &&& c1.bubble->0.max_ttl == 50
        &&& c1.bubble->0.pri == 2
    }
}

proof fn lemma_forecast_made(c: CritterView, lang: LanguageId, at: Seq<char>)
    requires
        c.wf(),
        at.len() > 0,
    ensures
        forecasts(c, forecast_made(c, lang, at), lang, at),
{
}

/// A report that neither crosses a threshold nor is answered with a kind word brings a forecast from
/// every character on show if it is time for one: for the time of day at which the session will be
/// used up. If not, the characters stay as they are.
pub proof fn law_forecasts_come_when_it_is_time(
    s: CharView,
    rng: u64,
    max_percent: int,
    session_percent: int,
    projection: Option<Projection>,
    now: LocalTime,
    lang: LanguageId,
)
    requires
        s.wf(),
        s.enabled,
        s.last_idle_frame >= 0,
        s.last_pred_frame >= 0,
        max_percent >= 90 ==> s.last_band == Band::Urgent,
        80 <= max_percent < 90 ==> s.last_band != Band::Low,
        max_percent < 80 ==> s.last_band == Band::Low,
        !kind_word_time(s, rng, max_percent),
    ensures
        ({
            let s1 = usage_updated(
                s,
                rng,
                max_percent,
                session_percent,
                projection,
                now,
                lang,
            ).0;
            let full = (now.hour * 3600 + now.minute * 60 + now.second
                + projection->0.secs_to_full) % 86_400;
            let time = forecast_time(s, session_percent, projection);
            &&& time && cat_on(s) ==> forecasts(s.cat, s1.cat, lang, clock(full))
            &&& time && dog_on(s) ==> forecasts(s.dog, s1.dog, lang, clock(full))
            &&& time && girl_on(s) ==> forecasts(s.girl, s1.girl, lang, clock(full))
            &&& !(time && cat_on(s)) ==> s1.cat == s.cat
            &&& !(time && dog_on(s)) ==> s1.dog == s.dog
            &&& !(time && girl_on(s)) ==> s1.girl == s.girl
            &&& time ==> s1.last_pred_frame == s.frame
            &&& !time ==> s1.last_pred_frame == s.last_pred_frame
            &&& s1.last_idle_frame == s.last_idle_frame
        }),
{
    let full = (now.hour * 3600 + now.minute * 60 + now.second + projection->0.secs_to_full)
        % 86_400;
    assert(hhmm(second_of_day_after(now, projection->0.secs_to_full as int)) =~= clock(full));
    lemma_forecast_made(s.cat, lang, clock(full));
    lemma_forecast_made(s.dog, lang, clock(full));
    lemma_forecast_made(s.girl, lang, clock(full));
}

/// The words around the time in a forecast, for every language and every character.
pub proof fn law_forecasts_have_their_words(lang: LanguageId, species: Species)
    ensures
        frame_of(lang, species) == match (lang, species) {
            (LanguageId::English, Species::Cat) => ("at this pace... done by ", "."),
            (LanguageId::English, Species::Dog) => ("uh oh, 100% by ", "!!"),
            (LanguageId::English, Species::Girl) => ("at this pace... ", " looks risky!"),
            (LanguageId::Dutch, Species::Cat) => ("in dit tempo... om ", " op."),
            (LanguageId::Dutch, Species::Dog) => ("oei, 100% om ", "!!"),
            (LanguageId::Dutch, Species::Girl) => ("in dit tempo... ", " wordt spannend!"),
            (LanguageId::Spanish, Species::Cat) => ("a este ritmo... listo a las ", "."),
            (LanguageId::Spanish, Species::Dog) => ("¡¡uy, 100% a las ", "!!"),
            (LanguageId::Spanish, Species::Girl) => ("a este ritmo... ¡", " pinta mal!"),
            (LanguageId::French, Species::Cat) => ("à ce rythme... fini à ", "."),
            (LanguageId::French, Species::Dog) => ("oh là, 100% à ", " !!"),
            (LanguageId::French, Species::Girl) => ("à ce rythme... ", " ça craint !"),
            (LanguageId::German, Species::Cat) => ("in dem Tempo... um ", " vorbei."),
            (LanguageId::German, Species::Dog) => ("oje, 100% um ", "!!"),
            (LanguageId::German, Species::Girl) => ("in dem Tempo... ", " wird knapp!"),
            (LanguageId::Japanese, Species::Cat) => ("このペースだと", "に上限かも…"),
            (LanguageId::Japanese, Species::Dog) => ("このままだと", "で限界だワン！"),
            (LanguageId::Japanese, Species::Girl) => ("このペースだと", "には危ないかも…"),
            (LanguageId::Korean, Species::Cat) => ("이 속도면... ", "에 끝."),
            (LanguageId::Korean, Species::Dog) => ("이런, ", "에 100%!!"),
            (LanguageId::Korean, Species::Girl) => ("이 속도면... ", "쯤 위험해!"),
            (LanguageId::TraditionalChinese, Species::Cat) => ("照這速度…", "就到頂了。"),
            (LanguageId::TraditionalChinese, Species::Dog) => ("糟糕，", "就100%！！"),
            (LanguageId::TraditionalChinese, Species::Girl) => ("照這速度…", "就危險了！"),
        },
{
    reveal(frame_of);
}

// ----- ticks ------------------------------------------------------------------

/// In a tick every character on show has its turn, in a range of 152 logical pixels: the cat at
/// 0.55, the dog at 0.7 and the girl at 0.5 pixels a tick, each in single precision. Then the window
/// is painted.
pub proof fn law_everyone_on_show_has_a_turn(s: CharView, rng: u64)
    requires
        s.enabled,
    ensures
        ({
            let (s1, r1, ops) = ticked(s, rng);
            let frame = (s.frame + 1) % 0x1_0000_0000_0000_0000;
            let range = 2_550_136_832int;
            let cat = stepped(s.cat, rng, frame, s.lang, range, 9_227_469);
            let dog = stepped(
                s.dog,
                if cat_on(s) {
                    cat.1
                } else {
                    rng
                },
                frame,
                s.lang,
                range,
                11_744_051,
            );
            let girl = stepped(s.girl, rng, frame, s.lang, range, 8_388_608);
            &&& s.cat.species == Species::Cat && cat_on(s) ==> s1.cat == cat.0
            &&& s.cat.species == Species::Cat && s.dog.species == Species::Dog && dog_on(s)
                ==> s1.dog == dog.0
            &&& s.girl.species == Species::Girl && girl_on(s) ==> s1.girl == girl.0
            &&& s1.frame == frame
            &&& ops == seq![OpView::Paint(scene_of(s1))]
        }),
{
}

/// A walking character has walked on by its speed: to the nearest position that can be held, facing
/// as before.
pub open spec fn walked_on(c: CritterView, c1: CritterView, speed: int) -> bool {
    let raw = c.x + c.dir * speed;
    &&& c1.x != c.x
    &&& gap(c1.x, raw) <= 255
    &&& c1.dir == c.dir
    &&& forall|m: nat| #[trigger] is_single(m) ==> gap(c1.x, raw) <= gap(m as int, raw)
}

/// Whether a character is in the middle of a walk, and farther from both ends of its range than it
/// walks in a tick.
pub open spec fn mid_walk(c: CritterView, speed: int) -> bool {
    &&& free(c)
    &&& c.moving
    &&& c.move_ticks > 0
    &&& speed < c.x
    &&& c.x + speed < 2_550_136_832int - 255
}

proof fn lemma_walked_on(
    c: CritterView,
    rng: u64,
    frame: int,
    lang: LanguageId,
    speed: int,
)
    requires
        c.wf(),
        255 < speed,
        mid_walk(c, speed),
    ensures
        walked_on(c, stepped(c, rng, frame, lang, 2_550_136_832int, speed).0, speed),
{
    let range: int = 2_550_136_832int;
    let raw = c.x + c.dir * speed;
    let c1 = stepped(c, rng, frame, lang, range, speed).0;
    lemma_whole_pixels_are_singles(152);
    lemma2_to64();
    assert(c.dir * speed == speed || c.dir * speed == -speed) by (nonlinear_arith)
        requires
            c.dir == 1 || c.dir == -1,
    ;
    law_singles_are_24_bits_and_a_shift((raw / 256) as nat, 8);
    law_walkers_walk_on(c, rng, frame, lang, range, speed, ((raw / 256) * pow2(8)) as nat);
    assert forall|m: nat| #[trigger] is_single(m) implies gap(c1.x, raw) <= gap(m as int, raw) by {
        law_walkers_walk_on(c, rng, frame, lang, range, speed, m);
    }
}

/// In a tick every character on show that is in the middle of a walk walks on by its speed.
pub proof fn law_walkers_cross_the_window(s: CharView, rng: u64)
    requires
        s.wf(),
        s.enabled,
    ensures
        ({
            let s1 = ticked(s, rng).0;
            &&& cat_on(s) && mid_walk(s.cat, 9_227_469) ==> walked_on(s.cat, s1.cat, 9_227_469)
            &&& dog_on(s) && mid_walk(s.dog, 11_744_051) ==> walked_on(s.dog, s1.dog, 11_744_051)
            &&& girl_on(s) && mid_walk(s.girl, 8_388_608) ==> walked_on(
                s.girl,
                s1.girl,
                8_388_608,
            )
        }),
{
    let frame = (s.frame + 1) % 0x1_0000_0000_0000_0000;
    law_everyone_on_show_has_a_turn(s, rng);
    let cat = stepped(s.cat, rng, frame, s.lang, 2_550_136_832int, 9_227_469);
    if mid_walk(s.cat, 9_227_469) {
        lemma_walked_on(s.cat, rng, frame, s.lang, 9_227_469);
    }
    if mid_walk(s.dog, 11_744_051) {
        lemma_walked_on(s.dog, rng, frame, s.lang, 11_744_051);
        lemma_walked_on(s.dog, cat.1, frame, s.lang, 11_744_051);
    }
    if mid_walk(s.girl, 8_388_608) {
        lemma_walked_on(s.girl, rng, frame, s.lang, 8_388_608);
    }
}

} // verus!
