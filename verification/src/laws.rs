//! What holds of the character window from one event to the next.

use crate::canvas::Rect;
use crate::character::announced;
use crate::character::applied;
use crate::character::band_change;
use crate::character::clicked;
use crate::character::enabled_set;
use crate::character::forecast_due;
use crate::character::forecasted;
use crate::character::hits;
use crate::character::kind_set;
use crate::character::language_set;
use crate::character::mouse_left;
use crate::character::mouse_moved;
use crate::character::ops_seen;
use crate::character::place_op;
use crate::character::refreshed;
use crate::character::repaint;
use crate::character::scene_of;
use crate::character::seen;
use crate::character::signed_word;
use crate::character::start_ops;
use crate::character::started;
use crate::character::struck;
use crate::character::ticked;
use crate::character::usage_updated;
use crate::character::variant_set;
use crate::character::CharState;
use crate::character::NewWindow;
use crate::character::PRED_COOLDOWN;
use crate::character::WindowOp;
use crate::character::{CharView, OpView};
use crate::critter::picked;
use crate::critter::CritterView;
use crate::critter::{PRI_CLICK, PRI_THRESHOLD, REACT_TICKS, THRESHOLD_BUBBLE_TICKS};
use crate::dpi::scale_of;
use crate::forecast::{LocalTime, Projection};
use crate::habits::from_pool;
use crate::habits::law_characters_are_touched_where_they_are;
use crate::habits::law_what_is_said_goes_up;
use crate::habits::touches;
use crate::kind::CharacterKind;
use crate::language::LanguageId;
use crate::mood::band_of;
use crate::mood::Band;
use crate::phrases::law_pools_are_varied;
use crate::phrases::Pool;
use crate::phrases::Species;
use crate::rng::xorshift;
use crate::scene::SnapshotView;
use vstd::arithmetic::div_mod::lemma_fundamental_div_mod_converse;
use vstd::prelude::*;

verus! {

/// Every setting is read back as it was made, a coat by its lowest bit, and nothing else changes.
pub proof fn law_settings_are_read_back(
    s: CharView,
    enabled: bool,
    kind: CharacterKind,
    variant: int,
    lang: LanguageId,
)
    ensures
        enabled_set(s, enabled).0 == (CharView { enabled, ..s }),
        kind_set(s, kind).0 == (CharView { kind, ..s }),
        variant_set(s, true, variant).0 == (CharView {
            cat: CritterView { variant: variant % 2, ..s.cat },
            ..s
        }),
        variant_set(s, false, variant).0 == (CharView {
            dog: CritterView { variant: variant % 2, ..s.dog },
            ..s
        }),
        language_set(s, lang) == (CharView { lang, ..s }),
{
}

/// Making a setting a second time changes nothing and asks nothing of the window.
pub proof fn law_settings_are_made_once(
    s: CharView,
    enabled: bool,
    kind: CharacterKind,
    is_cat: bool,
    variant: int,
)
    ensures
        enabled_set(enabled_set(s, enabled).0, enabled) == (
            enabled_set(s, enabled).0,
            Seq::<OpView>::empty(),
        ),
        kind_set(kind_set(s, kind).0, kind) == (kind_set(s, kind).0, Seq::<OpView>::empty()),
        variant_set(variant_set(s, is_cat, variant).0, is_cat, variant) == (
            variant_set(s, is_cat, variant).0,
            Seq::<OpView>::empty(),
        ),
{
}

/// Starting a window that is there brings its settings up to date and puts it in its place.
/// Positions, bubbles and moods stay. Where no setting changes, putting it in its place is all.
pub proof fn law_starting_again_refreshes(
    s: CharView,
    anchor: Rect,
    enabled: bool,
    kind: CharacterKind,
    cat_variant: int,
    dog_variant: int,
    lang: LanguageId,
)
    ensures
        ({
            let (s1, ops) = refreshed(s, anchor, enabled, kind, cat_variant, dog_variant, lang);
            &&& s1 == CharView {
                enabled,
                kind,
                lang,
                cat: CritterView { variant: cat_variant % 2, ..s.cat },
                dog: CritterView { variant: dog_variant % 2, ..s.dog },
                ..s
            }
            &&& ops.last() == place_op(s1, anchor)
            &&& s1 == (CharView { lang, ..s }) ==> ops == seq![place_op(s1, anchor)]
        }),
{
    let (a, o1) = kind_set(s, kind);
    let (b, o2) = variant_set(a, true, cat_variant);
    let (c, o3) = variant_set(b, false, dog_variant);
    let d = language_set(c, lang);
    let (e, o4) = enabled_set(d, enabled);
    law_settings_are_read_back(s, enabled, kind, cat_variant, lang);
    law_settings_are_read_back(a, enabled, kind, cat_variant, lang);
    law_settings_are_read_back(b, enabled, kind, dog_variant, lang);
    law_settings_are_read_back(d, enabled, kind, dog_variant, lang);
    let ops = (o1 + o2 + o3 + o4).push(place_op(e, anchor));
    assert(refreshed(s, anchor, enabled, kind, cat_variant, dog_variant, lang) == (e, ops));
    if e == (CharView { lang, ..s }) {
        assert(s.kind == kind && s.enabled == enabled);
        assert(s.cat.variant == cat_variant % 2 && s.dog.variant == dog_variant % 2);
        assert(o1.len() == 0 && o2.len() == 0 && o3.len() == 0 && o4.len() == 0);
        assert(ops =~= seq![place_op(e, anchor)]);
    }
}

/// A window that is off takes no notice of time, is not painted, and of a report of usage only
/// keeps the language and the percentage.
pub proof fn law_disabled_windows_rest(
    s: CharView,
    rng: u64,
    max_percent: int,
    session_percent: int,
    projection: Option<Projection>,
    now: LocalTime,
    lang: LanguageId,
)
    requires
        !s.enabled,
    ensures
        ticked(s, rng) == (s, rng, Seq::<OpView>::empty()),
        repaint(s) == Seq::<OpView>::empty(),
        usage_updated(s, rng, max_percent, session_percent, projection, now, lang) == (
            CharView { lang, usage: max_percent, ..s },
            rng,
        ),
{
}

/// Whoever is not on show is as before.
pub open spec fn hidden_left_alone(s: CharView, s1: CharView) -> bool {
    &&& s1.kind == s.kind
    &&& !s.kind.has_cat() ==> s1.cat == s.cat
    &&& !s.kind.has_dog() ==> s1.dog == s.dog
    &&& !s.kind.has_girl() ==> s1.girl == s.girl
}

/// Ticks, clicks, the mouse and reports of usage leave alone whoever is not on show.
pub proof fn law_hidden_characters_are_left_alone(
    s: CharView,
    rng: u64,
    hwnd: int,
    x: int,
    y: int,
    max_percent: int,
    session_percent: int,
    projection: Option<Projection>,
    now: LocalTime,
    lang: LanguageId,
)
    ensures
        hidden_left_alone(s, ticked(s, rng).0),
        hidden_left_alone(s, clicked(s, rng, x, y).0),
        hidden_left_alone(s, mouse_moved(s, hwnd, x, y).0),
        hidden_left_alone(
            s,
            usage_updated(s, rng, max_percent, session_percent, projection, now, lang).0,
        ),
{
}

/// A tick moves the frame counter on by one and otherwise concerns the characters only.
pub proof fn law_ticks_concern_the_characters(s: CharView, rng: u64)
    requires
        s.enabled,
    ensures
        ({
            let s1 = ticked(s, rng).0;
            s1 == CharView {
                frame: (s.frame + 1) % 0x1_0000_0000_0000_0000,
                cat: s1.cat,
                dog: s1.dog,
                girl: s1.girl,
                ..s
            }
        }),
{
}

/// A click that hits no character on show changes nothing.
pub proof fn law_missed_clicks_change_nothing(s: CharView, rng: u64, x: int, y: int)
    requires
        !hits(s, x, y),
    ensures
        clicked(s, rng, x, y) == (s, rng, Seq::<OpView>::empty()),
{
}

/// A click never replaces a warning that is up. Without one, what the character says at once comes
/// from its phrases for clicks.
pub proof fn law_clicks_spare_warnings(c: CritterView, rng: u64, lang: LanguageId)
    requires
        c.wf(),
    ensures
        ({
            let said = struck(c, rng, lang).0.bubble;
            if c.bubble is Some && c.bubble->0.pri == PRI_THRESHOLD {
                said == c.bubble
            } else {
                &&& said is Some
                &&& said->0.text == picked(c, rng, lang, Pool::Click).2
                &&& said->0.pri == PRI_CLICK
                &&& said->0.ttl == said->0.max_ttl
            }
        }),
{
    law_pools_are_varied(lang, c.species, Pool::Click);
}

/// An announcement always goes up, whatever was being said, and for its full time. Whether the
/// character startles is up to the announcement.
pub proof fn law_announcements_go_up(
    c: CritterView,
    rng: u64,
    lang: LanguageId,
    pool: Pool,
    startled: bool,
)
    requires
        c.wf(),
    ensures
        ({
            let c1 = announced(c, rng, lang, pool, startled).0;
            &&& c1.bubble is Some
            &&& c1.bubble->0.text == picked(c, rng, lang, pool).2
            &&& c1.bubble->0.pri == PRI_THRESHOLD
            &&& c1.bubble->0.ttl == c1.bubble->0.max_ttl == THRESHOLD_BUBBLE_TICKS
            &&& c1.react_ticks == if startled {
                REACT_TICKS as int
            } else {
                c.react_ticks
            }
        }),
{
    law_pools_are_varied(lang, c.species, pool);
}

/// A threshold is announced when it is crossed, and not again while usage stays in the same band:
/// as long as that is not the low one, a second report can at most bring a forecast.
pub proof fn law_thresholds_are_announced_once(
    s: CharView,
    rng: u64,
    max_percent: int,
    session_percent: int,
    projection: Option<Projection>,
    now: LocalTime,
    lang: LanguageId,
)
    requires
        s.enabled,
        s.last_band == band_of(max_percent),
        s.last_band != Band::Low,
    ensures
        usage_updated(s, rng, max_percent, session_percent, projection, now, lang) == (
            forecasted(
                CharView { lang, usage: max_percent, mood: s.last_band, ..s },
                session_percent,
                projection,
                now,
            ),
            rng,
        ),
{
}

/// A report of usage sets the mood and is remembered as the last band, so that a next report in
/// the same band crosses nothing.
pub proof fn law_usage_sets_the_mood(
    s: CharView,
    rng: u64,
    max_percent: int,
    session_percent: int,
    projection: Option<Projection>,
    now: LocalTime,
    lang: LanguageId,
)
    requires
        s.enabled,
    ensures
        ({
            let s1 = usage_updated(
                s,
                rng,
                max_percent,
                session_percent,
                projection,
                now,
                lang,
            ).0;
            &&& s1.mood == band_of(max_percent)
            &&& s1.last_band == band_of(max_percent)
            &&& s1.usage == max_percent
            &&& s1.lang == lang
            &&& band_change(s1.last_band, band_of(max_percent)) is None
        }),
{
}

/// After a forecast none is due until the cooldown is over, whatever the reports say.
pub proof fn law_forecasts_are_spaced(
    s: CharView,
    session_percent: int,
    projection: Option<Projection>,
    now: LocalTime,
    frame: int,
    later_percent: int,
    later_projection: Option<Projection>,
)
    requires
        forecast_due(s, session_percent, projection),
        s.frame <= frame < s.frame + PRED_COOLDOWN,
    ensures
        !forecast_due(
            CharView { frame, ..forecasted(s, session_percent, projection, now) },
            later_percent,
            later_projection,
        ),
{
}

/// Once the mouse has left, no character is hovered, and its leaving again is no news.
pub proof fn law_leaving_ends_hovering(s: CharView)
    ensures
        ({
            let s1 = mouse_left(s).0;
            &&& !s1.cat.hovering && !s1.dog.hovering && !s1.girl.hovering
            &&& !s1.tracking_leave
            &&& mouse_left(s1) == (s1, Seq::<OpView>::empty())
        }),
{
}

/// A mouse that stays where it is brings no news after the first report.
pub proof fn law_resting_mouse_is_no_news(s: CharView, hwnd: int, x: int, y: int)
    ensures
        ({
            let s1 = mouse_moved(s, hwnd, x, y).0;
            mouse_moved(s1, hwnd, x, y) == (s1, Seq::<OpView>::empty())
        }),
{
    let s1 = mouse_moved(s, hwnd, x, y).0;
    let s2 = mouse_moved(s1, hwnd, x, y);
    assert(s2.0 == s1);
    assert(s2.1 =~= Seq::<OpView>::empty());
}

/// A sound window can be painted, as long as its pixels can be counted in an `i32`.
pub proof fn law_sound_windows_can_be_painted(s: CharView)
    requires
        s.wf(),
        s.win_w * s.win_h <= i32::MAX,
    ensures
        scene_of(s).wf(),
{
}

// ----- what is seen -----------------------------------------------------------

/// The window's view shows all that there is of its state, and nothing where there is no window.
pub proof fn law_windows_are_seen_whole(s: CharState)
    ensures
        seen(None) is None,
        seen(Some(s)) == Some(s@),
        s@.hwnd == s.hwnd,
        s@.enabled == s.enabled,
        s@.kind == s.kind,
        s@.lang == s.lang,
        s@.uscale == s.uscale,
        s@.win_w == s.win_w,
        s@.win_h == s.win_h,
        s@.frame == s.frame,
        s@.cat == s.cat@,
        s@.dog == s.dog@,
        s@.girl == s.girl@,
        s@.usage == s.usage,
        s@.last_band == s.last_band,
        s@.mood == s.mood,
        s@.last_idle_frame == s.last_idle_frame,
        s@.last_pred_frame == s.last_pred_frame,
        s@.tracking_leave == s.tracking_leave,
{
}

/// A list of operations is seen one for one.
pub proof fn law_operations_are_seen_whole(ops: Seq<WindowOp>, i: int)
    requires
        0 <= i < ops.len(),
    ensures
        ops_seen(ops).len() == ops.len(),
        ops_seen(ops)[i] == match ops[i] {
            WindowOp::Show { hwnd } => OpView::Show { hwnd: hwnd as int },
            WindowOp::Hide { hwnd } => OpView::Hide { hwnd: hwnd as int },
            WindowOp::StartTimer { hwnd } => OpView::StartTimer { hwnd: hwnd as int },
            WindowOp::StopTimer { hwnd } => OpView::StopTimer { hwnd: hwnd as int },
            WindowOp::Place { hwnd, x, y, w, h, visible } => OpView::Place {
                hwnd: hwnd as int,
                x: x as int,
                y: y as int,
                w: w as int,
                h: h as int,
                visible,
            },
            WindowOp::TrackLeave { hwnd } => OpView::TrackLeave { hwnd: hwnd as int },
            WindowOp::Close { hwnd } => OpView::Close { hwnd: hwnd as int },
            WindowOp::Paint(scene) => OpView::Paint(scene@),
        },
{
}

/// Where there is a window, an event has its effect on it and asks for what it asks for. Where there
/// is none, nothing happens.
pub proof fn law_events_reach_the_window(
    s: CharView,
    event: spec_fn(CharView) -> (CharView, Seq<OpView>),
)
    ensures
        applied(Some(s), event) == (Some(event(s).0), event(s).1),
        applied(None, event) == (None::<CharView>, Seq::<OpView>::empty()),
{
}

/// A frame shows the window as it is: who is on show, and each character with its place, direction,
/// pose, coat, eyes, mood, kiss and what it says.
pub proof fn law_frames_show_the_window_as_it_is(s: CharView)
    ensures
        ({
            let f = scene_of(s);
            &&& f.hwnd == s.hwnd
            &&& f.win_w == s.win_w
            &&& f.win_h == s.win_h
            &&& f.u == s.uscale
            &&& f.kind == s.kind
            &&& f.frame == s.frame
            &&& f.usage == s.usage
            &&& shown_as(s.cat, s.mood, f.cat)
            &&& shown_as(s.dog, s.mood, f.dog)
            &&& shown_as(s.girl, s.mood, f.girl)
        }),
{
}

/// A frame shows a character as it is.
pub open spec fn shown_as(c: CritterView, mood: Band, f: SnapshotView) -> bool {
    &&& f.x == c.x
    &&& f.dir == c.dir
    &&& f.pose == c.pose
    &&& f.variant == c.variant
    &&& f.blink_ctr == c.blink_ctr
    &&& f.mood == mood
    &&& f.kiss == c.kiss
    &&& f.kiss_max == c.kiss_max
    &&& c.bubble is None ==> f.bubble is None
    &&& c.bubble is Some ==> {
        &&& f.bubble is Some
        &&& f.bubble->0.text == c.bubble->0.text
        &&& f.bubble->0.ttl == c.bubble->0.ttl
        &&& f.bubble->0.max_ttl == c.bubble->0.max_ttl
    }
}

// ----- who is on show ---------------------------------------------------------

pub open spec fn cat_on(s: CharView) -> bool {
    s.kind == CharacterKind::Cat || s.kind == CharacterKind::Both
}

pub open spec fn dog_on(s: CharView) -> bool {
    s.kind == CharacterKind::Dog || s.kind == CharacterKind::Both
}

pub open spec fn girl_on(s: CharView) -> bool {
    s.kind == CharacterKind::Girl
}

// ----- clicks -----------------------------------------------------------------

/// A character answers a click: the cat and the dog hop for 6 ticks, the girl blows a kiss for 26.
/// Unless a warning is up it puts up one of its phrases for clicks, for 31 ticks. Nothing else of it
/// changes but what it remembers.
pub open spec fn answers_click(c: CritterView, c1: CritterView, lang: LanguageId) -> bool {
    &&& c.species == Species::Girl ==> c1 == CritterView {
        kiss: 26,
        kiss_max: 26,
        bubble: c1.bubble,
        last_idx: c1.last_idx,
        ..c
    }
    &&& c.species != Species::Girl ==> c1 == CritterView {
        clicked_ticks: 6,
        bubble: c1.bubble,
        last_idx: c1.last_idx,
        ..c
    }
    &&& c.bubble is Some && c.bubble->0.pri == 3 ==> c1.bubble == c.bubble
    &&& !(c.bubble is Some && c.bubble->0.pri == 3) ==> {
        &&& c1.bubble is Some
        &&& from_pool(c1.bubble->0.text, lang, c.species, Pool::Click)
        &&& c1.bubble->0.ttl == 31
        &&& c1.bubble->0.max_ttl == 31
        &&& c1.bubble->0.pri == 2
    }
}

proof fn lemma_struck(c: CritterView, rng: u64, lang: LanguageId)
    requires
        c.wf(),
    ensures
        answers_click(c, struck(c, rng, lang).0, lang),
        struck(c, rng, lang).1 == xorshift(rng),
{
    let c0 = if c.species == Species::Girl {
        CritterView { kiss: 26, kiss_max: 26, ..c }
    } else {
        CritterView { clicked_ticks: 6, ..c }
    };
    law_what_is_said_goes_up(c0, rng, lang, Pool::Click, 31, 2);
}

/// A click is answered by every character on show that it touches, and by no other. The window is
/// painted anew if any has answered.
pub proof fn law_clicks_are_answered_by_whom_they_touch(s: CharView, rng: u64, x: int, y: int)
    requires
        s.wf(),
    ensures
        ({
            let (s1, r1, ops) = clicked(s, rng, x, y);
            let cat = cat_on(s) && touches(s.cat, s.uscale, x, y);
            let dog = dog_on(s) && touches(s.dog, s.uscale, x, y);
            let girl = girl_on(s) && touches(s.girl, s.uscale, x, y);
            &&& cat ==> answers_click(s.cat, s1.cat, s.lang)
            &&& !cat ==> s1.cat == s.cat
            &&& dog ==> answers_click(s.dog, s1.dog, s.lang)
            &&& !dog ==> s1.dog == s.dog
            &&& girl ==> answers_click(s.girl, s1.girl, s.lang)
            &&& !girl ==> s1.girl == s.girl
            &&& s1 == CharView { cat: s1.cat, dog: s1.dog, girl: s1.girl, ..s }
            &&& !cat && !dog && !girl ==> r1 == rng && ops.len() == 0
            &&& (cat || dog || girl) && s.enabled ==> ops == seq![OpView::Paint(scene_of(s1))]
            &&& !s.enabled ==> ops.len() == 0
        }),
{
    law_characters_are_touched_where_they_are(s.cat, s.uscale, x, y);
    law_characters_are_touched_where_they_are(s.dog, s.uscale, x, y);
    law_characters_are_touched_where_they_are(s.girl, s.uscale, x, y);
    let r_dog = if cat_on(s) && touches(s.cat, s.uscale, x, y) {
        xorshift(rng)
    } else {
        rng
    };
    lemma_struck(s.cat, rng, s.lang);
    lemma_struck(s.dog, r_dog, s.lang);
    lemma_struck(s.girl, rng, s.lang);
}

// ----- the mouse --------------------------------------------------------------

/// A character knows that the mouse is on it or off it, and since when.
pub open spec fn knows_mouse(c: CritterView, c1: CritterView, on: bool, frame: int) -> bool {
    &&& c1.hovering == on
    &&& !on ==> c1.hover_since is None
    &&& on && !c.hovering ==> c1.hover_since == Some(frame)
    &&& on && c.hovering ==> c1.hover_since == c.hover_since
    &&& c1 == CritterView { hovering: c1.hovering, hover_since: c1.hover_since, ..c }
}

/// After a move of the mouse each character on show knows whether the mouse is on it, and no other
/// is concerned. The first move asks to be told of the mouse's leaving; the window is painted anew
/// if the mouse has come onto a character or left one.
pub proof fn law_moves_tell_whom_the_mouse_is_on(s: CharView, hwnd: int, x: int, y: int)
    requires
        s.wf(),
    ensures
        ({
            let (s1, ops) = mouse_moved(s, hwnd, x, y);
            let on_cat = touches(s.cat, s.uscale, x, y);
            let on_dog = touches(s.dog, s.uscale, x, y);
            let on_girl = touches(s.girl, s.uscale, x, y);
            let news = (cat_on(s) && on_cat != s.cat.hovering) || (dog_on(s) && on_dog
                != s.dog.hovering) || (girl_on(s) && on_girl != s.girl.hovering);
            &&& cat_on(s) ==> knows_mouse(s.cat, s1.cat, on_cat, s.frame)
            &&& !cat_on(s) ==> s1.cat == s.cat
            &&& dog_on(s) ==> knows_mouse(s.dog, s1.dog, on_dog, s.frame)
            &&& !dog_on(s) ==> s1.dog == s.dog
            &&& girl_on(s) ==> knows_mouse(s.girl, s1.girl, on_girl, s.frame)
            &&& !girl_on(s) ==> s1.girl == s.girl
            &&& s1 == CharView {
                cat: s1.cat,
                dog: s1.dog,
                girl: s1.girl,
                tracking_leave: true,
                ..s
            }
            &&& !s.tracking_leave && news && s.enabled ==> ops == seq![
                OpView::TrackLeave { hwnd },
                OpView::Paint(scene_of(s1)),
            ]
            &&& !s.tracking_leave && !(news && s.enabled) ==> ops == seq![
                OpView::TrackLeave { hwnd },
            ]
            &&& s.tracking_leave && news && s.enabled ==> ops == seq![OpView::Paint(scene_of(s1))]
            &&& s.tracking_leave && !(news && s.enabled) ==> ops.len() == 0
        }),
{
    law_characters_are_touched_where_they_are(s.cat, s.uscale, x, y);
    law_characters_are_touched_where_they_are(s.dog, s.uscale, x, y);
    law_characters_are_touched_where_they_are(s.girl, s.uscale, x, y);
    let (s1, ops) = mouse_moved(s, hwnd, x, y);
    assert(seq![OpView::TrackLeave { hwnd }] + seq![OpView::Paint(scene_of(s1))] =~= seq![
        OpView::TrackLeave { hwnd },
        OpView::Paint(scene_of(s1)),
    ]);
    assert(Seq::<OpView>::empty() + seq![OpView::Paint(scene_of(s1))] =~= seq![
        OpView::Paint(scene_of(s1)),
    ]);
    assert(seq![OpView::TrackLeave { hwnd }] + Seq::<OpView>::empty() =~= seq![
        OpView::TrackLeave { hwnd },
    ]);
}

/// When the mouse leaves, it is off every character, on show or not, and nothing else of them
/// changes. The window is painted anew if it was on any.
pub proof fn law_leaving_takes_the_mouse_off_everyone(s: CharView)
    requires
        s.wf(),
    ensures
        ({
            let (s1, ops) = mouse_left(s);
            let was_on = s.cat.hovering || s.dog.hovering || s.girl.hovering;
            &&& s1 == CharView {
                cat: CritterView { hovering: false, hover_since: None, ..s.cat },
                dog: CritterView { hovering: false, hover_since: None, ..s.dog },
                girl: CritterView { hovering: false, hover_since: None, ..s.girl },
                tracking_leave: false,
                ..s
            }
            &&& was_on && s.enabled ==> ops == seq![OpView::Paint(scene_of(s1))]
            &&& !(was_on && s.enabled) ==> ops.len() == 0
        }),
{
}

/// The point of a mouse message is read back as it was packed: the column in the lowest word and the
/// row in the word above, whatever stands in the words above those.
pub proof fn law_mouse_words_are_read_back(x: int, y: int, rest: int)
    requires
        -0x8000 <= x < 0x8000,
        -0x8000 <= y < 0x8000,
    ensures
        ({
            let low = if x < 0 {
                x + 0x1_0000
            } else {
                x
            };
            let high = if y < 0 {
                y + 0x1_0000
            } else {
                y
            };
            let packed = low + high * 0x1_0000 + rest * 0x1_0000_0000;
            &&& signed_word(packed % 0x1_0000) == x
            &&& signed_word(packed / 0x1_0000 % 0x1_0000) == y
        }),
{
    let low = if x < 0 {
        x + 0x1_0000
    } else {
        x
    };
    let high = if y < 0 {
        y + 0x1_0000
    } else {
        y
    };
    let packed = low + high * 0x1_0000 + rest * 0x1_0000_0000;
    let upper = high + rest * 0x1_0000;
    lemma_fundamental_div_mod_converse(packed, 0x1_0000, upper, low);
    lemma_fundamental_div_mod_converse(upper, 0x1_0000, rest, high);
}

// ----- settings ---------------------------------------------------------------

/// Turning the characters on shows the window, starts the animation and paints. Turning them off
/// stops the animation and hides the window.
pub proof fn law_switching_on_and_off(s: CharView)
    ensures
        !s.enabled ==> enabled_set(s, true).1 == seq![
            OpView::Show { hwnd: s.hwnd },
            OpView::StartTimer { hwnd: s.hwnd },
            OpView::Paint(scene_of(CharView { enabled: true, ..s })),
        ],
        s.enabled ==> enabled_set(s, false).1 == seq![
            OpView::StopTimer { hwnd: s.hwnd },
            OpView::Hide { hwnd: s.hwnd },
        ],
{
    let on = CharView { enabled: true, ..s };
    if !s.enabled {
        assert(enabled_set(s, true).1 =~= seq![
            OpView::Show { hwnd: s.hwnd },
            OpView::StartTimer { hwnd: s.hwnd },
            OpView::Paint(scene_of(on)),
        ]);
    }
}

/// A change of who is on show, or of a coat, is painted at once where the characters are on.
pub proof fn law_changes_are_painted(s: CharView, kind: CharacterKind, is_cat: bool, variant: int)
    ensures
        s.enabled && s.kind != kind ==> kind_set(s, kind).1 == seq![
            OpView::Paint(scene_of(CharView { kind, ..s })),
        ],
        s.enabled && is_cat && s.cat.variant != variant % 2 ==> variant_set(s, is_cat, variant).1
            == seq![
            OpView::Paint(
                scene_of(CharView { cat: CritterView { variant: variant % 2, ..s.cat }, ..s }),
            ),
        ],
        s.enabled && !is_cat && s.dog.variant != variant % 2 ==> variant_set(s, is_cat, variant).1
            == seq![
            OpView::Paint(
                scene_of(CharView { dog: CritterView { variant: variant % 2, ..s.dog }, ..s }),
            ),
        ],
        !s.enabled ==> kind_set(s, kind).1.len() == 0 && variant_set(s, is_cat, variant).1.len()
            == 0,
{
}

/// The window is put right on top of its anchor, flush with its left edge, shown if the characters
/// are on.
pub proof fn law_windows_stand_on_their_anchors(s: CharView, anchor: Rect)
    ensures
        place_op(s, anchor) == (OpView::Place {
            hwnd: s.hwnd,
            x: anchor.left as int,
            y: anchor.top - s.win_h,
            w: s.win_w,
            h: s.win_h,
            visible: s.enabled,
        }),
{
}

/// A new window has the settings that it was given, and the size that the display's scale calls for.
/// The cat and the girl start 8 pixels from the left and face right, the dog starts 8 pixels from
/// the right end of the range and faces left. It is calm, and nothing has happened yet.
pub proof fn law_new_windows_start_calm(
    win: NewWindow,
    enabled: bool,
    kind: CharacterKind,
    cat_variant: int,
    dog_variant: int,
    lang: LanguageId,
)
    ensures
        ({
            let s = started(win, enabled, kind, cat_variant, dog_variant, lang);
            &&& s.hwnd == win.hwnd
            &&& s.enabled == enabled
            &&& s.kind == kind
            &&& s.lang == lang
            &&& s.uscale == scale_of(win.dpi as int)
            &&& s.win_w == 184 * s.uscale
            &&& s.win_h == 72 * s.uscale
            &&& s.frame == 0
            &&& s.usage == 0
            &&& s.mood == Band::Low
            &&& s.last_band == Band::Low
            &&& s.last_idle_frame == 0
            &&& s.last_pred_frame == 0
            &&& !s.tracking_leave
            &&& s.cat.species == Species::Cat && s.dog.species == Species::Dog && s.girl.species
                == Species::Girl
            &&& s.cat.variant == cat_variant % 2 && s.dog.variant == dog_variant % 2
                && s.girl.variant == 0
            &&& s.cat.x == 8 * 0x100_0000 && s.dog.x == 144 * 0x100_0000 && s.girl.x == 8
                * 0x100_0000
            &&& s.cat.dir == 1 && s.dog.dir == -1 && s.girl.dir == 1
            &&& s.cat.moving && s.dog.moving && s.girl.moving
            &&& s.cat.bubble is None && s.dog.bubble is None && s.girl.bubble is None
            &&& !s.cat.hovering && !s.dog.hovering && !s.girl.hovering
        }),
{
}

/// A new window is put in its place. If the characters are on, it is then shown, animated and
/// painted.
pub proof fn law_new_windows_come_up(s: CharView, anchor: Rect)
    ensures
        s.enabled ==> start_ops(s, anchor) == seq![
            place_op(s, anchor),
            OpView::Show { hwnd: s.hwnd },
            OpView::StartTimer { hwnd: s.hwnd },
            OpView::Paint(scene_of(s)),
        ],
        !s.enabled ==> start_ops(s, anchor) == seq![place_op(s, anchor)],
{
    if s.enabled {
        assert(start_ops(s, anchor) =~= seq![
            place_op(s, anchor),
            OpView::Show { hwnd: s.hwnd },
            OpView::StartTimer { hwnd: s.hwnd },
            OpView::Paint(scene_of(s)),
        ]);
    } else {
        assert(start_ops(s, anchor) =~= seq![place_op(s, anchor)]);
    }
}

/// Starting a window that is there, and turning the characters on or off in it, does what turning
/// them on or off does.
pub proof fn law_starting_again_switches(
    s: CharView,
    anchor: Rect,
    kind: CharacterKind,
    cat_variant: int,
    dog_variant: int,
    lang: LanguageId,
)
    ensures
        ({
            let (on, up) = refreshed(s, anchor, true, kind, cat_variant, dog_variant, lang);
            let (off, down) = refreshed(s, anchor, false, kind, cat_variant, dog_variant, lang);
            &&& !s.enabled ==> up == seq![
                OpView::Show { hwnd: s.hwnd },
                OpView::StartTimer { hwnd: s.hwnd },
                OpView::Paint(scene_of(on)),
                place_op(on, anchor),
            ]
            &&& s.enabled ==> down.len() >= 3 && down.subrange(
                down.len() - 3,
                down.len() as int,
            ) == seq![
                OpView::StopTimer { hwnd: s.hwnd },
                OpView::Hide { hwnd: s.hwnd },
                place_op(off, anchor),
            ]
        }),
{
    let (a, o1) = kind_set(s, kind);
    let (b, o2) = variant_set(a, true, cat_variant);
    let (c, o3) = variant_set(b, false, dog_variant);
    let d = language_set(c, lang);
    law_settings_are_read_back(s, true, kind, cat_variant, lang);
    law_settings_are_read_back(a, true, kind, cat_variant, lang);
    law_settings_are_read_back(b, true, kind, dog_variant, lang);
    law_switching_on_and_off(d);
    let (on, o4) = enabled_set(d, true);
    let (off, o5) = enabled_set(d, false);
    if !s.enabled {
        assert(o1.len() == 0 && o2.len() == 0 && o3.len() == 0);
        assert((o1 + o2 + o3 + o4).push(place_op(on, anchor)) =~= seq![
            OpView::Show { hwnd: s.hwnd },
            OpView::StartTimer { hwnd: s.hwnd },
            OpView::Paint(scene_of(on)),
            place_op(on, anchor),
        ]);
    } else {
        let down = (o1 + o2 + o3 + o5).push(place_op(off, anchor));
        assert(down.subrange(down.len() - 3, down.len() as int) =~= seq![
            OpView::StopTimer { hwnd: s.hwnd },
            OpView::Hide { hwnd: s.hwnd },
            place_op(off, anchor),
        ]);
    }
}

} // verus!
