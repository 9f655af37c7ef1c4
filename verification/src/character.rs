//! The roaming characters: their state, the events that change it, and what is to be done about
//! the window after each.
//!
//! The window itself belongs to the caller. Every event returns the operations that the caller is
//! to perform on it, in order.

pub use crate::kind::CharacterKind;

use crate::canvas::Rect;
use crate::critter::bubbled;
use crate::critter::fresh;
use crate::critter::hovered;
use crate::critter::is_over;
use crate::critter::lemma_spoke;
use crate::critter::point_in;
use crate::critter::say;
use crate::critter::set_bubble;
use crate::critter::spoke;
use crate::critter::step_critter;
use crate::critter::stepped;
use crate::critter::ticks_since;
use crate::critter::update_hover;
use crate::critter::CritterView;
use crate::critter::{
    Critter,
    CLICKED_POSE_TICKS,
    CLICK_BUBBLE_TICKS,
    KISS_TICKS,
    PRI_CLICK,
    PRI_THRESHOLD,
    REACT_TICKS,
    THRESHOLD_BUBBLE_TICKS,
};
use crate::dpi::scale_for_dpi;
use crate::dpi::scale_of;
use crate::forecast::forecast_text;
use crate::forecast::girl_prediction;
use crate::forecast::hhmm;
use crate::forecast::local_hhmm_after;
use crate::forecast::prediction_message;
use crate::forecast::second_of_day_after;
use crate::forecast::{LocalTime, Projection};
use crate::language::LanguageId;
use crate::mood::band_for;
use crate::mood::band_of;
use crate::mood::Band;
use crate::phrases::{Pool, Species};
use crate::position::lemma_whole_pixels_are_singles;
use crate::position::{MAX_X, WIN_LH, WIN_LW};
use crate::rng::rng_next;
use crate::rng::xorshift;
use crate::rng::Rng;
use crate::scene::snapshot;
use crate::scene::snapshot_of;
use crate::scene::Scene;
use crate::scene::SceneView;
use vstd::prelude::*;

verus! {

/// The identifier of the animation timer.
pub const TIMER_ANIM: usize = 101;

/// The animation timer's period.
pub const ANIM_INTERVAL_MS: u32 = 80;

/// Ticks between encouraging remarks.
pub const IDLE_COOLDOWN: u64 = 220;

/// Ticks between forecasts.
pub const PRED_COOLDOWN: u64 = 1800;

/// Where the cat and the girl start: 8 pixels from the left.
pub const START_LEFT: i64 = 134_217_728;

/// Where the dog starts: 8 pixels from the right end of its range.
pub const START_RIGHT: i64 = 2_415_919_104;

// How far a character walks in a tick: 0.55, 0.7 and 0.5 pixels in single precision.
pub const CAT_SPEED: i64 = 9_227_469;

pub const DOG_SPEED: i64 = 11_744_051;

pub const GIRL_SPEED: i64 = 8_388_608;

/// The state of the character window.
#[derive(Debug)]
pub struct CharState {
    pub hwnd: isize,
    pub enabled: bool,
    pub kind: CharacterKind,
    pub lang: LanguageId,
    pub uscale: i32,
    pub win_w: i32,
    pub win_h: i32,
    pub frame: u64,
    pub cat: Critter,
    pub dog: Critter,
    pub girl: Critter,
    pub usage: i32,
    pub last_band: Band,
    pub mood: Band,
    pub last_idle_frame: u64,
    pub last_pred_frame: u64,
    pub tracking_leave: bool,
}

pub ghost struct CharView {
    pub hwnd: int,
    pub enabled: bool,
    pub kind: CharacterKind,
    pub lang: LanguageId,
    pub uscale: int,
    pub win_w: int,
    pub win_h: int,
    pub frame: int,
    pub cat: CritterView,
    pub dog: CritterView,
    pub girl: CritterView,
    pub usage: int,
    pub last_band: Band,
    pub mood: Band,
    pub last_idle_frame: int,
    pub last_pred_frame: int,
    pub tracking_leave: bool,
}

impl View for CharState {
    type V = CharView;

    open spec fn view(&self) -> CharView {
        CharView {
            hwnd: self.hwnd as int,
            enabled: self.enabled,
            kind: self.kind,
            lang: self.lang,
            uscale: self.uscale as int,
            win_w: self.win_w as int,
            win_h: self.win_h as int,
            frame: self.frame as int,
            cat: self.cat@,
            dog: self.dog@,
            girl: self.girl@,
            usage: self.usage as int,
            last_band: self.last_band,
            mood: self.mood,
            last_idle_frame: self.last_idle_frame as int,
            last_pred_frame: self.last_pred_frame as int,
            tracking_leave: self.tracking_leave,
        }
    }
}

impl CharView {
    /// What holds of the window's state at all times.
    pub open spec fn wf(self) -> bool {
        &&& 1 <= self.uscale
        &&& self.win_w == WIN_LW * self.uscale <= i32::MAX
        &&& self.win_h == WIN_LH * self.uscale
        &&& self.cat.wf()
        &&& self.cat.species == Species::Cat
        &&& self.dog.wf()
        &&& self.dog.species == Species::Dog
        &&& self.girl.wf()
        &&& self.girl.species == Species::Girl
    }
}

/// The state, where there is a window.
pub open spec fn seen(state: Option<CharState>) -> Option<CharView> {
    match state {
        Some(s) => Some(s@),
        None => None,
    }
}

/// The state is sound, where there is a window.
pub open spec fn sound(state: Option<CharView>) -> bool {
    state matches Some(s) ==> s.wf()
}

/// Something to be done about the window.
#[derive(Debug)]
pub enum WindowOp {
    /// Show it without activating it.
    Show { hwnd: isize },
    Hide { hwnd: isize },
    /// Start the animation timer.
    StartTimer { hwnd: isize },
    /// Stop the animation timer.
    StopTimer { hwnd: isize },
    /// Put it in its place above all other windows, shown or hidden.
    Place { hwnd: isize, x: i32, y: i32, w: i32, h: i32, visible: bool },
    /// Ask to be told when the mouse leaves it.
    TrackLeave { hwnd: isize },
    Close { hwnd: isize },
    Paint(Scene),
}

pub ghost enum OpView {
    Show { hwnd: int },
    Hide { hwnd: int },
    StartTimer { hwnd: int },
    StopTimer { hwnd: int },
    Place { hwnd: int, x: int, y: int, w: int, h: int, visible: bool },
    TrackLeave { hwnd: int },
    Close { hwnd: int },
    Paint(SceneView),
}

impl View for WindowOp {
    type V = OpView;

    open spec fn view(&self) -> OpView {
        match *self {
            WindowOp::Show { hwnd } => OpView::Show { hwnd: hwnd as int },
            WindowOp::Hide { hwnd } => OpView::Hide { hwnd: hwnd as int },
            WindowOp::StartTimer { hwnd } => OpView::StartTimer { hwnd: hwnd as int },
            WindowOp::StopTimer { hwnd } => OpView::StopTimer { hwnd: hwnd as int },
            WindowOp::Place { hwnd, x, y, w, h, visible } => OpView::Place {
                hwnd: hwnd as int,
                x: x as int,
                y: y as int,
                w: w as int,
                h: h as int,
                visible,
            },
            WindowOp::TrackLeave { hwnd } => OpView::TrackLeave { hwnd: hwnd as int },
            WindowOp::Close { hwnd } => OpView::Close { hwnd: hwnd as int },
            WindowOp::Paint(scene) => OpView::Paint(scene@),
        }
    }
}

/// The views of a list of operations.
pub open spec fn ops_seen(ops: Seq<WindowOp>) -> Seq<OpView> {
    ops.map_values(|op: WindowOp| op@)
}

// ----- painting ---------------------------------------------------------------

/// What the window shows in a state.
pub open spec fn scene_of(s: CharView) -> SceneView {
    SceneView {
        hwnd: s.hwnd,
        win_w: s.win_w,
        win_h: s.win_h,
        u: s.uscale,
        kind: s.kind,
        frame: s.frame,
        usage: s.usage,
        cat: snapshot_of(s.cat, s.mood),
        dog: snapshot_of(s.dog, s.mood),
        girl: snapshot_of(s.girl, s.mood),
    }
}

/// Painting anew, which a disabled window has no need of.
pub open spec fn repaint(s: CharView) -> Seq<OpView> {
    if s.enabled {
        seq![OpView::Paint(scene_of(s))]
    } else {
        seq![]
    }
}

/// What is to be painted, if anything.
pub fn render(s: &CharState) -> (scene: Option<Scene>)
    ensures
        match scene {
            Some(scene) => s.enabled && scene@ == scene_of(s@),
            None => !s.enabled,
        },
{
    if !s.enabled {
        return None;
    }
    Some(
        Scene {
            hwnd: s.hwnd,
            win_w: s.win_w,
            win_h: s.win_h,
            u: s.uscale,
            kind: s.kind,
            frame: s.frame,
            usage: s.usage,
            cat: snapshot(&s.cat, s.mood),
            dog: snapshot(&s.dog, s.mood),
            girl: snapshot(&s.girl, s.mood),
        },
    )
}

fn push_op(ops: &mut Vec<WindowOp>, op: WindowOp)
    ensures
        ops_seen(final(ops)@) == ops_seen(old(ops)@).push(op@),
{
    ops.push(op);
    assert(ops_seen(ops@) =~= ops_seen(old(ops)@).push(op@));
}

fn push_paint(s: &CharState, ops: &mut Vec<WindowOp>)
    ensures
        ops_seen(final(ops)@) == ops_seen(old(ops)@) + repaint(s@),
{
    match render(s) {
        Some(scene) => {
            push_op(ops, WindowOp::Paint(scene));
            assert(ops_seen(ops@) =~= ops_seen(old(ops)@) + repaint(s@));
        },
        None => {
            assert(ops_seen(ops@) =~= ops_seen(old(ops)@) + repaint(s@));
        },
    }
}

fn no_ops() -> (ops: Vec<WindowOp>)
    ensures
        ops_seen(ops@) == Seq::<OpView>::empty(),
{
    let ops: Vec<WindowOp> = Vec::new();
    assert(ops_seen(ops@) =~= Seq::<OpView>::empty());
    ops
}

// ----- settings ---------------------------------------------------------------

/// An event's outcome, which is nothing where there is no window.
pub open spec fn applied(
    state: Option<CharView>,
    event: spec_fn(CharView) -> (CharView, Seq<OpView>),
) -> (Option<CharView>, Seq<OpView>) {
    match state {
        Some(s) => (Some(event(s).0), event(s).1),
        None => (None, seq![]),
    }
}

/// Turning the characters on or off. Once on they are shown, animated and painted.
pub open spec fn enabled_set(s: CharView, enabled: bool) -> (CharView, Seq<OpView>) {
    let s1 = CharView { enabled, ..s };
    if s.enabled == enabled {
        (s, seq![])
    } else if enabled {
        (
            s1,
            seq![OpView::Show { hwnd: s.hwnd }, OpView::StartTimer { hwnd: s.hwnd }] + repaint(s1),
        )
    } else {
        (s1, seq![OpView::StopTimer { hwnd: s.hwnd }, OpView::Hide { hwnd: s.hwnd }])
    }
}

/// Choosing which characters are on show.
pub open spec fn kind_set(s: CharView, kind: CharacterKind) -> (CharView, Seq<OpView>) {
    if s.kind == kind {
        (s, seq![])
    } else {
        (CharView { kind, ..s }, repaint(CharView { kind, ..s }))
    }
}

/// Choosing the language.
pub open spec fn language_set(s: CharView, lang: LanguageId) -> CharView {
    CharView { lang, ..s }
}

/// Choosing the coat of the cat or the dog, of which there are two.
pub open spec fn variant_set(s: CharView, is_cat: bool, variant: int) -> (CharView, Seq<OpView>) {
    let v = variant % 2;
    let s1 = if is_cat {
        CharView { cat: CritterView { variant: v, ..s.cat }, ..s }
    } else {
        CharView { dog: CritterView { variant: v, ..s.dog }, ..s }
    };
    if (if is_cat {
        s.cat.variant
    } else {
        s.dog.variant
    }) == v {
        (s, seq![])
    } else {
        (s1, repaint(s1))
    }
}

/// Putting the window on top of its anchor.
pub open spec fn place_op(s: CharView, anchor: Rect) -> OpView {
    OpView::Place {
        hwnd: s.hwnd,
        x: anchor.left as int,
        y: anchor.top - s.win_h,
        w: s.win_w,
        h: s.win_h,
        visible: s.enabled,
    }
}

fn change_enabled(s: &mut CharState, enabled: bool, ops: &mut Vec<WindowOp>)
    ensures
        final(s)@ == enabled_set(old(s)@, enabled).0,
        ops_seen(final(ops)@) == ops_seen(old(ops)@) + enabled_set(old(s)@, enabled).1,
{
    if s.enabled == enabled {
        assert(ops_seen(ops@) =~= ops_seen(old(ops)@) + enabled_set(old(s)@, enabled).1);
        return;
    }
    s.enabled = enabled;
    let hwnd: isize = s.hwnd;
    if enabled {
        push_op(ops, WindowOp::Show { hwnd });
        push_op(ops, WindowOp::StartTimer { hwnd });
        push_paint(s, ops);
    } else {
        push_op(ops, WindowOp::StopTimer { hwnd });
        push_op(ops, WindowOp::Hide { hwnd });
    }
    assert(ops_seen(ops@) =~= ops_seen(old(ops)@) + enabled_set(old(s)@, enabled).1);
}

fn change_kind(s: &mut CharState, kind: CharacterKind, ops: &mut Vec<WindowOp>)
    ensures
        final(s)@ == kind_set(old(s)@, kind).0,
        ops_seen(final(ops)@) == ops_seen(old(ops)@) + kind_set(old(s)@, kind).1,
{
    if s.kind == kind {
        assert(ops_seen(ops@) =~= ops_seen(old(ops)@) + kind_set(old(s)@, kind).1);
        return;
    }
    s.kind = kind;
    push_paint(s, ops);
}

fn change_variant(s: &mut CharState, is_cat: bool, variant: u8, ops: &mut Vec<WindowOp>)
    ensures
        final(s)@ == variant_set(old(s)@, is_cat, variant as int).0,
        ops_seen(final(ops)@) == ops_seen(old(ops)@) + variant_set(
            old(s)@,
            is_cat,
            variant as int,
        ).1,
{
    assert(variant & 1 == variant % 2) by (bit_vector);
    let v: u8 = variant & 1;
    let worn: u8 = if is_cat {
        s.cat.variant
    } else {
        s.dog.variant
    };
    if worn == v {
        assert(ops_seen(ops@) =~= ops_seen(old(ops)@) + variant_set(
            old(s)@,
            is_cat,
            variant as int,
        ).1);
        return;
    }
    if is_cat {
        s.cat.variant = v;
    } else {
        s.dog.variant = v;
    }
    push_paint(s, ops);
}

fn put_in_place(s: &CharState, anchor: Rect, ops: &mut Vec<WindowOp>)
    requires
        anchor.top - s.win_h >= i32::MIN,
        0 <= s.win_h,
    ensures
        ops_seen(final(ops)@) == ops_seen(old(ops)@).push(place_op(s@, anchor)),
{
    push_op(
        ops,
        WindowOp::Place {
            hwnd: s.hwnd,
            x: anchor.left,
            y: anchor.top - s.win_h,
            w: s.win_w,
            h: s.win_h,
            visible: s.enabled,
        },
    );
}

/// Turns the characters on or off.
pub fn set_enabled(state: &mut Option<CharState>, enabled: bool) -> (ops: Vec<WindowOp>)
    ensures
        (seen(*final(state)), ops_seen(ops@)) == applied(
            seen(*old(state)),
            |s: CharView| enabled_set(s, enabled),
        ),
        sound(seen(*old(state))) ==> sound(seen(*final(state))),
{
    let mut ops: Vec<WindowOp> = no_ops();
    if let Some(s) = state {
        change_enabled(s, enabled, &mut ops);
    }
    ops
}

/// Chooses which characters are on show.
pub fn set_kind(state: &mut Option<CharState>, kind: CharacterKind) -> (ops: Vec<WindowOp>)
    ensures
        (seen(*final(state)), ops_seen(ops@)) == applied(
            seen(*old(state)),
            |s: CharView| kind_set(s, kind),
        ),
        sound(seen(*old(state))) ==> sound(seen(*final(state))),
{
    let mut ops: Vec<WindowOp> = no_ops();
    if let Some(s) = state {
        change_kind(s, kind, &mut ops);
    }
    ops
}

/// Chooses the language that the characters speak from now on.
pub fn set_language(state: &mut Option<CharState>, lang: LanguageId)
    ensures
        seen(*final(state)) == match seen(*old(state)) {
            Some(s) => Some(language_set(s, lang)),
            None => None,
        },
        sound(seen(*old(state))) ==> sound(seen(*final(state))),
{
    if let Some(s) = state {
        s.lang = lang;
    }
}

/// Chooses the coat of the cat or the dog: the lowest bit of `variant` counts.
pub fn set_variant(state: &mut Option<CharState>, is_cat: bool, variant: u8) -> (ops: Vec<WindowOp>)
    ensures
        (seen(*final(state)), ops_seen(ops@)) == applied(
            seen(*old(state)),
            |s: CharView| variant_set(s, is_cat, variant as int),
        ),
        sound(seen(*old(state))) ==> sound(seen(*final(state))),
{
    let mut ops: Vec<WindowOp> = no_ops();
    if let Some(s) = state {
        change_variant(s, is_cat, variant, &mut ops);
    }
    ops
}

/// Puts the window on top of its anchor.
pub fn reposition(state: &Option<CharState>, anchor: Rect) -> (ops: Vec<WindowOp>)
    requires
        sound(seen(*state)),
        state matches Some(s) ==> anchor.top - s.win_h >= i32::MIN,
    ensures
        ops_seen(ops@) == match seen(*state) {
            Some(s) => seq![place_op(s, anchor)],
            None => seq![],
        },
{
    let mut ops: Vec<WindowOp> = no_ops();
    if let Some(s) = state {
        put_in_place(s, anchor, &mut ops);
        assert(ops_seen(ops@) =~= seq![place_op(s@, anchor)]);
    }
    ops
}

/// The cat's coat, 0 where there is no window.
pub fn cat_variant(state: &Option<CharState>) -> (v: u8)
    ensures
        v == match seen(*state) {
            Some(s) => s.cat.variant,
            None => 0,
        },
{
    match state {
        Some(s) => s.cat.variant,
        None => 0,
    }
}

/// The dog's coat, 0 where there is no window.
pub fn dog_variant(state: &Option<CharState>) -> (v: u8)
    ensures
        v == match seen(*state) {
            Some(s) => s.dog.variant,
            None => 0,
        },
{
    match state {
        Some(s) => s.dog.variant,
        None => 0,
    }
}

pub fn is_enabled(state: &Option<CharState>) -> (b: bool)
    ensures
        b == match seen(*state) {
            Some(s) => s.enabled,
            None => false,
        },
{
    match state {
        Some(s) => s.enabled,
        None => false,
    }
}

/// The characters on show, the cat where there is no window.
pub fn current_kind(state: &Option<CharState>) -> (kind: CharacterKind)
    ensures
        kind == match seen(*state) {
            Some(s) => s.kind,
            None => CharacterKind::Cat,
        },
{
    match state {
        Some(s) => s.kind,
        None => CharacterKind::Cat,
    }
}

/// Forgets the window, and has it closed.
pub fn destroy(state: &mut Option<CharState>) -> (ops: Vec<WindowOp>)
    ensures
        *final(state) is None,
        ops_seen(ops@) == match seen(*old(state)) {
            Some(s) => seq![OpView::StopTimer { hwnd: s.hwnd }, OpView::Close { hwnd: s.hwnd }],
            None => seq![],
        },
{
    let mut ops: Vec<WindowOp> = no_ops();
    match state.take() {
        Some(s) => {
            push_op(&mut ops, WindowOp::StopTimer { hwnd: s.hwnd });
            push_op(&mut ops, WindowOp::Close { hwnd: s.hwnd });
            assert(ops_seen(ops@) =~= seq![
                OpView::StopTimer { hwnd: s.hwnd as int },
                OpView::Close { hwnd: s.hwnd as int },
            ]);
        },
        None => {},
    }
    ops
}

// ----- start ------------------------------------------------------------------

/// A window that has just been created, and the resolution of its display.
#[derive(Clone, Copy, Debug, PartialEq, Eq, Structural)]
pub struct NewWindow {
    pub hwnd: isize,
    pub dpi: u32,
}

/// The state that a window starts in.
pub open spec fn started(
    win: NewWindow,
    enabled: bool,
    kind: CharacterKind,
    cat_variant: int,
    dog_variant: int,
    lang: LanguageId,
) -> CharView {
    let u = scale_of(win.dpi as int);
    CharView {
        hwnd: win.hwnd as int,
        enabled,
        kind,
        lang,
        uscale: u,
        win_w: WIN_LW * u,
        win_h: WIN_LH * u,
        frame: 0,
        cat: fresh(Species::Cat, cat_variant % 2, START_LEFT as int, 1),
        dog: fresh(Species::Dog, dog_variant % 2, START_RIGHT as int, -1),
        girl: fresh(Species::Girl, 0, START_LEFT as int, 1),
        usage: 0,
        last_band: Band::Low,
        mood: Band::Low,
        last_idle_frame: 0,
        last_pred_frame: 0,
        tracking_leave: false,
    }
}

/// What is to be done about a window that starts.
pub open spec fn start_ops(s: CharView, anchor: Rect) -> Seq<OpView> {
    seq![place_op(s, anchor)] + (if s.enabled {
        seq![OpView::Show { hwnd: s.hwnd }, OpView::StartTimer { hwnd: s.hwnd }]
    } else {
        seq![]
    }) + repaint(s)
}

/// Bringing a window that is there up to date: kind, coats, language and whether it is on are set
/// one after the other, then it is put in its place.
pub open spec fn refreshed(
    s: CharView,
    anchor: Rect,
    enabled: bool,
    kind: CharacterKind,
    cat_variant: int,
    dog_variant: int,
    lang: LanguageId,
) -> (CharView, Seq<OpView>) {
    let (s1, o1) = kind_set(s, kind);
    let (s2, o2) = variant_set(s1, true, cat_variant);
    let (s3, o3) = variant_set(s2, false, dog_variant);
    let (s4, o4) = enabled_set(language_set(s3, lang), enabled);
    (s4, (o1 + o2 + o3 + o4).push(place_op(s4, anchor)))
}

/// The window's height in device pixels after a start: that of the window that is there, or of the
/// new one.
pub open spec fn height_after_init(state: Option<CharView>, window: Option<NewWindow>) -> int {
    match state {
        Some(s) => s.win_h,
        None => match window {
            Some(win) => WIN_LH * scale_of(win.dpi as int),
            None => 0,
        },
    }
}

#[verifier::rlimit(40)]
fn refresh(
    s: &mut CharState,
    anchor: Rect,
    enabled: bool,
    kind: CharacterKind,
    cat_variant: u8,
    dog_variant: u8,
    lang: LanguageId,
) -> (ops: Vec<WindowOp>)
    requires
        old(s)@.wf(),
        anchor.top - old(s).win_h >= i32::MIN,
    ensures
        (final(s)@, ops_seen(ops@)) == refreshed(
            old(s)@,
            anchor,
            enabled,
            kind,
            cat_variant as int,
            dog_variant as int,
            lang,
        ),
        final(s)@.wf(),
{
    let mut ops: Vec<WindowOp> = no_ops();
    change_kind(s, kind, &mut ops);
    change_variant(s, true, cat_variant, &mut ops);
    change_variant(s, false, dog_variant, &mut ops);
    s.lang = lang;
    change_enabled(s, enabled, &mut ops);
    put_in_place(s, anchor, &mut ops);
    assert(ops_seen(ops@) =~= refreshed(
        old(s)@,
        anchor,
        enabled,
        kind,
        cat_variant as int,
        dog_variant as int,
        lang,
    ).1);
    ops
}

fn start(
    win: NewWindow,
    enabled: bool,
    kind: CharacterKind,
    cat_variant: u8,
    dog_variant: u8,
    lang: LanguageId,
) -> (s: CharState)
    requires
        win.dpi <= i32::MAX - 48 || win.dpi > i32::MAX,
        WIN_LW * scale_of(win.dpi as int) <= i32::MAX,
    ensures
        s@ == started(win, enabled, kind, cat_variant as int, dog_variant as int, lang),
        s@.wf(),
{
    let u: i32 = scale_for_dpi(win.dpi);
    assert(cat_variant & 1 == cat_variant % 2) by (bit_vector);
    assert(dog_variant & 1 == dog_variant % 2) by (bit_vector);
    proof {
        lemma_whole_pixels_are_singles(8);
        lemma_whole_pixels_are_singles(144);
    }
    CharState {
        hwnd: win.hwnd,
        enabled,
        kind,
        lang,
        uscale: u,
        win_w: WIN_LW * u,
        win_h: WIN_LH * u,
        frame: 0,
        cat: Critter::new(Species::Cat, cat_variant & 1, START_LEFT, 1),
        dog: Critter::new(Species::Dog, dog_variant & 1, START_RIGHT, -1),
        girl: Critter::new(Species::Girl, 0, START_LEFT, 1),
        usage: 0,
        last_band: Band::Low,
        mood: Band::Low,
        last_idle_frame: 0,
        last_pred_frame: 0,
        tracking_leave: false,
    }
}

fn open_window(s: &CharState, anchor: Rect) -> (ops: Vec<WindowOp>)
    requires
        s@.wf(),
        anchor.top - s.win_h >= i32::MIN,
    ensures
        ops_seen(ops@) == start_ops(s@, anchor),
{
    let mut ops: Vec<WindowOp> = no_ops();
    put_in_place(s, anchor, &mut ops);
    if s.enabled {
        push_op(&mut ops, WindowOp::Show { hwnd: s.hwnd });
        push_op(&mut ops, WindowOp::StartTimer { hwnd: s.hwnd });
        push_paint(s, &mut ops);
    }
    assert(ops_seen(ops@) =~= start_ops(s@, anchor));
    ops
}

/// Starts with a newly created window, or brings the window that is there up to date. Where there
/// is no window and none could be created, nothing happens.
pub fn init(
    state: &mut Option<CharState>,
    window: Option<NewWindow>,
    anchor: Rect,
    enabled: bool,
    kind: CharacterKind,
    cat_variant: u8,
    dog_variant: u8,
    lang: LanguageId,
) -> (ops: Vec<WindowOp>)
    requires
        sound(seen(*old(state))),
        *old(state) is None && window is Some ==> {
            &&& window->0.dpi <= i32::MAX - 48 || window->0.dpi > i32::MAX
            &&& WIN_LW * scale_of(window->0.dpi as int) <= i32::MAX
        },
        anchor.top - height_after_init(seen(*old(state)), window) >= i32::MIN,
    ensures
        (seen(*final(state)), ops_seen(ops@)) == match seen(*old(state)) {
            Some(s) => {
                let r = refreshed(
                    s,
                    anchor,
                    enabled,
                    kind,
                    cat_variant as int,
                    dog_variant as int,
                    lang,
                );
                (Some(r.0), r.1)
            },
            None => match window {
                Some(win) => {
                    let s = started(
                        win,
                        enabled,
                        kind,
                        cat_variant as int,
                        dog_variant as int,
                        lang,
                    );
                    (Some(s), start_ops(s, anchor))
                },
                None => (None, seq![]),
            },
        },
        sound(seen(*final(state))),
{
    match state {
        Some(s) => {
            return refresh(s, anchor, enabled, kind, cat_variant, dog_variant, lang);
        },
        None => {},
    }
    match window {
        Some(win) => {
            let s: CharState = start(win, enabled, kind, cat_variant, dog_variant, lang);
            let ops: Vec<WindowOp> = open_window(&s, anchor);
            *state = Some(s);
            ops
        },
        None => no_ops(),
    }
}

// ----- usage ------------------------------------------------------------------

/// A change of every character on show.
pub open spec fn all_shown(s: CharView, change: spec_fn(CritterView) -> CritterView) -> CharView {
    CharView {
        cat: if s.kind.has_cat() {
            change(s.cat)
        } else {
            s.cat
        },
        dog: if s.kind.has_dog() {
            change(s.dog)
        } else {
            s.dog
        },
        girl: if s.kind.has_girl() {
            change(s.girl)
        } else {
            s.girl
        },
        ..s
    }
}

/// A change of every character on show that takes chance in, the cat first, then the dog, then the girl.
pub open spec fn each_shown(
    s: CharView,
    rng: u64,
    change: spec_fn(CritterView, u64) -> (CritterView, u64),
) -> (CharView, u64) {
    let (cat, r1) = if s.kind.has_cat() {
        change(s.cat, rng)
    } else {
        (s.cat, rng)
    };
    let (dog, r2) = if s.kind.has_dog() {
        change(s.dog, r1)
    } else {
        (s.dog, r1)
    };
    let (girl, r3) = if s.kind.has_girl() {
        change(s.girl, r2)
    } else {
        (s.girl, r2)
    };
    (CharView { cat, dog, girl, ..s }, r3)
}

/// What a new band calls for: the pool to speak from and whether the characters startle. Reaching a
/// worse band is warned of once, coming back to the low band is praised once.
pub open spec fn band_change(last: Band, band: Band) -> Option<(Pool, bool)> {
    if band == Band::Urgent && last != Band::Urgent {
        Some((Pool::Urgent, true))
    } else if band == Band::Soft && last == Band::Low {
        Some((Pool::Soft, true))
    } else if band == Band::Low && last != Band::Low {
        Some((Pool::Rest, false))
    } else {
        None
    }
}

/// A character that makes an announcement, startled or not.
pub open spec fn announced(
    c: CritterView,
    rng: u64,
    lang: LanguageId,
    pool: Pool,
    startled: bool,
) -> (CritterView, u64) {
    let (c1, r1) = spoke(
        c,
        rng,
        lang,
        pool,
        THRESHOLD_BUBBLE_TICKS as int,
        PRI_THRESHOLD as int,
    );
    (
        if startled {
            CritterView { react_ticks: REACT_TICKS as int, ..c1 }
        } else {
            c1
        },
        r1,
    )
}

/// An announcement by every character on show.
pub open spec fn all_announced(s: CharView, rng: u64, pool: Pool, startled: bool) -> (
    CharView,
    u64,
) {
    each_shown(
        s,
        rng,
        |c: CritterView, r: u64| announced(c, r, s.lang, pool, startled),
    )
}

/// Whether the session will run out before it resets, and it is time to say so: the session is
/// neither too fresh to judge nor all but over, and the last forecast is long enough ago.
pub open spec fn forecast_due(
    s: CharView,
    session_percent: int,
    projection: Option<Projection>,
) -> bool {
    &&& 25 <= session_percent < 95
    &&& projection is Some
    &&& projection->0.secs_to_full < projection->0.secs_to_reset
    &&& ticks_since(s.frame, s.last_pred_frame) >= PRED_COOLDOWN
}

/// A character that makes a forecast.
pub open spec fn forecast_made(c: CritterView, lang: LanguageId, at: Seq<char>) -> CritterView {
    bubbled(
        c,
        forecast_text(lang, c.species, at),
        THRESHOLD_BUBBLE_TICKS as int,
        PRI_CLICK as int,
    )
}

/// A forecast by every character on show, if one is due.
pub open spec fn forecasted(
    s: CharView,
    session_percent: int,
    projection: Option<Projection>,
    now: LocalTime,
) -> CharView {
    if forecast_due(s, session_percent, projection) {
        let at = hhmm(second_of_day_after(now, projection->0.secs_to_full as int));
        all_shown(
            CharView { last_pred_frame: s.frame, ..s },
            |c: CritterView| forecast_made(c, s.lang, at),
        )
    } else {
        s
    }
}

/// The state and the generator after a report of usage.
pub open spec fn usage_updated(
    s: CharView,
    rng: u64,
    max_percent: int,
    session_percent: int,
    projection: Option<Projection>,
    now: LocalTime,
    lang: LanguageId,
) -> (CharView, u64) {
    let s0 = CharView { lang, usage: max_percent, ..s };
    if !s.enabled {
        (s0, rng)
    } else {
        let band = band_of(max_percent);
        let s1 = CharView { mood: band, last_band: band, ..s0 };
        match band_change(s.last_band, band) {
            Some((pool, startled)) => all_announced(s1, rng, pool, startled),
            None => {
                if s.last_band == Band::Low && band == Band::Low && ticks_since(
                    s.frame,
                    s.last_idle_frame,
                ) >= IDLE_COOLDOWN {
                    // Now and then, a kind word.
                    let drawn = xorshift(rng);
                    if drawn % 4 == 0 {
                        all_announced(
                            CharView { last_idle_frame: s.frame, ..s1 },
                            drawn,
                            Pool::Encourage,
                            false,
                        )
                    } else {
                        (forecasted(s1, session_percent, projection, now), drawn)
                    }
                } else {
                    (forecasted(s1, session_percent, projection, now), rng)
                }
            },
        }
    }
}

fn announce(c: &mut Critter, rng: &mut Rng, lang: LanguageId, pool: Pool, startled: bool)
    requires
        old(c)@.wf(),
    ensures
        (final(c)@, final(rng)@) == announced(old(c)@, old(rng)@, lang, pool, startled),
        final(c)@.wf(),
        final(c)@.species == old(c)@.species,
{
    proof {
        lemma_spoke(
            c@,
            rng@,
            lang,
            pool,
            THRESHOLD_BUBBLE_TICKS as int,
            PRI_THRESHOLD as int,
        );
    }
    say(c, rng, lang, pool, THRESHOLD_BUBBLE_TICKS, PRI_THRESHOLD);
    if startled {
        c.react_ticks = REACT_TICKS;
    }
}

#[verifier::rlimit(40)]
fn announce_all(s: &mut CharState, rng: &mut Rng, pool: Pool, startled: bool)
    requires
        old(s)@.wf(),
    ensures
        (final(s)@, final(rng)@) == all_announced(old(s)@, old(rng)@, pool, startled),
        final(s)@.wf(),
{
    let lang: LanguageId = s.lang;
    let kind: CharacterKind = s.kind;
    if kind.shows_cat() {
        announce(&mut s.cat, rng, lang, pool, startled);
    }
    if kind.shows_dog() {
        announce(&mut s.dog, rng, lang, pool, startled);
    }
    if kind.shows_girl() {
        announce(&mut s.girl, rng, lang, pool, startled);
    }
}

fn make_forecast(c: &mut Critter, lang: LanguageId, at: &String)
    requires
        old(c)@.wf(),
        at@.len() > 0,
    ensures
        final(c)@ == forecast_made(old(c)@, lang, at@),
        final(c)@.wf(),
        final(c)@.species == old(c)@.species,
{
    let text: String = match c.species {
        Species::Cat => prediction_message(lang, true, at.as_str()),
        Species::Dog => prediction_message(lang, false, at.as_str()),
        Species::Girl => girl_prediction(lang, at.as_str()),
    };
    set_bubble(c, text, THRESHOLD_BUBBLE_TICKS, PRI_CLICK);
}

fn forecast_if_due(
    s: &mut CharState,
    session_percent: i32,
    projection: Option<Projection>,
    now: LocalTime,
)
    requires
        old(s)@.wf(),
    ensures
        final(s)@ == forecasted(old(s)@, session_percent as int, projection, now),
        final(s)@.wf(),
{
    if session_percent >= 25 && session_percent < 95 {
        if let Some(p) = projection {
            if p.secs_to_full < p.secs_to_reset && s.frame.saturating_sub(s.last_pred_frame)
                >= PRED_COOLDOWN {
                s.last_pred_frame = s.frame;
                let at: String = local_hhmm_after(now, p.secs_to_full);
                let lang: LanguageId = s.lang;
                let kind: CharacterKind = s.kind;
                if kind.shows_cat() {
                    make_forecast(&mut s.cat, lang, &at);
                }
                if kind.shows_dog() {
                    make_forecast(&mut s.dog, lang, &at);
                }
                if kind.shows_girl() {
                    make_forecast(&mut s.girl, lang, &at);
                }
            }
        }
    }
}

fn update_usage(
    s: &mut CharState,
    rng: &mut Rng,
    max_percent: i32,
    session_percent: i32,
    projection: Option<Projection>,
    now: LocalTime,
    lang: LanguageId,
)
    requires
        old(s)@.wf(),
    ensures
        (final(s)@, final(rng)@) == usage_updated(
            old(s)@,
            old(rng)@,
            max_percent as int,
            session_percent as int,
            projection,
            now,
            lang,
        ),
        final(s)@.wf(),
{
    s.lang = lang;
    s.usage = max_percent;
    if !s.enabled {
        return;
    }
    let band: Band = band_for(max_percent);
    s.mood = band;
    let last: Band = s.last_band;
    s.last_band = band;
    match (last, band) {
        (Band::Low, Band::Urgent) | (Band::Soft, Band::Urgent) => {
            announce_all(s, rng, Pool::Urgent, true);
        },
        (Band::Low, Band::Soft) => {
            announce_all(s, rng, Pool::Soft, true);
        },
        (Band::Soft, Band::Low) | (Band::Urgent, Band::Low) => {
            announce_all(s, rng, Pool::Rest, false);
        },
        (Band::Low, Band::Low) => {
            if s.frame.saturating_sub(s.last_idle_frame) >= IDLE_COOLDOWN {
                let drawn: u64 = rng_next(rng);
                if drawn % 4 == 0 {
                    s.last_idle_frame = s.frame;
                    announce_all(s, rng, Pool::Encourage, false);
                    return;
                }
            }
            forecast_if_due(s, session_percent, projection, now);
        },
        (Band::Soft, Band::Soft) | (Band::Urgent, Band::Soft) | (Band::Urgent, Band::Urgent) => {
            forecast_if_due(s, session_percent, projection, now);
        },
    }
}

/// Takes in a report of usage: `max_percent` of the nearest limit sets the mood and the warnings,
/// `session_percent` and `projection` say how the session is going, `now` is the local time.
pub fn on_usage_update(
    state: &mut Option<CharState>,
    rng: &mut Rng,
    max_percent: i32,
    session_percent: i32,
    projection: Option<Projection>,
    now: LocalTime,
    lang: LanguageId,
)
    requires
        sound(seen(*old(state))),
    ensures
        (seen(*final(state)), final(rng)@) == match seen(*old(state)) {
            Some(s) => {
                let r = usage_updated(
                    s,
                    old(rng)@,
                    max_percent as int,
                    session_percent as int,
                    projection,
                    now,
                    lang,
                );
                (Some(r.0), r.1)
            },
            None => (None, old(rng)@),
        },
        sound(seen(*final(state))),
{
    if let Some(s) = state {
        update_usage(s, rng, max_percent, session_percent, projection, now, lang);
    }
}

// ----- mouse and time ---------------------------------------------------------

/// A 16-bit word read as a signed number.
pub open spec fn signed_word(n: int) -> int {
    if n >= 0x8000 {
        n - 0x1_0000
    } else {
        n
    }
}

/// The point that a mouse message carries: its column in the lowest word of `lparam`, its row in
/// the word above, both signed.
pub fn mouse_point(lparam: i64) -> (p: (i32, i32))
    ensures
        p.0 == signed_word(lparam as int % 0x1_0000),
        p.1 == signed_word(lparam as int / 0x1_0000 % 0x1_0000),
{
    assert(lparam & 0xFFFF == lparam % 0x1_0000) by (bit_vector);
    assert((lparam >> 16) & 0xFFFF == lparam / 0x1_0000 % 0x1_0000) by (bit_vector);
    let x: i32 = (lparam & 0xFFFF) as i32;
    let y: i32 = ((lparam >> 16) & 0xFFFF) as i32;
    (
        if x >= 0x8000 {
            x - 0x1_0000
        } else {
            x
        },
        if y >= 0x8000 {
            y - 0x1_0000
        } else {
            y
        },
    )
}

/// Whether the mouse at a point comes onto or leaves a character on show.
pub open spec fn hover_changes(s: CharView, x: int, y: int) -> bool {
    ||| s.kind.has_cat() && is_over(s.cat, s.uscale, x, y) != s.cat.hovering
    ||| s.kind.has_dog() && is_over(s.dog, s.uscale, x, y) != s.dog.hovering
    ||| s.kind.has_girl() && is_over(s.girl, s.uscale, x, y) != s.girl.hovering
}

/// The mouse at a point of the window `hwnd`. From the first such event on the caller is asked to
/// report when the mouse leaves.
pub open spec fn mouse_moved(s: CharView, hwnd: int, x: int, y: int) -> (CharView, Seq<OpView>) {
    let s1 = all_shown(
        CharView { tracking_leave: true, ..s },
        |c: CritterView| hovered(c, is_over(c, s.uscale, x, y), s.frame),
    );
    (
        s1,
        (if s.tracking_leave {
            seq![]
        } else {
            seq![OpView::TrackLeave { hwnd }]
        }) + (if hover_changes(s, x, y) {
            repaint(s1)
        } else {
            seq![]
        }),
    )
}

/// The mouse gone from the window: no character is under it any more, on show or not.
pub open spec fn mouse_left(s: CharView) -> (CharView, Seq<OpView>) {
    let s1 = CharView {
        tracking_leave: false,
        cat: hovered(s.cat, false, s.frame),
        dog: hovered(s.dog, false, s.frame),
        girl: hovered(s.girl, false, s.frame),
        ..s
    };
    (
        s1,
        if s.cat.hovering || s.dog.hovering || s.girl.hovering {
            repaint(s1)
        } else {
            seq![]
        },
    )
}

/// A character that was clicked: the cat and the dog hop, the girl blows a kiss, and each has
/// something to say.
pub open spec fn struck(c: CritterView, rng: u64, lang: LanguageId) -> (CritterView, u64) {
    spoke(
        if c.species == Species::Girl {
            CritterView { kiss: KISS_TICKS as int, kiss_max: KISS_TICKS as int, ..c }
        } else {
            CritterView { clicked_ticks: CLICKED_POSE_TICKS as int, ..c }
        },
        rng,
        lang,
        Pool::Click,
        CLICK_BUBBLE_TICKS as int,
        PRI_CLICK as int,
    )
}

/// Whether a point hits a character on show.
pub open spec fn hits(s: CharView, x: int, y: int) -> bool {
    ||| s.kind.has_cat() && is_over(s.cat, s.uscale, x, y)
    ||| s.kind.has_dog() && is_over(s.dog, s.uscale, x, y)
    ||| s.kind.has_girl() && is_over(s.girl, s.uscale, x, y)
}

/// A click at a point, which strikes every character on show there.
pub open spec fn clicked(s: CharView, rng: u64, x: int, y: int) -> (CharView, u64, Seq<OpView>) {
    let (s1, r1) = each_shown(
        s,
        rng,
        |c: CritterView, r: u64|
            if is_over(c, s.uscale, x, y) {
                struck(c, r, s.lang)
            } else {
                (c, r)
            },
    );
    (
        s1,
        r1,
        if hits(s, x, y) {
            repaint(s1)
        } else {
            seq![]
        },
    )
}

/// How far a character walks in a tick.
pub open spec fn speed_of(species: Species) -> int {
    match species {
        Species::Cat => CAT_SPEED as int,
        Species::Dog => DOG_SPEED as int,
        Species::Girl => GIRL_SPEED as int,
    }
}

/// An animation tick, of which a disabled window takes no notice. The frame counter wraps.
pub open spec fn ticked(s: CharView, rng: u64) -> (CharView, u64, Seq<OpView>) {
    if s.enabled {
        let frame = (s.frame + 1) % 0x1_0000_0000_0000_0000;
        let (s1, r1) = each_shown(
            CharView { frame, ..s },
            rng,
            |c: CritterView, r: u64| stepped(
                c,
                r,
                frame,
                s.lang,
                MAX_X as int,
                speed_of(c.species),
            ),
        );
        (s1, r1, repaint(s1))
    } else {
        (s, rng, seq![])
    }
}

/// The mouse has moved to a point of the window `hwnd`.
pub fn on_mouse_move(state: &mut Option<CharState>, hwnd: isize, x: i32, y: i32) -> (ops: Vec<
    WindowOp,
>)
    requires
        sound(seen(*old(state))),
    ensures
        (seen(*final(state)), ops_seen(ops@)) == applied(
            seen(*old(state)),
            |s: CharView| mouse_moved(s, hwnd as int, x as int, y as int),
        ),
        sound(seen(*final(state))),
{
    let mut ops: Vec<WindowOp> = no_ops();
    if let Some(s) = state {
        move_mouse(s, hwnd, x, y, &mut ops);
        assert(ops_seen(ops@) =~= applied(
            seen(*old(state)),
            |s: CharView| mouse_moved(s, hwnd as int, x as int, y as int),
        ).1);
    }
    ops
}

#[verifier::rlimit(40)]
fn move_mouse(s: &mut CharState, hwnd: isize, x: i32, y: i32, ops: &mut Vec<WindowOp>)
    requires
        old(s)@.wf(),
    ensures
        final(s)@ == mouse_moved(old(s)@, hwnd as int, x as int, y as int).0,
        ops_seen(final(ops)@) == ops_seen(old(ops)@) + mouse_moved(
            old(s)@,
            hwnd as int,
            x as int,
            y as int,
        ).1,
        final(s)@.wf(),
{
    if !s.tracking_leave {
        push_op(ops, WindowOp::TrackLeave { hwnd });
        s.tracking_leave = true;
    }
    let u: i32 = s.uscale;
    let frame: u64 = s.frame;
    let kind: CharacterKind = s.kind;
    let mut changed: bool = false;
    if kind.shows_cat() {
        let over: bool = point_in(&s.cat, u, x, y);
        let news: bool = update_hover(&mut s.cat, over, frame);
        changed = changed || news;
    }
    if kind.shows_dog() {
        let over: bool = point_in(&s.dog, u, x, y);
        let news: bool = update_hover(&mut s.dog, over, frame);
        changed = changed || news;
    }
    if kind.shows_girl() {
        let over: bool = point_in(&s.girl, u, x, y);
        let news: bool = update_hover(&mut s.girl, over, frame);
        changed = changed || news;
    }
    if changed {
        push_paint(s, ops);
    }
    assert(ops_seen(ops@) =~= ops_seen(old(ops)@) + mouse_moved(
        old(s)@,
        hwnd as int,
        x as int,
        y as int,
    ).1);
}

/// The mouse has left the window.
pub fn on_mouse_leave(state: &mut Option<CharState>) -> (ops: Vec<WindowOp>)
    requires
        sound(seen(*old(state))),
    ensures
        (seen(*final(state)), ops_seen(ops@)) == applied(
            seen(*old(state)),
            |s: CharView| mouse_left(s),
        ),
        sound(seen(*final(state))),
{
    let mut ops: Vec<WindowOp> = no_ops();
    if let Some(s) = state {
        s.tracking_leave = false;
        let frame: u64 = s.frame;
        let a: bool = update_hover(&mut s.cat, false, frame);
        let b: bool = update_hover(&mut s.dog, false, frame);
        let c: bool = update_hover(&mut s.girl, false, frame);
        if a || b || c {
            push_paint(s, &mut ops);
        }
        assert(ops_seen(ops@) =~= applied(seen(*old(state)), |s: CharView| mouse_left(s)).1);
    }
    ops
}

fn strike(c: &mut Critter, rng: &mut Rng, lang: LanguageId)
    requires
        old(c)@.wf(),
    ensures
        (final(c)@, final(rng)@) == struck(old(c)@, old(rng)@, lang),
        final(c)@.wf(),
        final(c)@.species == old(c)@.species,
{
    if c.species == Species::Girl {
        c.kiss = KISS_TICKS;
        c.kiss_max = KISS_TICKS;
    } else {
        c.clicked_ticks = CLICKED_POSE_TICKS;
    }
    proof {
        lemma_spoke(c@, rng@, lang, Pool::Click, CLICK_BUBBLE_TICKS as int, PRI_CLICK as int);
    }
    say(c, rng, lang, Pool::Click, CLICK_BUBBLE_TICKS, PRI_CLICK);
}

#[verifier::rlimit(40)]
fn click(s: &mut CharState, rng: &mut Rng, x: i32, y: i32) -> (hit: bool)
    requires
        old(s)@.wf(),
    ensures
        final(s)@ == clicked(old(s)@, old(rng)@, x as int, y as int).0,
        final(rng)@ == clicked(old(s)@, old(rng)@, x as int, y as int).1,
        hit == hits(old(s)@, x as int, y as int),
        final(s)@.wf(),
{
    let u: i32 = s.uscale;
    let kind: CharacterKind = s.kind;
    let lang: LanguageId = s.lang;
    let mut hit: bool = false;
    if kind.shows_cat() && point_in(&s.cat, u, x, y) {
        strike(&mut s.cat, rng, lang);
        hit = true;
    }
    if kind.shows_dog() && point_in(&s.dog, u, x, y) {
        strike(&mut s.dog, rng, lang);
        hit = true;
    }
    if kind.shows_girl() && point_in(&s.girl, u, x, y) {
        strike(&mut s.girl, rng, lang);
        hit = true;
    }
    hit
}

/// The mouse was clicked at a point of the window.
pub fn on_click(state: &mut Option<CharState>, rng: &mut Rng, x: i32, y: i32) -> (ops: Vec<WindowOp>)
    requires
        sound(seen(*old(state))),
    ensures
        (seen(*final(state)), final(rng)@, ops_seen(ops@)) == match seen(*old(state)) {
            Some(s) => {
                let r = clicked(s, old(rng)@, x as int, y as int);
                (Some(r.0), r.1, r.2)
            },
            None => (None, old(rng)@, seq![]),
        },
        sound(seen(*final(state))),
{
    let mut ops: Vec<WindowOp> = no_ops();
    if let Some(s) = state {
        let ghost before = s@;
        let hit: bool = click(s, rng, x, y);
        if hit {
            push_paint(s, &mut ops);
        }
        assert(ops_seen(ops@) =~= clicked(before, old(rng)@, x as int, y as int).2);
    }
    ops
}

#[verifier::rlimit(40)]
fn step_all(s: &mut CharState, rng: &mut Rng)
    requires
        old(s)@.wf(),
        old(s).enabled,
    ensures
        final(s)@ == ticked(old(s)@, old(rng)@).0,
        final(rng)@ == ticked(old(s)@, old(rng)@).1,
        final(s)@.wf(),
{
    proof {
        lemma_whole_pixels_are_singles(152);
    }
    s.frame = s.frame.wrapping_add(1);
    let frame: u64 = s.frame;
    let lang: LanguageId = s.lang;
    let kind: CharacterKind = s.kind;
    if kind.shows_cat() {
        step_critter(&mut s.cat, rng, frame, lang, MAX_X, CAT_SPEED);
    }
    if kind.shows_dog() {
        step_critter(&mut s.dog, rng, frame, lang, MAX_X, DOG_SPEED);
    }
    if kind.shows_girl() {
        step_critter(&mut s.girl, rng, frame, lang, MAX_X, GIRL_SPEED);
    }
}

/// One animation tick.
pub fn tick(state: &mut Option<CharState>, rng: &mut Rng) -> (ops: Vec<WindowOp>)
    requires
        sound(seen(*old(state))),
    ensures
        (seen(*final(state)), final(rng)@, ops_seen(ops@)) == match seen(*old(state)) {
            Some(s) => {
                let r = ticked(s, old(rng)@);
                (Some(r.0), r.1, r.2)
            },
            None => (None, old(rng)@, seq![]),
        },
        sound(seen(*final(state))),
{
    let mut ops: Vec<WindowOp> = no_ops();
    if let Some(s) = state {
        if s.enabled {
            let ghost before = s@;
            step_all(s, rng);
            push_paint(s, &mut ops);
            assert(ops_seen(ops@) =~= ticked(before, old(rng)@).2);
        }
    }
    ops
}

/// A timer has gone off: an animation tick, if it was the animation timer.
pub fn on_timer(state: &mut Option<CharState>, rng: &mut Rng, id: usize) -> (ops: Vec<WindowOp>)
    requires
        sound(seen(*old(state))),
    ensures
        (seen(*final(state)), final(rng)@, ops_seen(ops@)) == match seen(*old(state)) {
            Some(s) if id == TIMER_ANIM => {
                let r = ticked(s, old(rng)@);
                (Some(r.0), r.1, r.2)
            },
            _ => (seen(*old(state)), old(rng)@, seq![]),
        },
        sound(seen(*final(state))),
{
    if id == TIMER_ANIM {
        tick(state, rng)
    } else {
        no_ops()
    }
}

} // verus!
