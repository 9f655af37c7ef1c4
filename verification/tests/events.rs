use usage_companion::canvas::Rect;
use usage_companion::character::{
    cat_variant, current_kind, destroy, dog_variant, init, is_enabled, mouse_point, on_click,
    on_mouse_leave, on_mouse_move, on_timer, on_usage_update, reposition, set_enabled, set_kind,
    set_language, set_variant, tick, CharState, CharacterKind, NewWindow, WindowOp, TIMER_ANIM,
};
use usage_companion::critter::Pose;
use usage_companion::forecast::{LocalTime, Projection};
use usage_companion::language::LanguageId;
use usage_companion::mood::Band;
use usage_companion::phrases::{message_pool, Pool, Species};
use usage_companion::position::ONE;
use usage_companion::rng::Rng;
use usage_companion::scene::{draw_scene, scene_balloons};

const ANCHOR: Rect = Rect { left: 100, top: 1000, right: 300, bottom: 1040 };

const NOON: LocalTime = LocalTime { hour: 12, minute: 0, second: 0 };

fn started(kind: CharacterKind, enabled: bool) -> Option<CharState> {
    let mut state: Option<CharState> = None;
    let window = Some(NewWindow { hwnd: 7, dpi: 96 });
    init(&mut state, window, ANCHOR, enabled, kind, 2, 3, LanguageId::English);
    state
}

fn rng() -> Rng {
    Rng::resume(77, None)
}

fn names(ops: &[WindowOp]) -> Vec<&'static str> {
    ops.iter()
        .map(|op| match op {
            WindowOp::Show { .. } => "show",
            WindowOp::Hide { .. } => "hide",
            WindowOp::StartTimer { .. } => "start",
            WindowOp::StopTimer { .. } => "stop",
            WindowOp::Place { .. } => "place",
            WindowOp::TrackLeave { .. } => "track",
            WindowOp::Close { .. } => "close",
            WindowOp::Paint(_) => "paint",
        })
        .collect()
}

#[test]
fn a_new_window_is_placed_shown_and_painted() {
    let mut state: Option<CharState> = None;
    let window = Some(NewWindow { hwnd: 7, dpi: 192 });
    let ops: Vec<WindowOp> =
        init(&mut state, window, ANCHOR, true, CharacterKind::Both, 2, 3, LanguageId::English);
    assert_eq!(names(&ops), ["place", "show", "start", "paint"]);
    match &ops[0] {
        WindowOp::Place { hwnd, x, y, w, h, visible } => {
            assert_eq!((*hwnd, *x, *y, *w, *h, *visible), (7, 100, 856, 368, 144, true));
        },
        _ => panic!(),
    }
    let s: &CharState = state.as_ref().unwrap();
    assert_eq!((s.uscale, s.win_w, s.win_h, s.frame), (2, 368, 144, 0));
    assert_eq!((s.cat.x, s.cat.dir, s.dog.x, s.dog.dir), (8 * ONE, 1, 144 * ONE, -1));
    assert_eq!((cat_variant(&state), dog_variant(&state)), (0, 1));
}

#[test]
fn a_disabled_window_is_only_placed() {
    let mut state: Option<CharState> = None;
    let window = Some(NewWindow { hwnd: 7, dpi: 0 });
    let ops: Vec<WindowOp> =
        init(&mut state, window, ANCHOR, false, CharacterKind::Cat, 0, 0, LanguageId::English);
    assert_eq!(names(&ops), ["place"]);
    assert!(!is_enabled(&state));
}

#[test]
fn without_a_window_nothing_happens() {
    let mut state: Option<CharState> = None;
    let mut r: Rng = rng();
    assert!(init(&mut state, None, ANCHOR, true, CharacterKind::Dog, 1, 1, LanguageId::Korean)
        .is_empty());
    assert!(state.is_none());
    assert!(set_enabled(&mut state, true).is_empty());
    assert!(set_kind(&mut state, CharacterKind::Girl).is_empty());
    assert!(set_variant(&mut state, true, 1).is_empty());
    set_language(&mut state, LanguageId::Dutch);
    assert!(reposition(&state, ANCHOR).is_empty());
    assert!(tick(&mut state, &mut r).is_empty());
    assert!(on_click(&mut state, &mut r, 1, 1).is_empty());
    assert!(on_mouse_move(&mut state, 7, 1, 1).is_empty());
    assert!(on_mouse_leave(&mut state).is_empty());
    assert!(destroy(&mut state).is_empty());
    on_usage_update(&mut state, &mut r, 99, 50, None, NOON, LanguageId::English);
    assert!(state.is_none());
    assert_eq!(r.save(), 77);
    assert_eq!((cat_variant(&state), dog_variant(&state)), (0, 0));
    assert!(!is_enabled(&state));
    assert_eq!(current_kind(&state), CharacterKind::Cat);
}

#[test]
fn starting_again_refreshes_the_settings() {
    let mut state: Option<CharState> = started(CharacterKind::Cat, true);
    let mut r: Rng = rng();
    for _ in 0..30 {
        tick(&mut state, &mut r);
    }
    let x: i64 = state.as_ref().unwrap().cat.x;
    let other = Some(NewWindow { hwnd: 9, dpi: 480 });
    let ops: Vec<WindowOp> =
        init(&mut state, other, ANCHOR, false, CharacterKind::Both, 1, 1, LanguageId::French);
    assert_eq!(names(&ops), ["paint", "paint", "stop", "hide", "place"]);
    let s: &CharState = state.as_ref().unwrap();
    assert_eq!((s.hwnd, s.uscale, s.frame, s.cat.x), (7, 1, 30, x));
    assert_eq!((s.enabled, s.kind, s.lang), (false, CharacterKind::Both, LanguageId::French));
    let again: Vec<WindowOp> =
        init(&mut state, other, ANCHOR, false, CharacterKind::Both, 3, 5, LanguageId::French);
    assert_eq!(names(&again), ["place"]);
}

#[test]
fn settings_are_read_back_and_made_once() {
    let mut state: Option<CharState> = started(CharacterKind::Cat, true);
    assert_eq!(names(&set_kind(&mut state, CharacterKind::Dog)), ["paint"]);
    assert_eq!(current_kind(&state), CharacterKind::Dog);
    assert!(set_kind(&mut state, CharacterKind::Dog).is_empty());
    assert_eq!(names(&set_variant(&mut state, true, 255)), ["paint"]);
    assert_eq!(cat_variant(&state), 1);
    assert!(set_variant(&mut state, true, 1).is_empty());
    assert_eq!(names(&set_variant(&mut state, false, 4)), ["paint"]);
    assert_eq!(dog_variant(&state), 0);
    assert_eq!(names(&set_enabled(&mut state, false)), ["stop", "hide"]);
    assert!(!is_enabled(&state));
    assert!(set_enabled(&mut state, false).is_empty());
    assert!(set_kind(&mut state, CharacterKind::Girl).is_empty());
    assert_eq!(current_kind(&state), CharacterKind::Girl);
    assert_eq!(names(&set_enabled(&mut state, true)), ["show", "start", "paint"]);
    set_language(&mut state, LanguageId::Japanese);
    assert_eq!(state.as_ref().unwrap().lang, LanguageId::Japanese);
}

#[test]
fn closing_forgets_the_window() {
    let mut state: Option<CharState> = started(CharacterKind::Both, true);
    assert_eq!(names(&destroy(&mut state)), ["stop", "close"]);
    assert!(state.is_none());
    assert!(!is_enabled(&state));
    assert!(destroy(&mut state).is_empty());
}

#[test]
fn a_hidden_window_is_placed_hidden() {
    let state: Option<CharState> = started(CharacterKind::Both, false);
    match &reposition(&state, Rect { left: -5, top: 10, right: 0, bottom: 0 })[..] {
        [WindowOp::Place { x, y, visible, .. }] => {
            assert_eq!((*x, *y, *visible), (-5, -62, false));
        },
        _ => panic!(),
    }
}

#[test]
fn only_the_animation_timer_ticks() {
    let mut state: Option<CharState> = started(CharacterKind::Cat, true);
    let mut r: Rng = rng();
    assert!(on_timer(&mut state, &mut r, 5).is_empty());
    assert_eq!(state.as_ref().unwrap().frame, 0);
    assert_eq!(names(&on_timer(&mut state, &mut r, TIMER_ANIM)), ["paint"]);
    let s: &CharState = state.as_ref().unwrap();
    assert_eq!(s.frame, 1);
    assert_eq!((s.dog.x, s.dog.move_ticks, s.dog.blink_ctr), (144 * ONE, 0, 0));
    assert_eq!(s.girl.x, 8 * ONE);
    assert_ne!(s.cat.blink_ctr, 0);
}

#[test]
fn the_frame_counter_wraps() {
    let mut state: Option<CharState> = started(CharacterKind::Cat, true);
    if let Some(s) = &mut state {
        s.frame = u64::MAX;
    }
    tick(&mut state, &mut rng());
    assert_eq!(state.as_ref().unwrap().frame, 0);
}

#[test]
fn disabled_characters_rest() {
    let mut state: Option<CharState> = started(CharacterKind::Both, false);
    let mut r: Rng = rng();
    assert!(tick(&mut state, &mut r).is_empty());
    on_usage_update(&mut state, &mut r, 95, 50, None, NOON, LanguageId::Spanish);
    let s: &CharState = state.as_ref().unwrap();
    assert_eq!((s.frame, s.usage, s.lang), (0, 95, LanguageId::Spanish));
    assert_eq!((s.mood, s.last_band), (Band::Low, Band::Low));
    assert!(s.cat.bubble.is_none());
    assert_eq!(r.save(), 77);
}

#[test]
fn mouse_messages_carry_signed_words() {
    assert_eq!(mouse_point(0x0005_0003), (3, 5));
    assert_eq!(mouse_point(0xFFFF_8000), (-32768, -1));
    assert_eq!(mouse_point(-1), (-1, -1));
    assert_eq!(mouse_point(0x1234_7FFF_7FFF), (32767, 32767));
}

#[test]
fn the_mouse_is_tracked_until_it_leaves() {
    let mut state: Option<CharState> = started(CharacterKind::Both, true);
    assert_eq!(names(&on_mouse_move(&mut state, 7, 100, 40)), ["track"]);
    assert!(on_mouse_move(&mut state, 7, 101, 40).is_empty());
    assert_eq!(names(&on_mouse_move(&mut state, 7, 10, 40)), ["paint"]);
    assert!(state.as_ref().unwrap().cat.hovering);
    assert!(!state.as_ref().unwrap().dog.hovering);
    assert!(on_mouse_move(&mut state, 7, 11, 41).is_empty());
    assert_eq!(names(&on_mouse_leave(&mut state)), ["paint"]);
    assert!(!state.as_ref().unwrap().cat.hovering);
    assert!(on_mouse_leave(&mut state).is_empty());
    assert_eq!(names(&on_mouse_move(&mut state, 8, 150, 50)), ["track", "paint"]);
    assert!(state.as_ref().unwrap().dog.hovering);
}

#[test]
fn clicks_strike_the_characters_on_show_under_the_mouse() {
    let mut state: Option<CharState> = started(CharacterKind::Dog, true);
    let mut r: Rng = rng();
    // The cat stands there, but is not on show.
    assert!(on_click(&mut state, &mut r, 10, 40).is_empty());
    assert_eq!(r.save(), 77);
    assert_eq!(names(&on_click(&mut state, &mut r, 150, 40)), ["paint"]);
    let s: &CharState = state.as_ref().unwrap();
    assert_eq!(s.dog.clicked_ticks, 6);
    assert_eq!(s.cat.clicked_ticks, 0);
    let b = s.dog.bubble.as_ref().unwrap();
    assert_eq!((b.ttl, b.max_ttl, b.pri), (31, 31, 2));
    let pool: &[&str] = message_pool(LanguageId::English, Species::Dog, Pool::Click);
    assert!(pool.contains(&b.text.as_str()));
    tick(&mut state, &mut r);
    let s: &CharState = state.as_ref().unwrap();
    assert_eq!(s.dog.pose, Pose::Clicked);
    assert_eq!(s.dog.x, 144 * ONE);
}

#[test]
fn the_girl_answers_a_click_with_a_kiss() {
    let mut state: Option<CharState> = started(CharacterKind::Girl, true);
    let mut r: Rng = rng();
    assert_eq!(names(&on_click(&mut state, &mut r, 20, 60)), ["paint"]);
    let s: &CharState = state.as_ref().unwrap();
    assert_eq!((s.girl.kiss, s.girl.kiss_max, s.girl.clicked_ticks), (26, 26, 0));
    for left in (0..26u32).rev() {
        tick(&mut state, &mut r);
        assert_eq!(state.as_ref().unwrap().girl.kiss, left);
    }
}

fn texts(state: &Option<CharState>) -> (Option<String>, Option<String>) {
    let s: &CharState = state.as_ref().unwrap();
    let text = |b: &Option<usage_companion::critter::Bubble>| b.as_ref().map(|b| b.text.clone());
    (text(&s.cat.bubble), text(&s.dog.bubble))
}

#[test]
fn thresholds_are_announced_once() {
    let mut state: Option<CharState> = started(CharacterKind::Both, true);
    let mut r: Rng = rng();
    on_usage_update(&mut state, &mut r, 85, 0, None, NOON, LanguageId::English);
    let (cat, dog) = texts(&state);
    let soft: &[&str] = message_pool(LanguageId::English, Species::Cat, Pool::Soft);
    assert!(soft.contains(&cat.as_ref().unwrap().as_str()));
    let soft: &[&str] = message_pool(LanguageId::English, Species::Dog, Pool::Soft);
    assert!(soft.contains(&dog.as_ref().unwrap().as_str()));
    {
        let s: &CharState = state.as_ref().unwrap();
        assert_eq!((s.cat.react_ticks, s.dog.react_ticks), (12, 12));
        assert_eq!((s.mood, s.last_band, s.usage), (Band::Soft, Band::Soft, 85));
        let b = s.cat.bubble.as_ref().unwrap();
        assert_eq!((b.ttl, b.max_ttl, b.pri), (50, 50, 3));
    }
    let before: u64 = r.save();
    on_usage_update(&mut state, &mut r, 88, 0, None, NOON, LanguageId::English);
    assert_eq!(texts(&state), (cat, dog));
    assert_eq!(r.save(), before);
    on_usage_update(&mut state, &mut r, 90, 0, None, NOON, LanguageId::English);
    let urgent: &[&str] = message_pool(LanguageId::English, Species::Cat, Pool::Urgent);
    assert!(urgent.contains(&texts(&state).0.unwrap().as_str()));
    // Back to the middle band nothing is said.
    let said = texts(&state);
    on_usage_update(&mut state, &mut r, 81, 0, None, NOON, LanguageId::English);
    assert_eq!(texts(&state), said);
    assert_eq!(state.as_ref().unwrap().mood, Band::Soft);
    on_usage_update(&mut state, &mut r, 3, 0, None, NOON, LanguageId::English);
    let rest: &[&str] = message_pool(LanguageId::English, Species::Cat, Pool::Rest);
    assert!(rest.contains(&texts(&state).0.unwrap().as_str()));
}

#[test]
fn a_click_does_not_replace_a_warning() {
    let mut state: Option<CharState> = started(CharacterKind::Cat, true);
    let mut r: Rng = rng();
    on_usage_update(&mut state, &mut r, 95, 0, None, NOON, LanguageId::English);
    let said = texts(&state);
    assert_eq!(names(&on_click(&mut state, &mut r, 10, 40)), ["paint"]);
    assert_eq!(texts(&state), said);
    assert_eq!(state.as_ref().unwrap().cat.clicked_ticks, 6);
}

#[test]
fn a_warning_replaces_whatever_is_said() {
    let mut state: Option<CharState> = started(CharacterKind::Cat, true);
    let mut r: Rng = rng();
    on_click(&mut state, &mut r, 10, 40);
    on_usage_update(&mut state, &mut r, 95, 0, None, NOON, LanguageId::English);
    let s: &CharState = state.as_ref().unwrap();
    let b = s.cat.bubble.as_ref().unwrap();
    assert_eq!((b.ttl, b.max_ttl, b.pri), (50, 50, 3));
    let urgent: &[&str] = message_pool(LanguageId::English, Species::Cat, Pool::Urgent);
    assert!(urgent.contains(&b.text.as_str()));
    assert_eq!(s.cat.react_ticks, 12);
}

#[test]
fn kind_words_come_now_and_then() {
    let mut state: Option<CharState> = started(CharacterKind::Cat, true);
    let mut r: Rng = rng();
    on_usage_update(&mut state, &mut r, 10, 0, None, NOON, LanguageId::English);
    assert_eq!(r.save(), 77);
    assert!(texts(&state).0.is_none());
    let mut words: usize = 0;
    let kind: &[&str] = message_pool(LanguageId::English, Species::Cat, Pool::Encourage);
    for n in 1..60u64 {
        if let Some(s) = &mut state {
            s.frame = 220 * n;
            s.cat.bubble = None;
        }
        on_usage_update(&mut state, &mut r, 10, 0, None, NOON, LanguageId::English);
        if let Some(text) = texts(&state).0 {
            assert!(kind.contains(&text.as_str()));
            assert_eq!(state.as_ref().unwrap().last_idle_frame, 220 * n);
            assert_eq!(state.as_ref().unwrap().cat.react_ticks, 0);
            words += 1;
        }
    }
    assert!(words > 0 && words < 59);
}

#[test]
fn forecasts_come_when_the_session_will_run_out() {
    let soon = Some(Projection { secs_to_full: 3661, secs_to_reset: 7200 });
    let late = Some(Projection { secs_to_full: 7200, secs_to_reset: 7200 });
    let at = |frame: u64, session: i32, projection: Option<Projection>| {
        let mut state: Option<CharState> = started(CharacterKind::Both, true);
        if let Some(s) = &mut state {
            s.frame = frame;
            s.last_idle_frame = frame;
        }
        on_usage_update(&mut state, &mut rng(), 50, session, projection, NOON, LanguageId::English);
        texts(&state).0
    };
    assert_eq!(at(1800, 50, soon), Some("at this pace... done by 13:01.".to_string()));
    assert_eq!(at(1800, 25, soon), Some("at this pace... done by 13:01.".to_string()));
    assert_eq!(at(1800, 94, soon), Some("at this pace... done by 13:01.".to_string()));
    assert_eq!(at(1800, 24, soon), None);
    assert_eq!(at(1800, 95, soon), None);
    assert_eq!(at(1799, 50, soon), None);
    assert_eq!(at(1800, 50, late), None);
    assert_eq!(at(1800, 50, None), None);
}

#[test]
fn forecasts_are_spaced() {
    let soon = Some(Projection { secs_to_full: 60, secs_to_reset: 7200 });
    let mut state: Option<CharState> = started(CharacterKind::Girl, true);
    let mut r: Rng = rng();
    let mut said: Vec<u64> = Vec::new();
    for frame in 0..6000u64 {
        if let Some(s) = &mut state {
            s.frame = frame;
            s.last_idle_frame = frame;
            s.girl.bubble = None;
        }
        on_usage_update(&mut state, &mut r, 50, 50, soon, NOON, LanguageId::English);
        let s: &CharState = state.as_ref().unwrap();
        if let Some(b) = &s.girl.bubble {
            assert_eq!(b.text, "at this pace... 12:01 looks risky!");
            assert_eq!((b.ttl, b.pri), (50, 2));
            said.push(frame);
        }
    }
    assert_eq!(said, vec![1800, 3600, 5400]);
}

#[test]
fn every_reachable_scene_can_be_painted() {
    let mut state: Option<CharState> = started(CharacterKind::Both, true);
    let mut r: Rng = rng();
    let kinds: [CharacterKind; 4] =
        [CharacterKind::Both, CharacterKind::Girl, CharacterKind::Cat, CharacterKind::Dog];
    let mut painted: usize = 0;
    for n in 0..1500u64 {
        if n % 50 == 0 {
            set_kind(&mut state, kinds[(n / 50 % 4) as usize]);
            on_usage_update(&mut state, &mut r, (n % 101) as i32, 0, None, NOON, LanguageId::Korean);
        }
        if n % 17 == 0 {
            on_click(&mut state, &mut r, (n % 184) as i32, 50);
        }
        on_mouse_move(&mut state, 7, (n * 7 % 300) as i32 - 50, (n * 3 % 90) as i32);
        for op in tick(&mut state, &mut r) {
            if let WindowOp::Paint(scene) = op {
                let mut bits: Vec<u32> = vec![0; (scene.win_w * scene.win_h) as usize];
                draw_scene(&scene, &mut bits);
                assert!(bits.iter().any(|px| *px != 0));
                let balloons = scene_balloons(&scene);
                assert!(balloons.len() <= 2);
                for b in &balloons {
                    assert!(b.bx >= 0 && b.bx + 84 <= 184);
                    assert!(!b.text.is_empty());
                }
                painted += 1;
            }
        }
    }
    assert_eq!(painted, 1500);
}
