use usage_companion::canvas::{bgra, clear, fill_block, Rect};
use usage_companion::character::NewWindow;
use usage_companion::detail::{
    destroy, hide_panel, init, is_visible, render, seal, show, threshold_color, update, Align,
    Card, CardOp, DetailData, DetailRow, DetailState, Font, Label, PanelOp, Percent,
};

fn percent(whole: i32, columns: i32) -> Percent {
    Percent { whole, columns, label: whole.to_string() }
}

fn row(name: &str, session: i32, weekly: i32) -> DetailRow {
    DetailRow {
        name: name.to_string(),
        session_pct: percent(session, session * 132 / 100),
        session_reset: "2h 10m".to_string(),
        weekly_pct: percent(weekly, weekly * 132 / 100),
        weekly_reset: String::new(),
    }
}

fn data(rows: usize, is_dark: bool) -> DetailData {
    let mut list: Vec<DetailRow> = Vec::new();
    for k in 0..rows {
        list.push(row("model", 50, 10 * k as i32));
    }
    DetailData { rows: list, is_dark }
}

fn opened(dpi: u32) -> Option<DetailState> {
    let mut state: Option<DetailState> = None;
    init(&mut state, Some(NewWindow { hwnd: 3, dpi }));
    state
}

fn card(ops: &[PanelOp]) -> &Card {
    match ops.last() {
        Some(PanelOp::Paint(card)) => card,
        _ => panic!(),
    }
}

const ANCHOR: Rect = Rect { left: 700, top: 500, right: 900, bottom: 540 };

#[test]
fn a_new_panel_is_hidden_and_empty() {
    let mut state: Option<DetailState> = opened(192);
    {
        let st: &DetailState = state.as_ref().unwrap();
        assert_eq!((st.hwnd, st.s, st.visible, st.data.rows.len()), (3, 2, false, 0));
        assert!(st.data.is_dark);
        assert!(render(st).is_none());
    }
    init(&mut state, Some(NewWindow { hwnd: 4, dpi: 96 }));
    assert_eq!(state.as_ref().unwrap().hwnd, 3);
    let mut none: Option<DetailState> = None;
    init(&mut none, None);
    assert!(none.is_none());
}

#[test]
fn the_panel_is_shown_above_its_anchor() {
    let mut state: Option<DetailState> = opened(96);
    let ops: Vec<PanelOp> = show(&mut state, ANCHOR, data(2, true));
    assert_eq!(ops.len(), 2);
    match &ops[0] {
        PanelOp::Place { hwnd, x, y, w, h } => {
            assert_eq!((*hwnd, *x, *y, *w, *h), (3, 622, 348, 278, 148));
        },
        _ => panic!(),
    }
    assert_eq!((card(&ops).w, card(&ops).h), (278, 148));
    assert!(is_visible(&state));
}

#[test]
fn the_panel_stays_on_the_screen() {
    let mut state: Option<DetailState> = opened(192);
    let corner = Rect { left: 0, top: 20, right: 40, bottom: 60 };
    match &show(&mut state, corner, data(0, true))[0] {
        PanelOp::Place { x, y, w, h, .. } => assert_eq!((*x, *y, *w, *h), (0, 0, 556, 168)),
        _ => panic!(),
    }
}

#[test]
fn a_panel_is_in_view_until_it_is_hidden() {
    let mut state: Option<DetailState> = opened(96);
    assert!(!is_visible(&state));
    assert!(hide_panel(&mut state).is_empty());
    assert!(update(&mut state, data(1, true)).is_empty());
    assert_eq!(state.as_ref().unwrap().data.rows.len(), 0);
    show(&mut state, ANCHOR, data(1, true));
    let ops: Vec<PanelOp> = update(&mut state, data(3, false));
    assert_eq!(ops.len(), 1);
    assert_eq!(card(&ops).h, 212);
    match &hide_panel(&mut state)[..] {
        [PanelOp::Hide { hwnd }] => assert_eq!(*hwnd, 3),
        _ => panic!(),
    }
    assert!(!is_visible(&state));
    assert_eq!(state.as_ref().unwrap().data.rows.len(), 3);
    assert!(hide_panel(&mut state).is_empty());
}

#[test]
fn closing_forgets_the_panel() {
    let mut state: Option<DetailState> = opened(96);
    show(&mut state, ANCHOR, data(1, true));
    match &destroy(&mut state)[..] {
        [PanelOp::Close { hwnd }] => assert_eq!(*hwnd, 3),
        _ => panic!(),
    }
    assert!(!is_visible(&state));
    assert!(destroy(&mut state).is_empty());
    assert!(show(&mut state, ANCHOR, data(1, true)).is_empty());
    assert!(update(&mut state, data(1, true)).is_empty());
    assert!(hide_panel(&mut state).is_empty());
}

#[test]
fn bars_turn_red_as_usage_grows() {
    assert_eq!(threshold_color(-3, true), bgra(76, 199, 107));
    assert_eq!(threshold_color(79, true), bgra(76, 199, 107));
    assert_eq!(threshold_color(80, true), bgra(242, 193, 78));
    assert_eq!(threshold_color(90, true), bgra(255, 138, 76));
    assert_eq!(threshold_color(95, true), bgra(255, 92, 92));
    assert_eq!(threshold_color(0, false), bgra(46, 158, 79));
    assert_eq!(threshold_color(89, false), bgra(201, 162, 30));
    assert_eq!(threshold_color(94, false), bgra(232, 115, 28));
    assert_eq!(threshold_color(200, false), bgra(211, 47, 47));
}

fn text(label: &Label) -> (&str, (i32, i32, i32, i32), Font, (u8, u8, u8), Align) {
    let a: Rect = label.area;
    (label.text.as_str(), (a.left, a.top, a.right, a.bottom), label.font, label.color, label.align)
}

#[test]
fn a_card_has_a_border_names_bars_and_times() {
    let mut state: Option<DetailState> = opened(96);
    let one = DetailData { rows: vec![row("Opus", 97, 0)], is_dark: true };
    let ops: Vec<PanelOp> = show(&mut state, ANCHOR, one);
    let c: &Card = card(&ops);
    assert_eq!((c.hwnd, c.s, c.w, c.h, c.background), (3, 1, 278, 84, bgra(32, 33, 36)));
    let mut fills: Vec<(i32, i32, i32, i32, u32)> = Vec::new();
    let mut texts: Vec<(&str, (i32, i32, i32, i32), Font, (u8, u8, u8), Align)> = Vec::new();
    for op in &c.ops {
        match op {
            CardOp::Fill(b) => fills.push((b.x, b.y, b.bw, b.bh, b.color)),
            CardOp::Text(label) => texts.push(text(label)),
        }
    }
    let edge: u32 = bgra(70, 72, 78);
    let track: u32 = bgra(60, 62, 68);
    assert_eq!(
        fills,
        vec![
            (0, 0, 278, 1, edge),
            (0, 83, 278, 1, edge),
            (0, 0, 1, 84, edge),
            (277, 0, 1, 84, edge),
            (32, 34, 132, 9, track),
            (32, 34, 128, 9, bgra(255, 92, 92)),
            (32, 52, 132, 9, track),
        ],
    );
    let bright: (u8, u8, u8) = (225, 226, 230);
    let dim: (u8, u8, u8) = (150, 152, 158);
    assert_eq!(
        texts,
        vec![
            ("Opus", (10, 10, 268, 30), Font::Name, bright, Align::Left),
            ("5h", (10, 30, 32, 48), Font::Small, dim, Align::Left),
            ("97%", (170, 30, 208, 48), Font::Small, bright, Align::Left),
            ("2h 10m", (214, 30, 268, 48), Font::Small, dim, Align::Right),
            ("7d", (10, 48, 32, 66), Font::Small, dim, Align::Left),
            ("0%", (170, 48, 208, 66), Font::Small, bright, Align::Left),
        ],
    );
}

#[test]
fn cards_scale_and_follow_the_theme() {
    let mut state: Option<DetailState> = opened(288);
    let ops: Vec<PanelOp> = show(&mut state, ANCHOR, data(2, false));
    let c: &Card = card(&ops);
    assert_eq!((c.s, c.w, c.h, c.background), (3, 834, 444, bgra(248, 248, 248)));
    let mut bars: Vec<(i32, i32, i32, i32)> = Vec::new();
    for op in &c.ops[4..] {
        if let CardOp::Fill(b) = op {
            bars.push((b.x, b.y, b.bw, b.bh));
        }
    }
    // The track and the bar of the session, then the weekly track; only the second row has a
    // weekly bar.
    assert_eq!(
        bars,
        vec![
            (96, 103, 396, 27),
            (96, 103, 198, 27),
            (96, 157, 396, 27),
            (96, 295, 396, 27),
            (96, 295, 198, 27),
            (96, 349, 396, 27),
            (96, 349, 39, 27),
        ],
    );
    match &c.ops[4] {
        CardOp::Text(label) => assert_eq!(text(label).3, (40, 42, 48)),
        _ => panic!(),
    }
}

#[test]
fn nothing_sticks_out_of_a_card() {
    for dpi in [96u32, 144, 288] {
        let mut state: Option<DetailState> = opened(dpi);
        let ops: Vec<PanelOp> = show(&mut state, ANCHOR, data(5, true));
        let c: &Card = card(&ops);
        for op in &c.ops {
            match op {
                CardOp::Fill(b) => {
                    assert!(b.x >= 0 && b.x + b.bw <= c.w && b.y >= 0 && b.y + b.bh <= c.h);
                },
                CardOp::Text(label) => {
                    let a: Rect = label.area;
                    assert!(a.left >= 0 && a.right <= c.w && a.top >= 0 && a.bottom <= c.h);
                },
            }
        }
    }
}

#[test]
fn finished_cards_are_opaque() {
    let mut state: Option<DetailState> = opened(96);
    let ops: Vec<PanelOp> = show(&mut state, ANCHOR, data(1, true));
    let c: &Card = card(&ops);
    let mut bits: Vec<u32> = vec![0; (c.w * c.h) as usize];
    clear(&mut bits, c.background);
    for op in &c.ops {
        if let CardOp::Fill(b) = op {
            fill_block(&mut bits, c.w, c.h, b.x, b.y, b.bw, b.bh, b.color);
        }
    }
    assert_eq!(bits[0], bgra(70, 72, 78));
    assert_eq!(bits[278 * 40 + 33], bgra(76, 199, 107));
    assert_eq!(bits[278 * 40 + 120], bgra(60, 62, 68));
    assert_eq!(bits[278 * 5 + 5], bgra(32, 33, 36));
    bits[9] = 0x0012_3456;
    bits[10] = 0x8000_0001;
    seal(&mut bits);
    assert_eq!(bits[9], 0xFF12_3456);
    assert_eq!(bits[10], 0xFF00_0001);
    assert!(bits.iter().all(|px| *px >= 0xFF00_0000));
}
