//! The detail panel: a card above the widget with, for each model, a bar for the session and one
//! for the week, each with its percentage and the time until it resets.
//!
//! The window belongs to the caller, who performs the operations that each event returns, and draws
//! the texts of a card.

use crate::canvas::bgra;
use crate::canvas::opaque;
use crate::canvas::{Block, Rect, Rgb};
use crate::character::NewWindow;
use crate::dpi::scale_for_dpi;
use crate::dpi::scale_of;
use vstd::prelude::*;

verus! {

// The layout, in logical pixels.
pub const PAD: i32 = 10;

pub const ROW_LABEL_W: i32 = 22;

pub const BAR_W: i32 = 132;

pub const BAR_H: i32 = 9;

pub const PCT_W: i32 = 38;

pub const RESET_W: i32 = 54;

pub const LINE_H: i32 = 18;

pub const HEADER_H: i32 = 20;

pub const ROW_GAP: i32 = 8;

/// Between a bar, its percentage and its reset time.
pub const GAP: i32 = 6;

/// The width of a card: padding, label, bar, percentage and reset time with the gaps between them,
/// and padding.
pub const CARD_W: i32 = 278;

/// The height of a row: a header, two lines and the gap below them.
pub const ROW_H: i32 = 64;

// Colours: background, border, track, text and secondary text.
pub const DARK: [Rgb; 5] = [
    (32, 33, 36),
    (70, 72, 78),
    (60, 62, 68),
    (225, 226, 230),
    (150, 152, 158),
];

pub const LIGHT: [Rgb; 5] = [
    (248, 248, 248),
    (200, 200, 205),
    (214, 214, 220),
    (40, 42, 48),
    (110, 112, 118),
];

// Bar colours from 95, 90 and 80 percent on, and below.
pub const DARK_BARS: [Rgb; 4] = [(255, 92, 92), (255, 138, 76), (242, 193, 78), (76, 199, 107)];

pub const LIGHT_BARS: [Rgb; 4] = [(211, 47, 47), (232, 115, 28), (201, 162, 30), (46, 158, 79)];

/// A percentage as the card needs it: rounded down, as columns of a bar, and as a rounded number.
#[derive(Debug)]
pub struct Percent {
    pub whole: i32,
    pub columns: i32,
    pub label: String,
}

#[derive(Debug)]
pub struct DetailRow {
    pub name: String,
    pub session_pct: Percent,
    pub session_reset: String,
    pub weekly_pct: Percent,
    pub weekly_reset: String,
}

#[derive(Debug)]
pub struct DetailData {
    pub rows: Vec<DetailRow>,
    pub is_dark: bool,
}

/// The state of the panel's window.
#[derive(Debug)]
pub struct DetailState {
    pub hwnd: isize,
    /// The display's scale.
    pub s: i32,
    pub visible: bool,
    pub data: DetailData,
}

pub ghost struct PercentView {
    pub whole: int,
    pub columns: int,
    pub label: Seq<char>,
}

pub ghost struct RowView {
    pub name: Seq<char>,
    pub session_pct: PercentView,
    pub session_reset: Seq<char>,
    pub weekly_pct: PercentView,
    pub weekly_reset: Seq<char>,
}

pub ghost struct DataView {
    pub rows: Seq<RowView>,
    pub is_dark: bool,
}

pub ghost struct DetailView {
    pub hwnd: int,
    pub s: int,
    pub visible: bool,
    pub data: DataView,
}

impl View for Percent {
    type V = PercentView;

    open spec fn view(&self) -> PercentView {
        PercentView {
            whole: self.whole as int,
            columns: self.columns as int,
            label: self.label@,
        }
    }
}

impl View for DetailRow {
    type V = RowView;

    open spec fn view(&self) -> RowView {
        RowView {
            name: self.name@,
            session_pct: self.session_pct@,
            session_reset: self.session_reset@,
            weekly_pct: self.weekly_pct@,
            weekly_reset: self.weekly_reset@,
        }
    }
}

impl View for DetailData {
    type V = DataView;

    open spec fn view(&self) -> DataView {
        DataView { rows: self.rows@.map_values(|r: DetailRow| r@), is_dark: self.is_dark }
    }
}

impl View for DetailState {
    type V = DetailView;

    open spec fn view(&self) -> DetailView {
        DetailView {
            hwnd: self.hwnd as int,
            s: self.s as int,
            visible: self.visible,
            data: self.data@,
        }
    }
}

impl PercentView {
    /// The bar is no longer than its track.
    pub open spec fn wf(self) -> bool {
        0 <= self.columns <= BAR_W
    }
}

impl DataView {
    pub open spec fn wf(self) -> bool {
        forall|k: int|
            0 <= k < self.rows.len() ==> (#[trigger] self.rows[k]).session_pct.wf()
                && self.rows[k].weekly_pct.wf()
    }
}

impl DetailView {
    pub open spec fn wf(self) -> bool {
        1 <= self.s && self.data.wf()
    }
}

/// The state, where there is a window.
pub open spec fn seen(state: Option<DetailState>) -> Option<DetailView> {
    match state {
        Some(st) => Some(st@),
        None => None,
    }
}

/// The state is sound, where there is a window.
pub open spec fn sound(state: Option<DetailView>) -> bool {
    state matches Some(st) ==> st.wf()
}

/// A card's width in device pixels.
pub open spec fn card_w(s: int) -> int {
    CARD_W * s
}

/// The height in device pixels of a card with `rows` rows; without any it has room for one.
pub open spec fn card_h(rows: int, s: int) -> int {
    2 * PAD * s + ROW_H * s * if rows > 1 {
        rows
    } else {
        1
    }
}

/// The size of a card is within what an `i32` can hold.
pub open spec fn card_fits(rows: int, s: int) -> bool {
    card_w(s) <= i32::MAX && card_h(rows, s) <= i32::MAX
}

// ----- what is on a card ------------------------------------------------------

#[derive(Clone, Copy, Debug, PartialEq, Eq, Structural)]
pub enum Font {
    /// For model names.
    Name,
    /// For everything else.
    Small,
}

#[derive(Clone, Copy, Debug, PartialEq, Eq, Structural)]
pub enum Align {
    Left,
    Right,
}

/// A line of text in its place, centred vertically.
#[derive(Debug)]
pub struct Label {
    pub text: String,
    pub area: Rect,
    pub font: Font,
    pub color: Rgb,
    pub align: Align,
}

pub ghost struct LabelView {
    pub text: Seq<char>,
    pub area: Rect,
    pub font: Font,
    pub color: Rgb,
    pub align: Align,
}

impl View for Label {
    type V = LabelView;

    open spec fn view(&self) -> LabelView {
        LabelView {
            text: self.text@,
            area: self.area,
            font: self.font,
            color: self.color,
            align: self.align,
        }
    }
}

/// A step of drawing a card.
#[derive(Debug)]
pub enum CardOp {
    Fill(Block),
    Text(Label),
}

pub ghost enum CardOpView {
    Fill(Block),
    Text(LabelView),
}

impl View for CardOp {
    type V = CardOpView;

    open spec fn view(&self) -> CardOpView {
        match *self {
            CardOp::Fill(b) => CardOpView::Fill(b),
            CardOp::Text(l) => CardOpView::Text(l@),
        }
    }
}

/// The views of a list of drawing steps.
pub open spec fn steps_seen(ops: Seq<CardOp>) -> Seq<CardOpView> {
    ops.map_values(|op: CardOp| op@)
}

/// A card to be drawn: a background, and the steps that go over it.
#[derive(Debug)]
pub struct Card {
    pub hwnd: isize,
    pub s: i32,
    pub w: i32,
    pub h: i32,
    pub background: u32,
    pub ops: Vec<CardOp>,
}

pub ghost struct CardView {
    pub hwnd: int,
    pub s: int,
    pub w: int,
    pub h: int,
    pub background: u32,
    pub ops: Seq<CardOpView>,
}

impl View for Card {
    type V = CardView;

    open spec fn view(&self) -> CardView {
        CardView {
            hwnd: self.hwnd as int,
            s: self.s as int,
            w: self.w as int,
            h: self.h as int,
            background: self.background,
            ops: steps_seen(self.ops@),
        }
    }
}

/// The colours of a theme.
pub open spec fn theme(is_dark: bool) -> Seq<Rgb> {
    if is_dark {
        DARK@
    } else {
        LIGHT@
    }
}

/// The colour of a bar.
pub open spec fn bar_rgb(whole: int, is_dark: bool) -> Rgb {
    let bars = if is_dark {
        DARK_BARS@
    } else {
        LIGHT_BARS@
    };
    if whole >= 95 {
        bars[0]
    } else if whole >= 90 {
        bars[1]
    } else if whole >= 80 {
        bars[2]
    } else {
        bars[3]
    }
}

/// The pixel of a bar.
pub fn threshold_color(whole: i32, is_dark: bool) -> (pixel: u32)
    ensures
        pixel == opaque(bar_rgb(whole as int, is_dark)),
{
    let bars: [Rgb; 4] = if is_dark {
        DARK_BARS
    } else {
        LIGHT_BARS
    };
    let c: Rgb = if whole >= 95 {
        bars[0]
    } else if whole >= 90 {
        bars[1]
    } else if whole >= 80 {
        bars[2]
    } else {
        bars[3]
    };
    bgra(c.0, c.1, c.2)
}

/// A filled rectangle.
pub open spec fn fill_step(x: int, y: int, bw: int, bh: int, color: u32) -> Seq<CardOpView> {
    seq![
        CardOpView::Fill(
            Block { x: x as i32, y: y as i32, bw: bw as i32, bh: bh as i32, color },
        ),
    ]
}

/// A text, if there is any.
pub open spec fn text_step(
    text: Seq<char>,
    x: int,
    y: int,
    w: int,
    h: int,
    font: Font,
    color: Rgb,
    align: Align,
) -> Seq<CardOpView> {
    if text.len() == 0 {
        seq![]
    } else {
        seq![
            CardOpView::Text(
                LabelView {
                    text,
                    area: Rect {
                        left: x as i32,
                        top: y as i32,
                        right: (x + w) as i32,
                        bottom: (y + h) as i32,
                    },
                    font,
                    color,
                    align,
                },
            ),
        ]
    }
}

/// One line of a model: what it is, a bar on its track, the percentage and the reset time.
pub open spec fn line_steps(
    label: Seq<char>,
    pct: PercentView,
    reset: Seq<char>,
    y: int,
    s: int,
    is_dark: bool,
) -> Seq<CardOpView> {
    let c = theme(is_dark);
    let bx = (PAD + ROW_LABEL_W) * s;
    let by = y + (LINE_H - BAR_H) * s / 2;
    let px = (PAD + ROW_LABEL_W + BAR_W + GAP) * s;
    let rx = (PAD + ROW_LABEL_W + BAR_W + GAP + PCT_W + GAP) * s;
    text_step(label, PAD * s, y, ROW_LABEL_W * s, LINE_H * s, Font::Small, c[4], Align::Left)
        + fill_step(bx, by, BAR_W * s, BAR_H * s, opaque(c[2])) + (if pct.columns > 0 {
        fill_step(bx, by, pct.columns * s, BAR_H * s, opaque(bar_rgb(pct.whole, is_dark)))
    } else {
        seq![]
    }) + text_step(
        pct.label + "%"@,
        px,
        y,
        PCT_W * s,
        LINE_H * s,
        Font::Small,
        c[3],
        Align::Left,
    ) + text_step(reset, rx, y, RESET_W * s, LINE_H * s, Font::Small, c[4], Align::Right)
}

/// A model: its name, and a line each for the session and the week.
pub open spec fn row_steps(row: RowView, y: int, s: int, is_dark: bool) -> Seq<CardOpView> {
    text_step(
        row.name,
        PAD * s,
        y,
        (CARD_W - 2 * PAD) * s,
        HEADER_H * s,
        Font::Name,
        theme(is_dark)[3],
        Align::Left,
    ) + line_steps(
        "5h"@,
        row.session_pct,
        row.session_reset,
        y + HEADER_H * s,
        s,
        is_dark,
    ) + line_steps(
        "7d"@,
        row.weekly_pct,
        row.weekly_reset,
        y + (HEADER_H + LINE_H) * s,
        s,
        is_dark,
    )
}

/// The first `n` models, one below the other.
pub open spec fn rows_steps(data: DataView, n: int, s: int) -> Seq<CardOpView>
    decreases n,
{
    if n <= 0 {
        seq![]
    } else {
        rows_steps(data, n - 1, s) + row_steps(
            data.rows[n - 1],
            PAD * s + ROW_H * s * (n - 1),
            s,
            data.is_dark,
        )
    }
}

/// The border, one logical pixel wide.
pub open spec fn border_steps(w: int, h: int, s: int, color: u32) -> Seq<CardOpView> {
    fill_step(0, 0, w, s, color) + fill_step(0, h - s, w, s, color) + fill_step(0, 0, s, h, color)
        + fill_step(w - s, 0, s, h, color)
}

/// The card of a state.
pub open spec fn card_of(st: DetailView) -> CardView {
    let w = card_w(st.s);
    let h = card_h(st.data.rows.len() as int, st.s);
    let c = theme(st.data.is_dark);
    CardView {
        hwnd: st.hwnd,
        s: st.s,
        w,
        h,
        background: opaque(c[0]),
        ops: border_steps(w, h, st.s, opaque(c[1])) + rows_steps(
            st.data,
            st.data.rows.len() as int,
            st.s,
        ),
    }
}

/// A card is as wide and a row as high as what they hold; the measures in device pixels.
pub proof fn lemma_measures(s: int)
    ensures
        CARD_W == PAD + ROW_LABEL_W + BAR_W + GAP + PCT_W + GAP + RESET_W + PAD,
        ROW_H == HEADER_H + 2 * LINE_H + ROW_GAP,
        PAD * s == 10 * s,
        2 * PAD * s == 20 * s,
        ROW_LABEL_W * s == 22 * s,
        BAR_W * s == 132 * s,
        BAR_H * s == 9 * s,
        PCT_W * s == 38 * s,
        RESET_W * s == 54 * s,
        LINE_H * s == 18 * s,
        HEADER_H * s == 20 * s,
        ROW_GAP * s == 8 * s,
        GAP * s == 6 * s,
        CARD_W * s == 278 * s,
        ROW_H * s == 64 * s,
        (PAD + ROW_LABEL_W) * s == 32 * s,
        (LINE_H - BAR_H) * s == 9 * s,
        (PAD + ROW_LABEL_W + BAR_W + GAP) * s == 170 * s,
        (PAD + ROW_LABEL_W + BAR_W + GAP + PCT_W + GAP) * s == 214 * s,
        (CARD_W - 2 * PAD) * s == 258 * s,
        (HEADER_H + LINE_H) * s == 38 * s,
{
    assert(2 * PAD * s == 20 * s);
}

/// A row ends where the next begins, inside the card.
proof fn lemma_row_place(n: int, rows: int, s: int)
    requires
        0 <= n < rows,
        1 <= s,
    ensures
        ROW_H * s * (n + 1) == ROW_H * s * n + 64 * s,
        0 <= ROW_H * s * n,
        PAD * s + ROW_H * s * n + 74 * s <= card_h(rows, s),
{
    lemma_measures(s);
    let per = ROW_H * s;
    assert(per * (n + 1) == per * n + per) by (nonlinear_arith);
    assert(0 <= per * n) by (nonlinear_arith)
        requires
            0 <= n,
            0 <= per,
    ;
    assert(per * (n + 1) <= per * rows) by (nonlinear_arith)
        requires
            n + 1 <= rows,
            0 <= per,
    ;
    assert(rows > 1 || rows == 1);
}

fn push_step(ops: &mut Vec<CardOp>, op: CardOp)
    ensures
        steps_seen(final(ops)@) == steps_seen(old(ops)@) + seq![op@],
{
    ops.push(op);
    assert(steps_seen(ops@) =~= steps_seen(old(ops)@) + seq![op@]);
}

fn push_fill(ops: &mut Vec<CardOp>, x: i32, y: i32, bw: i32, bh: i32, color: u32)
    ensures
        steps_seen(final(ops)@) == steps_seen(old(ops)@) + fill_step(
            x as int,
            y as int,
            bw as int,
            bh as int,
            color,
        ),
{
    push_step(ops, CardOp::Fill(Block { x, y, bw, bh, color }));
}

fn push_text(
    ops: &mut Vec<CardOp>,
    text: String,
    x: i32,
    y: i32,
    w: i32,
    h: i32,
    font: Font,
    color: Rgb,
    align: Align,
)
    requires
        i32::MIN <= x + w <= i32::MAX,
        i32::MIN <= y + h <= i32::MAX,
    ensures
        steps_seen(final(ops)@) == steps_seen(old(ops)@) + text_step(
            text@,
            x as int,
            y as int,
            w as int,
            h as int,
            font,
            color,
            align,
        ),
{
    if text.as_str().is_empty() {
        assert(steps_seen(ops@) =~= steps_seen(old(ops)@) + Seq::<CardOpView>::empty());
        return;
    }
    let area = Rect { left: x, top: y, right: x + w, bottom: y + h };
    push_step(ops, CardOp::Text(Label { text, area, font, color, align }));
}

fn push_line(
    ops: &mut Vec<CardOp>,
    label: &str,
    pct: &Percent,
    reset: &String,
    y: i32,
    s: i32,
    is_dark: bool,
)
    requires
        1 <= s,
        card_w(s as int) <= i32::MAX,
        0 <= y,
        y + LINE_H * s <= i32::MAX,
        pct@.wf(),
    ensures
        steps_seen(final(ops)@) == steps_seen(old(ops)@) + line_steps(
            label@,
            pct@,
            reset@,
            y as int,
            s as int,
            is_dark,
        ),
{
    proof {
        lemma_measures(s as int);
    }
    let colors: [Rgb; 5] = if is_dark {
        DARK
    } else {
        LIGHT
    };
    let text: Rgb = colors[3];
    let sub: Rgb = colors[4];
    let track: Rgb = colors[2];
    let line_h: i32 = LINE_H * s;
    let bar_h: i32 = BAR_H * s;
    let lx: i32 = PAD * s;
    let bx: i32 = lx + ROW_LABEL_W * s;
    let by: i32 = y + (line_h - bar_h) / 2;
    let px: i32 = bx + BAR_W * s + GAP * s;
    let rx: i32 = px + PCT_W * s + GAP * s;
    push_text(ops, label.to_string(), lx, y, ROW_LABEL_W * s, line_h, Font::Small, sub, Align::Left);
    push_fill(ops, bx, by, BAR_W * s, bar_h, bgra(track.0, track.1, track.2));
    let ghost before = steps_seen(ops@);
    assert(pct.columns * s <= 132 * s && (pct.columns > 0 ==> pct.columns * s > 0)
        && pct.columns * s >= 0) by (nonlinear_arith)
        requires
            0 <= pct.columns <= 132,
            1 <= s,
    ;
    let fill_w: i32 = pct.columns * s;
    if fill_w > 0 {
        assert(pct.columns > 0) by (nonlinear_arith)
            requires
                pct.columns * s > 0,
                0 <= pct.columns,
        ;
        push_fill(ops, bx, by, fill_w, bar_h, threshold_color(pct.whole, is_dark));
    } else {
        assert(steps_seen(ops@) =~= before + Seq::<CardOpView>::empty());
    }
    let mut percent: String = pct.label.clone();
    percent = percent.concat("%");
    push_text(ops, percent, px, y, PCT_W * s, line_h, Font::Small, text, Align::Left);
    push_text(ops, reset.clone(), rx, y, RESET_W * s, line_h, Font::Small, sub, Align::Right);
    assert(steps_seen(ops@) =~= steps_seen(old(ops)@) + line_steps(
        label@,
        pct@,
        reset@,
        y as int,
        s as int,
        is_dark,
    ));
}

fn push_row(ops: &mut Vec<CardOp>, row: &DetailRow, y: i32, s: i32, is_dark: bool)
    requires
        1 <= s,
        card_w(s as int) <= i32::MAX,
        0 <= y,
        y + ROW_H * s <= i32::MAX,
        row@.session_pct.wf(),
        row@.weekly_pct.wf(),
    ensures
        steps_seen(final(ops)@) == steps_seen(old(ops)@) + row_steps(
            row@,
            y as int,
            s as int,
            is_dark,
        ),
{
    proof {
        lemma_measures(s as int);
    }
    let colors: [Rgb; 5] = if is_dark {
        DARK
    } else {
        LIGHT
    };
    let text: Rgb = colors[3];
    push_text(
        ops,
        row.name.clone(),
        PAD * s,
        y,
        (CARD_W - 2 * PAD) * s,
        HEADER_H * s,
        Font::Name,
        text,
        Align::Left,
    );
    let first: i32 = y + HEADER_H * s;
    push_line(ops, "5h", &row.session_pct, &row.session_reset, first, s, is_dark);
    let second: i32 = first + LINE_H * s;
    push_line(ops, "7d", &row.weekly_pct, &row.weekly_reset, second, s, is_dark);
    assert(steps_seen(ops@) =~= steps_seen(old(ops)@) + row_steps(
        row@,
        y as int,
        s as int,
        is_dark,
    ));
}

/// What is to be painted, if anything.
pub fn render(st: &DetailState) -> (card: Option<Card>)
    requires
        st.visible ==> st@.wf() && card_fits(st.data.rows@.len() as int, st.s as int),
    ensures
        match card {
            Some(card) => st.visible && card@ == card_of(st@),
            None => !st.visible,
        },
{
    if !st.visible {
        return None;
    }
    let s: i32 = st.s;
    let is_dark: bool = st.data.is_dark;
    let n: usize = st.data.rows.len();
    let ghost data = st.data@;
    proof {
        lemma_measures(s as int);
    }
    let (w, h) = card_size(n, s);
    let colors: [Rgb; 5] = if is_dark {
        DARK
    } else {
        LIGHT
    };
    let back: Rgb = colors[0];
    let edge: Rgb = colors[1];
    let border: u32 = bgra(edge.0, edge.1, edge.2);
    let mut ops: Vec<CardOp> = Vec::new();
    assert(steps_seen(ops@) =~= Seq::<CardOpView>::empty());
    push_fill(&mut ops, 0, 0, w, s, border);
    push_fill(&mut ops, 0, h - s, w, s, border);
    push_fill(&mut ops, 0, 0, s, h, border);
    push_fill(&mut ops, w - s, 0, s, h, border);
    let ghost frame = border_steps(w as int, h as int, s as int, border);
    assert(steps_seen(ops@) =~= frame);
    let mut y: i32 = PAD * s;
    let mut k: usize = 0;
    assert(ROW_H * s * 0 == 0) by (nonlinear_arith);
    assert(steps_seen(ops@) =~= frame + rows_steps(data, 0, s as int));
    while k < n
        invariant
            k <= n == st.data.rows@.len(),
            s == st.s,
            1 <= s,
            is_dark == st.data.is_dark,
            data == st.data@,
            data.wf(),
            card_fits(n as int, s as int),
            y == PAD * s + ROW_H * s * k,
            steps_seen(ops@) == frame + rows_steps(data, k as int, s as int),
        decreases n - k,
    {
        proof {
            lemma_row_place(k as int, n as int, s as int);
            lemma_measures(s as int);
            assert(data.rows[k as int] == st.data.rows@[k as int]@);
        }
        let ghost before = rows_steps(data, k as int, s as int);
        push_row(&mut ops, &st.data.rows[k], y, s, is_dark);
        assert(steps_seen(ops@) =~= frame + (before + row_steps(
            data.rows[k as int],
            y as int,
            s as int,
            is_dark,
        )));
        y = y + ROW_H * s;
        k = k + 1;
    }
    Some(Card { hwnd: st.hwnd, s, w, h, background: bgra(back.0, back.1, back.2), ops })
}

/// The size of a card.
fn card_size(rows: usize, s: i32) -> (size: (i32, i32))
    requires
        1 <= s,
        card_fits(rows as int, s as int),
    ensures
        size.0 == card_w(s as int),
        size.1 == card_h(rows as int, s as int),
        s <= size.0,
        s <= size.1,
{
    let n: usize = if rows > 1 {
        rows
    } else {
        1
    };
    proof {
        lemma_measures(s as int);
        let per = ROW_H * s;
        assert(per * n >= per && per * n >= n) by (nonlinear_arith)
            requires
                n >= 1,
                per >= 1,
        ;
    }
    let per_row: i32 = ROW_H * s;
    (CARD_W * s, 2 * PAD * s + per_row * n as i32)
}

// ----- the window -------------------------------------------------------------

/// Something to be done about the panel's window.
#[derive(Debug)]
pub enum PanelOp {
    /// Show it in its place above all other windows, without activating it.
    Place { hwnd: isize, x: i32, y: i32, w: i32, h: i32 },
    Hide { hwnd: isize },
    Close { hwnd: isize },
    Paint(Card),
}

pub ghost enum PanelOpView {
    Place { hwnd: int, x: int, y: int, w: int, h: int },
    Hide { hwnd: int },
    Close { hwnd: int },
    Paint(CardView),
}

impl View for PanelOp {
    type V = PanelOpView;

    open spec fn view(&self) -> PanelOpView {
        match *self {
            PanelOp::Place { hwnd, x, y, w, h } => PanelOpView::Place {
                hwnd: hwnd as int,
                x: x as int,
                y: y as int,
                w: w as int,
                h: h as int,
            },
            PanelOp::Hide { hwnd } => PanelOpView::Hide { hwnd: hwnd as int },
            PanelOp::Close { hwnd } => PanelOpView::Close { hwnd: hwnd as int },
            PanelOp::Paint(card) => PanelOpView::Paint(card@),
        }
    }
}

/// The views of a list of operations.
pub open spec fn ops_seen(ops: Seq<PanelOp>) -> Seq<PanelOpView> {
    ops.map_values(|op: PanelOp| op@)
}

fn no_ops() -> (ops: Vec<PanelOp>)
    ensures
        ops_seen(ops@) == Seq::<PanelOpView>::empty(),
{
    let ops: Vec<PanelOp> = Vec::new();
    assert(ops_seen(ops@) =~= Seq::<PanelOpView>::empty());
    ops
}

fn push_op(ops: &mut Vec<PanelOp>, op: PanelOp)
    ensures
        ops_seen(final(ops)@) == ops_seen(old(ops)@).push(op@),
{
    ops.push(op);
    assert(ops_seen(ops@) =~= ops_seen(old(ops)@).push(op@));
}

/// The state that a window starts in: hidden, with an empty dark card.
pub open spec fn started(win: NewWindow) -> DetailView {
    DetailView {
        hwnd: win.hwnd as int,
        s: scale_of(win.dpi as int),
        visible: false,
        data: DataView { rows: seq![], is_dark: true },
    }
}

/// Takes note of a window that has just been created, if that worked. Where there already is one,
/// nothing changes.
pub fn init(state: &mut Option<DetailState>, window: Option<NewWindow>)
    requires
        *old(state) is None && window is Some ==> window->0.dpi <= i32::MAX - 48 || window->0.dpi
            > i32::MAX,
    ensures
        seen(*final(state)) == match seen(*old(state)) {
            Some(st) => Some(st),
            None => match window {
                Some(win) => Some(started(win)),
                None => None,
            },
        },
        sound(seen(*old(state))) ==> sound(seen(*final(state))),
{
    if state.is_some() {
        return;
    }
    if let Some(win) = window {
        let s: i32 = scale_for_dpi(win.dpi);
        let data = DetailData { rows: Vec::new(), is_dark: true };
        assert(data@.rows =~= Seq::<RowView>::empty());
        *state = Some(DetailState { hwnd: win.hwnd, s, visible: false, data });
    }
}

/// Where a card goes: its right edge on the anchor's, a little above it, but not beyond the
/// screen's left and top edges.
pub open spec fn place_of(st: DetailView, anchor: Rect) -> PanelOpView {
    let w = card_w(st.s);
    let h = card_h(st.data.rows.len() as int, st.s);
    PanelOpView::Place {
        hwnd: st.hwnd,
        x: if anchor.right > w {
            anchor.right - w
        } else {
            0
        },
        y: if anchor.top > h + 4 {
            anchor.top - h - 4
        } else {
            0
        },
        w,
        h,
    }
}

/// The panel in view with new contents.
pub open spec fn shown(st: DetailView, data: DataView) -> DetailView {
    DetailView { visible: true, data, ..st }
}

/// Shows the panel, or refreshes it, above the anchor.
pub fn show(state: &mut Option<DetailState>, anchor: Rect, data: DetailData) -> (ops: Vec<PanelOp>)
    requires
        sound(seen(*old(state))),
        data@.wf(),
        *old(state) matches Some(st) ==> {
            &&& card_fits(data.rows@.len() as int, st.s as int)
            &&& anchor.right - card_w(st.s as int) >= i32::MIN
            &&& anchor.top - card_h(data.rows@.len() as int, st.s as int) - 4 >= i32::MIN
        },
    ensures
        match seen(*old(state)) {
            Some(st) => {
                let now = shown(st, data@);
                &&& seen(*final(state)) == Some(now)
                &&& ops_seen(ops@) == seq![
                    place_of(now, anchor),
                    PanelOpView::Paint(card_of(now)),
                ]
            },
            None => seen(*final(state)) is None && ops_seen(ops@) == Seq::<PanelOpView>::empty(),
        },
        sound(seen(*final(state))),
{
    let mut ops: Vec<PanelOp> = no_ops();
    if let Some(st) = state {
        let (w, h) = card_size(data.rows.len(), st.s);
        st.data = data;
        st.visible = true;
        let x: i32 = anchor.right - w;
        let y: i32 = anchor.top - h - 4;
        push_op(
            &mut ops,
            PanelOp::Place {
                hwnd: st.hwnd,
                x: if x > 0 {
                    x
                } else {
                    0
                },
                y: if y > 0 {
                    y
                } else {
                    0
                },
                w,
                h,
            },
        );
        push_paint(st, &mut ops);
        assert(ops_seen(ops@) =~= seq![
            place_of(st@, anchor),
            PanelOpView::Paint(card_of(st@)),
        ]);
    }
    ops
}

fn push_paint(st: &DetailState, ops: &mut Vec<PanelOp>)
    requires
        st.visible,
        st@.wf(),
        card_fits(st.data.rows@.len() as int, st.s as int),
    ensures
        ops_seen(final(ops)@) == ops_seen(old(ops)@).push(PanelOpView::Paint(card_of(st@))),
{
    match render(st) {
        Some(card) => {
            push_op(ops, PanelOp::Paint(card));
        },
        None => {},
    }
}

/// Refreshes the contents while the panel is in view.
pub fn update(state: &mut Option<DetailState>, data: DetailData) -> (ops: Vec<PanelOp>)
    requires
        sound(seen(*old(state))),
        *old(state) matches Some(st) ==> (st.visible ==> data@.wf() && card_fits(
            data.rows@.len() as int,
            st.s as int,
        )),
    ensures
        match seen(*old(state)) {
            Some(st) => {
                let now = shown(st, data@);
                &&& seen(*final(state)) == if st.visible {
                    Some(now)
                } else {
                    Some(st)
                }
                &&& ops_seen(ops@) == if st.visible {
                    seq![PanelOpView::Paint(card_of(now))]
                } else {
                    seq![]
                }
            },
            None => seen(*final(state)) is None && ops_seen(ops@) == Seq::<PanelOpView>::empty(),
        },
        sound(seen(*final(state))),
{
    let mut ops: Vec<PanelOp> = no_ops();
    if let Some(st) = state {
        if st.visible {
            st.data = data;
            push_paint(st, &mut ops);
            assert(ops_seen(ops@) =~= seq![PanelOpView::Paint(card_of(st@))]);
        }
    }
    ops
}

/// The panel out of view, with what it held.
pub open spec fn hidden(st: DetailView) -> DetailView {
    DetailView { visible: false, ..st }
}

/// Takes the panel out of view.
pub fn hide_panel(state: &mut Option<DetailState>) -> (ops: Vec<PanelOp>)
    ensures
        match seen(*old(state)) {
            Some(st) => {
                &&& seen(*final(state)) == Some(hidden(st))
                &&& ops_seen(ops@) == if st.visible {
                    seq![PanelOpView::Hide { hwnd: st.hwnd }]
                } else {
                    seq![]
                }
            },
            None => seen(*final(state)) is None && ops_seen(ops@) == Seq::<PanelOpView>::empty(),
        },
        sound(seen(*old(state))) ==> sound(seen(*final(state))),
{
    let mut ops: Vec<PanelOp> = no_ops();
    if let Some(st) = state {
        if st.visible {
            st.visible = false;
            push_op(&mut ops, PanelOp::Hide { hwnd: st.hwnd });
            assert(ops_seen(ops@) =~= seq![PanelOpView::Hide { hwnd: st.hwnd as int }]);
        }
    }
    ops
}

/// Whether the panel is in view.
pub open spec fn in_view(state: Option<DetailView>) -> bool {
    state matches Some(st) && st.visible
}

pub fn is_visible(state: &Option<DetailState>) -> (yes: bool)
    ensures
        yes == in_view(seen(*state)),
{
    match state {
        Some(st) => st.visible,
        None => false,
    }
}

/// Forgets the window, and has it closed.
pub fn destroy(state: &mut Option<DetailState>) -> (ops: Vec<PanelOp>)
    ensures
        *final(state) is None,
        ops_seen(ops@) == match seen(*old(state)) {
            Some(st) => seq![PanelOpView::Close { hwnd: st.hwnd }],
            None => seq![],
        },
{
    let mut ops: Vec<PanelOp> = no_ops();
    match state.take() {
        Some(st) => {
            push_op(&mut ops, PanelOp::Close { hwnd: st.hwnd });
            assert(ops_seen(ops@) =~= seq![PanelOpView::Close { hwnd: st.hwnd as int }]);
        },
        None => {},
    }
    ops
}

// ----- pixels -----------------------------------------------------------------

/// A pixel of the same colour without transparency.
pub open spec fn sealed(pixel: u32) -> u32 {
    (0xFF00_0000 + pixel % 0x100_0000) as u32
}

/// Makes every pixel opaque, since drawing text leaves transparent ones behind.
pub fn seal(bits: &mut [u32])
    ensures
        final(bits)@ == old(bits)@.map_values(|pixel: u32| sealed(pixel)),
{
    let n: usize = bits.len();
    let mut k: usize = 0;
    while k < n
        invariant
            k <= n == bits@.len(),
            bits@.len() == old(bits)@.len(),
            forall|i: int| 0 <= i < k ==> #[trigger] bits@[i] == sealed(old(bits)@[i]),
            forall|i: int| k <= i < n ==> #[trigger] bits@[i] == old(bits)@[i],
        decreases n - k,
    {
        let pixel: u32 = bits[k];
        assert(pixel | 0xFF00_0000 == 0xFF00_0000 + pixel % 0x100_0000) by (bit_vector);
        bits[k] = pixel | 0xFF00_0000;
        k = k + 1;
    }
    assert(bits@ =~= old(bits)@.map_values(|pixel: u32| sealed(pixel)));
}

// ----- laws -------------------------------------------------------------------

/// Whether a step draws only between the given edges.
pub open spec fn step_inside(op: CardOpView, w: int, top: int, bottom: int) -> bool {
    match op {
        CardOpView::Fill(b) => {
            &&& 0 <= b.x
            &&& b.x + b.bw <= w
            &&& top <= b.y
            &&& b.y + b.bh <= bottom
        },
        CardOpView::Text(l) => {
            &&& 0 <= l.area.left <= l.area.right <= w
            &&& top <= l.area.top <= l.area.bottom <= bottom
        },
    }
}

/// Whether all steps draw only between the given edges.
pub open spec fn steps_inside(ops: Seq<CardOpView>, w: int, top: int, bottom: int) -> bool {
    forall|k: int| 0 <= k < ops.len() ==> step_inside(#[trigger] ops[k], w, top, bottom)
}

proof fn lemma_line_inside(
    label: Seq<char>,
    pct: PercentView,
    reset: Seq<char>,
    y: int,
    s: int,
    is_dark: bool,
)
    requires
        1 <= s,
        card_w(s) <= i32::MAX,
        0 <= y,
        y + 18 * s <= i32::MAX,
        pct.wf(),
    ensures
        steps_inside(line_steps(label, pct, reset, y, s, is_dark), card_w(s), y, y + 18 * s),
{
    lemma_measures(s);
    assert(0 <= pct.columns * s <= 132 * s) by (nonlinear_arith)
        requires
            0 <= pct.columns <= 132,
            1 <= s,
    ;
}

/// A model's name and lines lie between the card's edges, in the part of the card that is theirs.
pub proof fn law_rows_keep_to_themselves(row: RowView, y: int, s: int, is_dark: bool)
    requires
        1 <= s,
        card_w(s) <= i32::MAX,
        0 <= y,
        y + ROW_H * s <= i32::MAX,
        row.session_pct.wf(),
        row.weekly_pct.wf(),
    ensures
        steps_inside(row_steps(row, y, s, is_dark), card_w(s), y, y + ROW_H * s),
{
    lemma_measures(s);
    lemma_line_inside("5h"@, row.session_pct, row.session_reset, y + 20 * s, s, is_dark);
    lemma_line_inside("7d"@, row.weekly_pct, row.weekly_reset, y + 38 * s, s, is_dark);
}

proof fn lemma_rows_inside(data: DataView, n: int, rows: int, s: int)
    requires
        1 <= s,
        0 <= n <= rows == data.rows.len(),
        data.wf(),
        card_fits(rows, s),
    ensures
        steps_inside(rows_steps(data, n, s), card_w(s), 0, card_h(rows, s)),
    decreases n,
{
    if n > 0 {
        lemma_measures(s);
        lemma_rows_inside(data, n - 1, rows, s);
        lemma_row_place(n - 1, rows, s);
        law_rows_keep_to_themselves(
            data.rows[n - 1],
            PAD * s + ROW_H * s * (n - 1),
            s,
            data.is_dark,
        );
    }
}

/// Nothing on a card sticks out of it.
pub proof fn law_cards_hold_what_they_show(st: DetailView)
    requires
        st.wf(),
        card_fits(st.data.rows.len() as int, st.s),
    ensures
        steps_inside(card_of(st).ops, card_of(st).w, 0, card_of(st).h),
{
    let rows = st.data.rows.len() as int;
    let s = st.s;
    lemma_measures(s);
    let per = ROW_H * s;
    assert(per * (if rows > 1 {
        rows
    } else {
        1
    }) >= per) by (nonlinear_arith)
        requires
            per >= 1,
    ;
    lemma_rows_inside(st.data, rows, rows, s);
}

/// A finished card is opaque everywhere, and no colour has changed.
pub proof fn law_cards_are_opaque(bits: Seq<u32>, i: int)
    requires
        0 <= i < bits.len(),
    ensures
        bits.map_values(|pixel: u32| sealed(pixel))[i] >= 0xFF00_0000,
        bits.map_values(|pixel: u32| sealed(pixel))[i] % 0x100_0000 == bits[i] % 0x100_0000,
{
}

/// The panel is in view from when it is shown until it is hidden. Hiding keeps the contents, and
/// hiding once more changes nothing.
pub proof fn law_shown_until_hidden(st: DetailView, data: DataView)
    ensures
        in_view(Some(shown(st, data))),
        shown(st, data).data == data,
        !in_view(Some(hidden(st))),
        hidden(st).data == st.data,
        hidden(hidden(st)) == hidden(st),
        !in_view(None),
{
}

/// Each bar colour stands for one unbroken range of percentages.
pub proof fn law_bar_colours_are_ranges(low: int, high: int, is_dark: bool)
    requires
        low <= high,
        bar_rgb(low, is_dark) == bar_rgb(high, is_dark),
    ensures
        forall|mid: int| low <= mid <= high ==> bar_rgb(mid, is_dark) == bar_rgb(low, is_dark),
{
}

} // verus!
