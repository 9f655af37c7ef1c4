//! What a card of the detail panel tells, stated in the places, words and colours that can be seen
//! on it.

use crate::canvas::opaque;
use crate::canvas::{Block, Rect, Rgb};
use crate::character::NewWindow;
use crate::detail::bar_rgb;
use crate::detail::border_steps;
use crate::detail::card_of;
use crate::detail::hidden;
use crate::detail::in_view;
use crate::detail::lemma_measures;
use crate::detail::line_steps;
use crate::detail::ops_seen;
use crate::detail::place_of;
use crate::detail::row_steps;
use crate::detail::rows_steps;
use crate::detail::sealed;
use crate::detail::seen;
use crate::detail::shown;
use crate::detail::started;
use crate::detail::steps_seen;
use crate::detail::theme;
use crate::detail::{Align, Card, CardOp, Font, Label, PanelOp};
use crate::detail::{CardOpView, DataView, DetailView, LabelView, PanelOpView, PercentView, RowView};
use crate::detail::{DetailData, DetailRow, DetailState, Percent};
use crate::dpi::scale_of;
use vstd::prelude::*;

verus! {

// ----- what is seen -----------------------------------------------------------

/// The views of the panel's data show all that there is of it.
pub proof fn law_data_is_seen_whole(p: Percent, r: DetailRow, d: DetailData, k: int)
    ensures
        p@.whole == p.whole,
        p@.columns == p.columns,
        p@.label == p.label@,
        r@.name == r.name@,
        r@.session_pct == r.session_pct@,
        r@.session_reset == r.session_reset@,
        r@.weekly_pct == r.weekly_pct@,
        r@.weekly_reset == r.weekly_reset@,
        d@.is_dark == d.is_dark,
        d@.rows.len() == d.rows@.len(),
        0 <= k < d.rows@.len() ==> d@.rows[k] == d.rows@[k]@,
{
}

/// The view of the panel's state shows all that there is of it, and nothing where there is none.
pub proof fn law_panels_are_seen_whole(st: DetailState)
    ensures
        seen(None) is None,
        seen(Some(st)) == Some(st@),
        st@.hwnd == st.hwnd,
        st@.s == st.s,
        st@.visible == st.visible,
        st@.data == st.data@,
{
}

/// The views of a card and of what is drawn on it show all that there is of them.
pub proof fn law_cards_are_seen_whole(c: Card, l: Label, b: Block, k: int)
    ensures
        l@ == (LabelView {
            text: l.text@,
            area: l.area,
            font: l.font,
            color: l.color,
            align: l.align,
        }),
        CardOp::Fill(b)@ == CardOpView::Fill(b),
        CardOp::Text(l)@ == CardOpView::Text(l@),
        c@.hwnd == c.hwnd,
        c@.s == c.s,
        c@.w == c.w,
        c@.h == c.h,
        c@.background == c.background,
        c@.ops == steps_seen(c.ops@),
        steps_seen(c.ops@).len() == c.ops@.len(),
        0 <= k < c.ops@.len() ==> steps_seen(c.ops@)[k] == c.ops@[k]@,
{
}

/// A list of operations is seen one for one.
pub proof fn law_panel_operations_are_seen_whole(ops: Seq<PanelOp>, i: int)
    requires
        0 <= i < ops.len(),
    ensures
        ops_seen(ops).len() == ops.len(),
        ops_seen(ops)[i] == match ops[i] {
            PanelOp::Place { hwnd, x, y, w, h } => PanelOpView::Place {
                hwnd: hwnd as int,
                x: x as int,
                y: y as int,
                w: w as int,
                h: h as int,
            },
            PanelOp::Hide { hwnd } => PanelOpView::Hide { hwnd: hwnd as int },
            PanelOp::Close { hwnd } => PanelOpView::Close { hwnd: hwnd as int },
            PanelOp::Paint(card) => PanelOpView::Paint(card@),
        },
{
}

// ----- the state --------------------------------------------------------------

/// Showing changes whether the panel is in view and what it holds, hiding only whether it is in
/// view. A new panel is out of view and empty.
pub proof fn law_panels_hold_what_they_are_given(st: DetailView, data: DataView, win: NewWindow)
    ensures
        shown(st, data) == (DetailView { hwnd: st.hwnd, s: st.s, visible: true, data }),
        hidden(st) == (DetailView { hwnd: st.hwnd, s: st.s, visible: false, data: st.data }),
        started(win).hwnd == win.hwnd,
        started(win).s == scale_of(win.dpi as int),
        !started(win).visible,
        started(win).data.rows.len() == 0,
        started(win).data.is_dark,
        in_view(Some(st)) == st.visible,
        !in_view(None),
{
}

/// The panel stands with its right edge on the anchor's and its bottom 4 pixels above the anchor,
/// unless that would take it beyond the left or the top edge of the screen: then it stands there. It
/// has the size of its card.
pub proof fn law_panels_stand_over_their_anchors(st: DetailView, anchor: Rect)
    ensures
        place_of(st, anchor) matches PanelOpView::Place { hwnd, x, y, w, h } && {
            &&& hwnd == st.hwnd
            &&& w == card_of(st).w
            &&& h == card_of(st).h
            &&& anchor.right >= w ==> x + w == anchor.right
            &&& anchor.right < w ==> x == 0
            &&& anchor.top >= h + 4 ==> y + h + 4 == anchor.top
            &&& anchor.top < h + 4 ==> y == 0
        },
{
}

/// A card is 278 logical pixels wide, and has 64 for every model and 20 besides in height; without
/// any model there is room for one. It has the background of its theme.
pub proof fn law_cards_have_room_for_their_rows(st: DetailView)
    ensures
        card_of(st).hwnd == st.hwnd,
        card_of(st).s == st.s,
        card_of(st).w == 278 * st.s,
        st.data.rows.len() >= 1 ==> card_of(st).h == 20 * st.s + 64 * st.s * st.data.rows.len(),
        st.data.rows.len() == 0 ==> card_of(st).h == 84 * st.s,
        st.data.is_dark ==> card_of(st).background == opaque((32, 33, 36)),
        !st.data.is_dark ==> card_of(st).background == opaque((248, 248, 248)),
{
    lemma_measures(st.s);
    assert(64 * st.s * 1 == 64 * st.s);
}

// ----- what is drawn ----------------------------------------------------------

/// A text between the given edges.
pub open spec fn text_at(
    text: Seq<char>,
    left: int,
    top: int,
    right: int,
    bottom: int,
    font: Font,
    color: Rgb,
    align: Align,
) -> CardOpView {
    CardOpView::Text(
        LabelView {
            text,
            area: Rect {
                left: left as i32,
                top: top as i32,
                right: right as i32,
                bottom: bottom as i32,
            },
            font,
            color,
            align,
        },
    )
}

/// A filled rectangle.
pub open spec fn fill_at(x: int, y: int, bw: int, bh: int, color: Rgb) -> CardOpView {
    CardOpView::Fill(
        Block { x: x as i32, y: y as i32, bw: bw as i32, bh: bh as i32, color: opaque(color) },
    )
}

/// One step is drawn, and a second one after it.
pub open spec fn one_after(ops: Seq<CardOpView>, first: CardOpView, second: CardOpView) -> bool {
    exists|i: int, j: int|
        0 <= i < j < ops.len() && #[trigger] ops[i] == first && #[trigger] ops[j] == second
}

/// The colour of ordinary text.
pub open spec fn bright(is_dark: bool) -> Rgb {
    if is_dark {
        (225, 226, 230)
    } else {
        (40, 42, 48)
    }
}

/// The colour of text that stands back.
pub open spec fn dim(is_dark: bool) -> Rgb {
    if is_dark {
        (150, 152, 158)
    } else {
        (110, 112, 118)
    }
}

/// The colour of a bar's track.
pub open spec fn groove(is_dark: bool) -> Rgb {
    if is_dark {
        (60, 62, 68)
    } else {
        (214, 214, 220)
    }
}

/// Bars are green below 80 percent, yellow from 80, orange from 90 and red from 95 on, in the shades
/// of the theme.
pub proof fn law_bars_warn(whole: int)
    ensures
        whole < 80 ==> bar_rgb(whole, true) == (76u8, 199u8, 107u8) && bar_rgb(whole, false) == (
            46u8,
            158u8,
            79u8,
        ),
        80 <= whole < 90 ==> bar_rgb(whole, true) == (242u8, 193u8, 78u8) && bar_rgb(whole, false)
            == (201u8, 162u8, 30u8),
        90 <= whole < 95 ==> bar_rgb(whole, true) == (255u8, 138u8, 76u8) && bar_rgb(whole, false)
            == (232u8, 115u8, 28u8),
        95 <= whole ==> bar_rgb(whole, true) == (255u8, 92u8, 92u8) && bar_rgb(whole, false) == (
            211u8,
            47u8,
            47u8,
        ),
{
}

/// A line that starts at row `y` tells its name, its percentage and, if there is one, its reset time,
/// and has a bar on a track. The bar is as many logical pixels long as the percentage has columns.
pub open spec fn line_told(
    ops: Seq<CardOpView>,
    label: Seq<char>,
    pct: PercentView,
    reset: Seq<char>,
    y: int,
    s: int,
    is_dark: bool,
) -> bool {
    let track = fill_at(32 * s, y + 9 * s / 2, 132 * s, 9 * s, groove(is_dark));
    let bar = fill_at(
        32 * s,
        y + 9 * s / 2,
        pct.columns * s,
        9 * s,
        bar_rgb(pct.whole, is_dark),
    );
    &&& ops.contains(
        text_at(label, 10 * s, y, 32 * s, y + 18 * s, Font::Small, dim(is_dark), Align::Left),
    )
    &&& ops.contains(track)
    &&& pct.columns > 0 ==> one_after(ops, track, bar)
    &&& ops.contains(
        text_at(
            pct.label + "%"@,
            170 * s,
            y,
            208 * s,
            y + 18 * s,
            Font::Small,
            bright(is_dark),
            Align::Left,
        ),
    )
    &&& reset.len() > 0 ==> ops.contains(
        text_at(reset, 214 * s, y, 268 * s, y + 18 * s, Font::Small, dim(is_dark), Align::Right),
    )
}

/// How many steps a line takes.
pub open spec fn line_count(pct: PercentView, reset: Seq<char>) -> int {
    3 + (if pct.columns > 0 {
        1int
    } else {
        0
    }) + (if reset.len() > 0 {
        1int
    } else {
        0
    })
}

proof fn lemma_line_told(
    label: Seq<char>,
    pct: PercentView,
    reset: Seq<char>,
    y: int,
    s: int,
    is_dark: bool,
)
    requires
        label.len() > 0,
    ensures
        line_told(
            line_steps(label, pct, reset, y, s, is_dark),
            label,
            pct,
            reset,
            y,
            s,
            is_dark,
        ),
        line_steps(label, pct, reset, y, s, is_dark).len() == line_count(pct, reset),
{
    lemma_measures(s);
    reveal_strlit("%");
    let ops = line_steps(label, pct, reset, y, s, is_dark);
    let c = theme(is_dark);
    assert(c[4] == dim(is_dark) && c[3] == bright(is_dark) && c[2] == groove(is_dark));
    assert((pct.label + "%"@).len() > 0);
    assert(ops[0] == text_at(
        label,
        10 * s,
        y,
        32 * s,
        y + 18 * s,
        Font::Small,
        dim(is_dark),
        Align::Left,
    ));
    assert(ops[1] == fill_at(32 * s, y + 9 * s / 2, 132 * s, 9 * s, groove(is_dark)));
    let k: int = if pct.columns > 0 {
        3
    } else {
        2
    };
    if pct.columns > 0 {
        assert(ops[2] == fill_at(
            32 * s,
            y + 9 * s / 2,
            pct.columns * s,
            9 * s,
            bar_rgb(pct.whole, is_dark),
        ));
    }
    assert(ops[k] == text_at(
        pct.label + "%"@,
        170 * s,
        y,
        208 * s,
        y + 18 * s,
        Font::Small,
        bright(is_dark),
        Align::Left,
    ));
    if reset.len() > 0 {
        assert(ops[k + 1] == text_at(
            reset,
            214 * s,
            y,
            268 * s,
            y + 18 * s,
            Font::Small,
            dim(is_dark),
            Align::Right,
        ));
    }
}

/// A row that starts at row `y` tells the model's name, and then the five-hour window and the week,
/// each in a line of its own with its own percentage and its own reset time.
pub open spec fn row_told(ops: Seq<CardOpView>, row: RowView, y: int, s: int, is_dark: bool) -> bool {
    &&& row.name.len() > 0 ==> ops.contains(
        text_at(row.name, 10 * s, y, 268 * s, y + 20 * s, Font::Name, bright(is_dark), Align::Left),
    )
    &&& line_told(ops, "5h"@, row.session_pct, row.session_reset, y + 20 * s, s, is_dark)
    &&& line_told(ops, "7d"@, row.weekly_pct, row.weekly_reset, y + 38 * s, s, is_dark)
}

/// How many steps a row takes.
pub open spec fn row_count(row: RowView) -> int {
    (if row.name.len() > 0 {
        1int
    } else {
        0
    }) + line_count(row.session_pct, row.session_reset) + line_count(
        row.weekly_pct,
        row.weekly_reset,
    )
}

/// What is told by a part of a list of steps is told by the whole.
proof fn lemma_told_on(
    a: Seq<CardOpView>,
    part: Seq<CardOpView>,
    b: Seq<CardOpView>,
    first: CardOpView,
    second: CardOpView,
)
    ensures
        part.contains(first) ==> (a + part + b).contains(first),
        one_after(part, first, second) ==> one_after(a + part + b, first, second),
{
    let all = a + part + b;
    if part.contains(first) {
        let i = choose|i: int| 0 <= i < part.len() && part[i] == first;
        assert(all[a.len() + i] == first);
    }
    if one_after(part, first, second) {
        let (i, j) = choose|i: int, j: int|
            0 <= i < j < part.len() && #[trigger] part[i] == first && #[trigger] part[j] == second;
        assert(all[a.len() + i] == first);
        assert(all[a.len() + j] == second);
    }
}

proof fn lemma_line_told_on(
    a: Seq<CardOpView>,
    part: Seq<CardOpView>,
    b: Seq<CardOpView>,
    label: Seq<char>,
    pct: PercentView,
    reset: Seq<char>,
    y: int,
    s: int,
    is_dark: bool,
)
    requires
        line_told(part, label, pct, reset, y, s, is_dark),
    ensures
        line_told(a + part + b, label, pct, reset, y, s, is_dark),
{
    let track = fill_at(32 * s, y + 9 * s / 2, 132 * s, 9 * s, groove(is_dark));
    let bar = fill_at(
        32 * s,
        y + 9 * s / 2,
        pct.columns * s,
        9 * s,
        bar_rgb(pct.whole, is_dark),
    );
    lemma_told_on(a, part, b, track, bar);
    lemma_told_on(
        a,
        part,
        b,
        text_at(label, 10 * s, y, 32 * s, y + 18 * s, Font::Small, dim(is_dark), Align::Left),
        bar,
    );
    lemma_told_on(
        a,
        part,
        b,
        text_at(
            pct.label + "%"@,
            170 * s,
            y,
            208 * s,
            y + 18 * s,
            Font::Small,
            bright(is_dark),
            Align::Left,
        ),
        bar,
    );
    lemma_told_on(
        a,
        part,
        b,
        text_at(reset, 214 * s, y, 268 * s, y + 18 * s, Font::Small, dim(is_dark), Align::Right),
        bar,
    );
}

proof fn lemma_row_told_on(
    a: Seq<CardOpView>,
    part: Seq<CardOpView>,
    b: Seq<CardOpView>,
    row: RowView,
    y: int,
    s: int,
    is_dark: bool,
)
    requires
        row_told(part, row, y, s, is_dark),
    ensures
        row_told(a + part + b, row, y, s, is_dark),
{
    let name = text_at(
        row.name,
        10 * s,
        y,
        268 * s,
        y + 20 * s,
        Font::Name,
        bright(is_dark),
        Align::Left,
    );
    lemma_told_on(a, part, b, name, name);
    lemma_line_told_on(
        a,
        part,
        b,
        "5h"@,
        row.session_pct,
        row.session_reset,
        y + 20 * s,
        s,
        is_dark,
    );
    lemma_line_told_on(
        a,
        part,
        b,
        "7d"@,
        row.weekly_pct,
        row.weekly_reset,
        y + 38 * s,
        s,
        is_dark,
    );
}

proof fn lemma_row_told(row: RowView, y: int, s: int, is_dark: bool)
    ensures
        row_told(row_steps(row, y, s, is_dark), row, y, s, is_dark),
        row_steps(row, y, s, is_dark).len() == row_count(row),
{
    lemma_measures(s);
    reveal_strlit("5h");
    reveal_strlit("7d");
    assert(theme(is_dark)[3] == bright(is_dark));
    let ops = row_steps(row, y, s, is_dark);
    let one = line_steps("5h"@, row.session_pct, row.session_reset, y + 20 * s, s, is_dark);
    let two = line_steps("7d"@, row.weekly_pct, row.weekly_reset, y + 38 * s, s, is_dark);
    lemma_line_told("5h"@, row.session_pct, row.session_reset, y + 20 * s, s, is_dark);
    lemma_line_told("7d"@, row.weekly_pct, row.weekly_reset, y + 38 * s, s, is_dark);
    let n: int = if row.name.len() > 0 {
        1
    } else {
        0
    };
    let head = ops.take(n);
    assert(ops =~= head + one + two);
    assert(ops =~= (head + one) + two + Seq::<CardOpView>::empty());
    lemma_line_told_on(
        head,
        one,
        two,
        "5h"@,
        row.session_pct,
        row.session_reset,
        y + 20 * s,
        s,
        is_dark,
    );
    lemma_line_told_on(
        head + one,
        two,
        Seq::<CardOpView>::empty(),
        "7d"@,
        row.weekly_pct,
        row.weekly_reset,
        y + 38 * s,
        s,
        is_dark,
    );
    if row.name.len() > 0 {
        assert(ops[0] == text_at(
            row.name,
            10 * s,
            y,
            268 * s,
            y + 20 * s,
            Font::Name,
            bright(is_dark),
            Align::Left,
        ));
    }
}

/// How many steps the first `n` rows take.
pub open spec fn rows_count(rows: Seq<RowView>, n: int) -> int
    decreases n,
{
    if n <= 0 {
        0
    } else {
        rows_count(rows, n - 1) + row_count(rows[n - 1])
    }
}

proof fn lemma_rows_told(data: DataView, n: int, s: int, k: int)
    requires
        0 <= k < n <= data.rows.len(),
    ensures
        row_told(rows_steps(data, n, s), data.rows[k], 10 * s + 64 * s * k, s, data.is_dark),
    decreases n,
{
    let before = rows_steps(data, n - 1, s);
    lemma_measures(s);
    let y = 10 * s + 64 * s * (n - 1);
    let last = row_steps(data.rows[n - 1], y, s, data.is_dark);
    assert(rows_steps(data, n, s) == before + last);
    if k == n - 1 {
        lemma_row_told(data.rows[k], y, s, data.is_dark);
        lemma_row_told_on(
            before,
            last,
            Seq::<CardOpView>::empty(),
            data.rows[k],
            y,
            s,
            data.is_dark,
        );
        assert(before + last + Seq::<CardOpView>::empty() =~= before + last);
    } else {
        lemma_rows_told(data, n - 1, s, k);
        lemma_row_told_on(
            Seq::<CardOpView>::empty(),
            before,
            last,
            data.rows[k],
            10 * s + 64 * s * k,
            s,
            data.is_dark,
        );
        assert(Seq::<CardOpView>::empty() + before + last =~= before + last);
    }
}

proof fn lemma_rows_count(data: DataView, n: int, s: int)
    requires
        0 <= n <= data.rows.len(),
    ensures
        rows_steps(data, n, s).len() == rows_count(data.rows, n),
    decreases n,
{
    if n > 0 {
        lemma_rows_count(data, n - 1, s);
        lemma_measures(s);
        lemma_row_told(data.rows[n - 1], 10 * s + 64 * s * (n - 1), s, data.is_dark);
    }
}

/// A card tells of every model all that there is to tell, each model in its place, 64 logical pixels
/// below the one before.
pub proof fn law_cards_tell_of_every_model(st: DetailView, k: int)
    requires
        0 <= k < st.data.rows.len(),
    ensures
        row_told(
            card_of(st).ops,
            st.data.rows[k],
            10 * st.s + 64 * st.s * k,
            st.s,
            st.data.is_dark,
        ),
{
    let n = st.data.rows.len() as int;
    let rows = rows_steps(st.data, n, st.s);
    lemma_rows_told(st.data, n, st.s, k);
    let border = border_steps(
        card_of(st).w,
        card_of(st).h,
        st.s,
        opaque(theme(st.data.is_dark)[1]),
    );
    lemma_row_told_on(
        border,
        rows,
        Seq::<CardOpView>::empty(),
        st.data.rows[k],
        10 * st.s + 64 * st.s * k,
        st.s,
        st.data.is_dark,
    );
    assert(border + rows + Seq::<CardOpView>::empty() =~= card_of(st).ops);
}

/// A card has a border along its four edges, one logical pixel wide, under all else that is drawn.
/// Nothing is drawn on it but the border and what it tells of the models.
pub proof fn law_cards_have_a_border_and_nothing_more(st: DetailView)
    ensures
        ({
            let c = card_of(st);
            let edge: Rgb = if st.data.is_dark {
                (70, 72, 78)
            } else {
                (200, 200, 205)
            };
            &&& c.ops.len() == 4 + rows_count(st.data.rows, st.data.rows.len() as int)
            &&& c.ops[0] == fill_at(0, 0, c.w, st.s, edge)
            &&& c.ops[1] == fill_at(0, c.h - st.s, c.w, st.s, edge)
            &&& c.ops[2] == fill_at(0, 0, st.s, c.h, edge)
            &&& c.ops[3] == fill_at(c.w - st.s, 0, st.s, c.h, edge)
        }),
{
    lemma_rows_count(st.data, st.data.rows.len() as int, st.s);
}

/// A sealed pixel keeps its three colours and is fully opaque.
pub proof fn law_seals_keep_the_colours(pixel: u32)
    ensures
        sealed(pixel) / 0x100_0000 == 0xFF,
        sealed(pixel) / 0x1_0000 % 0x100 == pixel / 0x1_0000 % 0x100,
        sealed(pixel) / 0x100 % 0x100 == pixel / 0x100 % 0x100,
        sealed(pixel) % 0x100 == pixel % 0x100,
{
    let p = sealed(pixel);
    assert(p / 0x100_0000 == 0xFF && p / 0x1_0000 % 0x100 == pixel / 0x1_0000 % 0x100 && p / 0x100
        % 0x100 == pixel / 0x100 % 0x100 && p % 0x100 == pixel % 0x100) by (bit_vector)
        requires
            p == 0xFF00_0000 + pixel % 0x100_0000,
    ;
}

} // verus!
