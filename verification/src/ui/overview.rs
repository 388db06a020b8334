//! Overview geometry: the banner pinned to the top, the bar to the floor, the
//! watchlist a fixed 40 columns, and the 2x2 chart grid absorbing all slack.

use vstd::prelude::*;

use crate::text::chars_of;
use crate::ui::layout::{Area, BANNER_HEIGHT, BOTTOM_HEIGHT, MARQUEE_GAP, WATCHLIST_WIDTH};
use crate::ui::theme::Role;

verus! {

/// The screen regions of the overview.
pub struct OverviewLayout {
    pub banner: Area,
    pub watchlist: Area,
    /// Top-left, top-right, bottom-left, bottom-right.
    pub panes: [Area; 4],
    pub bar: Area,
}

/// The four grid panes for a grid starting at row `grid_y`, `grid_h` rows tall, on
/// a `w`-wide screen: the height splits into two pane rows (the lower one takes
/// the odd row), the width right of the watchlist into two panes (the right one
/// takes the odd column).
pub open spec fn panes_spec(grid_y: int, grid_h: int, w: int) -> Seq<Area> {
    let top_h = grid_h / 2;
    let bot_h = grid_h - top_h;
    let grid_w = if w >= 40 { w - 40 } else { 0 };
    let left_w = grid_w / 2;
    let right_w = grid_w - left_w;
    seq![
        Area { x: 40, y: grid_y as u16, width: left_w as u16, height: top_h as u16 },
        Area { x: (40 + left_w) as u16, y: grid_y as u16, width: right_w as u16, height: top_h as u16 },
        Area { x: 40, y: (grid_y + top_h) as u16, width: left_w as u16, height: bot_h as u16 },
        Area {
            x: (40 + left_w) as u16,
            y: (grid_y + top_h) as u16,
            width: right_w as u16,
            height: bot_h as u16,
        },
    ]
}

/// The 2x2 grid right of the watchlist.
pub fn grid_panes(grid_y: u16, grid_h: u16, w: u16) -> (p: [Area; 4])
    requires
        grid_y + grid_h <= u16::MAX,
    ensures
        p@ == panes_spec(grid_y as int, grid_h as int, w as int),
{
    let top_h = grid_h / 2;
    let bot_h = grid_h - top_h;
    let grid_w = w.saturating_sub(WATCHLIST_WIDTH);
    let left_w = grid_w / 2;
    let right_w = grid_w - left_w;
    let lx = WATCHLIST_WIDTH;
    let rx = WATCHLIST_WIDTH + left_w;
    let p = [
        Area { x: lx, y: grid_y, width: left_w, height: top_h },
        Area { x: rx, y: grid_y, width: right_w, height: top_h },
        Area { x: lx, y: grid_y + top_h, width: left_w, height: bot_h },
        Area { x: rx, y: grid_y + top_h, width: right_w, height: bot_h },
    ];
    assert(p@ =~= panes_spec(grid_y as int, grid_h as int, w as int));
    p
}

/// The grid panes tile the region right of the watchlist exactly: the two columns
/// meet and reach the right edge, the two rows meet and reach the bottom.
pub proof fn lemma_panes_tile(grid_y: int, grid_h: int, w: int)
    requires
        0 <= grid_y,
        0 <= grid_h,
        grid_y + grid_h <= u16::MAX,
        40 <= w <= u16::MAX,
    ensures
        ({
            let p = panes_spec(grid_y, grid_h, w);
            &&& p[0].x + p[0].width == p[1].x
            &&& p[1].x + p[1].width == w
            &&& p[2].x == p[0].x && p[3].x == p[1].x
            &&& p[0].y + p[0].height == p[2].y
            &&& p[2].y + p[2].height == grid_y + grid_h
            &&& p[0].width == p[2].width && p[1].width == p[3].width
        }),
{
}

/// Splits a `w` x `h` screen into banner, watchlist, grid and bar.
pub fn overview_layout(w: u16, h: u16) -> (l: OverviewLayout)
    requires
        h >= 2,
    ensures
        ({
            let mid_h = if h >= 5 { h - 5 } else { 0 };
            &&& l.banner == Area { x: 0, y: 0, width: w, height: 3 }
            &&& l.watchlist == Area { x: 0, y: 3, width: 40, height: mid_h as u16 }
            &&& l.panes@ == panes_spec(3, mid_h, w as int)
            &&& l.bar == Area { x: 0, y: (h - 2) as u16, width: w, height: 2 }
        }),
{
    let mid_h = h.saturating_sub(BANNER_HEIGHT + BOTTOM_HEIGHT);
    OverviewLayout {
        banner: Area { x: 0, y: 0, width: w, height: BANNER_HEIGHT },
        watchlist: Area { x: 0, y: BANNER_HEIGHT, width: WATCHLIST_WIDTH, height: mid_h },
        panes: grid_panes(BANNER_HEIGHT, mid_h, w),
        bar: Area { x: 0, y: h - BOTTOM_HEIGHT, width: w, height: BOTTOM_HEIGHT },
    }
}

/// Candle columns inside a pane: minus two borders and two padding columns.
pub fn pane_candle_cols(pane_width: u16) -> (n: usize)
    ensures
        n == if pane_width >= 4 { pane_width - 4 } else { 0 },
{
    pane_width.saturating_sub(4) as usize
}

/// Where the `enter to chart` prompt (14 cells) is centred in an empty pane.
pub fn empty_prompt_pos(area: Area) -> (p: (u16, u16))
    requires
        area.width >= 14,
        area.x + (area.width - 14) / 2 <= u16::MAX,
        area.y + area.height / 2 <= u16::MAX,
    ensures
        p == ((area.x + (area.width - 14) / 2) as u16, (area.y + area.height / 2) as u16),
{
    (area.x + (area.width - 14) / 2, area.y + area.height / 2)
}

/// Cells of the hot-movers tape shown at each column: the tape of `len` cells is
/// read circularly from `offset`, for the `width` columns of the banner interior.
pub fn marquee_window(offset: usize, len: usize, width: usize) -> (v: Vec<usize>)
    requires
        len > 0,
    ensures
        v@.len() == width,
        forall|i: int| 0 <= i < width ==> v@[i] == ((offset % len) + i) % (len as int),
{
    let start = offset % len;
    let mut v: Vec<usize> = Vec::new();
    let mut i: usize = 0;
    let mut cur: usize = start;
    proof {
        vstd::arithmetic::div_mod::lemma_mod_bound(offset as int, len as int);
        vstd::arithmetic::div_mod::lemma_small_mod(start as nat, len as nat);
    }
    while i < width
        invariant
            len > 0,
            start == offset % len,
            i <= width,
            v@.len() == i,
            cur == (start + i) % (len as int),
            forall|k: int| 0 <= k < i ==> v@[k] == (start + k) % (len as int),
        decreases width - i,
    {
        v.push(cur);
        proof {
            let x = (start + i) as int;
            let q = x / (len as int);
            vstd::arithmetic::div_mod::lemma_fundamental_div_mod(x, len as int);
            vstd::arithmetic::div_mod::lemma_mod_bound(x, len as int);
            if cur + 1 == len {
                assert(x + 1 == (q + 1) * (len as int) + 0) by (nonlinear_arith)
                    requires
                        x == (len as int) * q + cur,
                        cur + 1 == len,
                ;
                vstd::arithmetic::div_mod::lemma_fundamental_div_mod_converse(x + 1, len as int, q + 1, 0);
            } else {
                assert(x + 1 == q * (len as int) + (cur + 1)) by (nonlinear_arith)
                    requires
                        x == (len as int) * q + cur,
                ;
                vstd::arithmetic::div_mod::lemma_fundamental_div_mod_converse(x + 1, len as int, q, cur + 1);
            }
        }
        cur = if cur + 1 == len { 0 } else { cur + 1 };
        i += 1;
    }
    v
}

/// The cells of one tape segment: its characters, all in the direction's colour.
pub open spec fn segment_cells(text: Seq<char>, up: bool) -> Seq<(char, Option<Role>)> {
    text.map_values(|c: char| (c, Some(if up { Role::Up } else { Role::Down })))
}

/// The blank cells after each segment, in no colour.
pub open spec fn gap_cells() -> Seq<(char, Option<Role>)> {
    Seq::new(MARQUEE_GAP as nat, |i: int| (' ', None::<Role>))
}

/// The hot-movers tape: each segment's cells followed by the gap, in order.
pub open spec fn tape_spec(segs: Seq<(Seq<char>, bool)>) -> Seq<(char, Option<Role>)>
    decreases segs.len(),
{
    if segs.len() == 0 {
        Seq::empty()
    } else {
        tape_spec(segs.drop_last()) + segment_cells(segs.last().0, segs.last().1) + gap_cells()
    }
}

/// The segments as plain values.
pub open spec fn segment_views(segs: Seq<(String, bool)>) -> Seq<(Seq<char>, bool)> {
    segs.map_values(|s: (String, bool)| (s.0@, s.1))
}

/// Expands the tape's segments (text, and whether the mover is up) into one styled
/// cell per column, with `MARQUEE_GAP` blanks after each.
pub fn tape_cells(segs: &Vec<(String, bool)>) -> (v: Vec<(char, Option<Role>)>)
    ensures
        v@ == tape_spec(segment_views(segs@)),
{
    let ghost sv = segment_views(segs@);
    let mut v: Vec<(char, Option<Role>)> = Vec::new();
    let mut i: usize = 0;
    while i < segs.len()
        invariant
            i <= segs.len(),
            sv == segment_views(segs@),
            v@ == tape_spec(sv.take(i as int)),
        decreases segs.len() - i,
    {
        let up = segs[i].1;
        let chars = chars_of(segs[i].0.as_str());
        let role = if up { Role::Up } else { Role::Down };
        let ghost before = v@;
        let mut j: usize = 0;
        while j < chars.len()
            invariant
                j <= chars.len(),
                role == (if up { Role::Up } else { Role::Down }),
                v@ == before + segment_cells(chars@.take(j as int), up),
            decreases chars.len() - j,
        {
            v.push((chars[j], Some(role)));
            proof {
                assert(chars@.take(j + 1) =~= chars@.take(j as int).push(chars@[j as int]));
                assert(segment_cells(chars@.take(j + 1), up) =~= segment_cells(chars@.take(j as int), up).push(
                    (chars@[j as int], Some(role)),
                ));
            }
            j += 1;
        }
        let ghost mid = v@;
        let mut g: usize = 0;
        while g < MARQUEE_GAP
            invariant
                g <= MARQUEE_GAP,
                v@ == mid + Seq::new(g as nat, |k: int| (' ', None::<Role>)),
            decreases MARQUEE_GAP - g,
        {
            v.push((' ', None));
            proof {
                assert(Seq::new((g + 1) as nat, |k: int| (' ', None::<Role>)) =~= Seq::new(
                    g as nat,
                    |k: int| (' ', None::<Role>),
                ).push((' ', None::<Role>)));
            }
            g += 1;
        }
        proof {
            assert(chars@.take(chars@.len() as int) =~= chars@);
            assert(sv.take(i + 1).drop_last() =~= sv.take(i as int));
            assert(sv[i as int] == (segs@[i as int].0@, segs@[i as int].1));
            assert(v@ =~= tape_spec(sv.take(i + 1)));
        }
        i += 1;
    }
    proof {
        assert(sv.take(segs@.len() as int) =~= sv);
    }
    v
}

/// The tape drifts left as the offset advances: after one tick, each column shows
/// what the column to its right showed before.
pub proof fn lemma_marquee_drifts_left(offset: int, len: int, i: int)
    requires
        offset >= 0,
        len > 0,
        i >= 0,
    ensures
        (((offset + 1) % len) + i) % len == ((offset % len) + (i + 1)) % len,
{
    // Both sides reduce to (offset + 1 + i) % len.
    vstd::arithmetic::div_mod::lemma_add_mod_noop_right(i, offset + 1, len);
    vstd::arithmetic::div_mod::lemma_add_mod_noop_right(i + 1, offset, len);
    assert(i + (offset + 1) == (i + 1) + offset);
}

} // verus!
