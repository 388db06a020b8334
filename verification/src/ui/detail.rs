//! Detail view geometry: the main chart absorbs the slack in both axes, the volume
//! and RSI strips keep a fixed height, the fundamentals rail a fixed width, and the
//! bar is always the last two rows.

use vstd::prelude::*;

use crate::text::{char_count, push_char, push_repeat, push_str, repeat};
use crate::ui::layout::{
    align_right, right_start, span_views, Area, Span, SpanView, DETAIL_AXIS_WIDTH, DETAIL_RAIL_WIDTH,
    DETAIL_RSI_ROWS, DETAIL_VOLUME_ROWS,
};
use crate::ui::theme::Role;

verus! {

broadcast use vstd::string::group_string_axioms;

/// Volume strip height: body rows plus top and bottom border.
pub const VOLUME_H: u16 = 5;

/// RSI strip height: body rows plus top and bottom border.
pub const RSI_H: u16 = 6;

/// The MA legend at the start of the main chart's bottom border.
pub open spec fn legend() -> Seq<char> {
    "└── ma50 ·── ma200 ·"@
}

/// Trailing dashes after the timeframe on the main chart's bottom border.
pub const RIGHT_DASHES: usize = 7;

/// Candle columns for a left panel of the given width: minus two borders, two
/// padding columns and the price-axis gutter.
pub fn candle_cols(width: u16) -> (n: usize)
    ensures
        n == if width >= 12 { width - 12 } else { 0 },
{
    width.saturating_sub(4 + DETAIL_AXIS_WIDTH as u16) as usize
}

/// Dashes between the legend and the timeframe on a `width`-wide border.
pub open spec fn legend_gap(width: int, tf_len: int) -> int {
    let used = 20 + 7 + 1 + tf_len + 2;
    if width >= used { width - used } else { 0 }
}

/// The main chart's bottom border: legend, dashes, ` tf `, seven dashes, `┘`.
pub open spec fn main_border_spec(tf: Seq<char>, width: int) -> Seq<char> {
    legend() + repeat('─', legend_gap(width, tf.len() as int) as nat) + seq![' '] + tf + seq![' ']
        + repeat('─', 7) + seq!['┘']
}

/// The main chart's bottom border, carrying the MA legend and the timeframe; the
/// timeframe keeps seven trailing dashes so it stays right-anchored.
pub fn main_bottom_border(tf: &str, width: u16) -> (s: String)
    requires
        tf@.len() + 30 <= usize::MAX,
    ensures
        s@ == main_border_spec(tf@, width as int),
{
    proof {
        reveal_strlit("└── ma50 ·── ma200 ·");
    }
    let seg_len = char_count(tf) + 2;
    let used = 20 + RIGHT_DASHES + 1 + seg_len;
    let left = (width as usize).saturating_sub(used);
    let mut s = "└── ma50 ·── ma200 ·".to_string();
    push_repeat(&mut s, '─', left);
    push_char(&mut s, ' ');
    push_str(&mut s, tf);
    push_char(&mut s, ' ');
    push_repeat(&mut s, '─', RIGHT_DASHES);
    push_char(&mut s, '┘');
    assert(s@ =~= main_border_spec(tf@, width as int));
    s
}

/// Column (relative to the chart's left edge) where the timeframe label is
/// repainted on the bottom border.
pub fn main_tf_col(width: u16, tf_len: u16) -> (c: u16)
    requires
        9 + tf_len <= u16::MAX,
    ensures
        c == if width >= 9 + tf_len { width - 9 - tf_len } else { 0 },
{
    width.saturating_sub(9 + tf_len)
}

/// On a border wide enough for the legend and the label, the border is exactly
/// `width` cells, the legend opens it, and the timeframe sits exactly where
/// `main_tf_col` repaints it.
pub proof fn lemma_main_border_layout(tf: Seq<char>, width: int)
    requires
        width >= 30 + tf.len(),
    ensures
        ({
            let b = main_border_spec(tf, width);
            let col = width - 9 - tf.len();
            &&& b.len() == width
            &&& b.subrange(0, 20) == legend()
            &&& b.subrange(col, col + tf.len()) == tf
        }),
{
    reveal_strlit("└── ma50 ·── ma200 ·");
    let b = main_border_spec(tf, width);
    let col = width - 9 - tf.len();
    assert(b.subrange(0, 20) =~= legend());
    assert(b.subrange(col, col + tf.len()) =~= tf);
}

/// The four panels of the detail view and the bar.
pub struct DetailLayout {
    pub main: Area,
    pub volume: Area,
    pub rsi: Area,
    pub rail: Area,
    pub bar: Area,
}

/// Splits a `w` x `h` screen: rail fixed on the right, main chart taking whatever
/// the fixed-height volume and RSI strips leave, bar on the last two rows.
pub fn detail_layout(w: u16, h: u16) -> (l: DetailLayout)
    requires
        h >= 2,
    ensures
        ({
            let main_w = if w >= 32 { w - 32 } else { 0 };
            let panels_h = h - 2;
            let main_h = if panels_h >= 11 { panels_h - 11 } else { 0 };
            &&& l.main == Area { x: 0, y: 0, width: main_w as u16, height: main_h as u16 }
            &&& l.volume == Area { x: 0, y: main_h as u16, width: main_w as u16, height: VOLUME_H }
            &&& l.rsi == Area { x: 0, y: (main_h + 5) as u16, width: main_w as u16, height: RSI_H }
            &&& l.rail == Area { x: main_w as u16, y: 0, width: DETAIL_RAIL_WIDTH, height: panels_h as u16 }
            &&& l.bar == Area { x: 0, y: (h - 2) as u16, width: w, height: 2 }
        }),
{
    let main_w = w.saturating_sub(DETAIL_RAIL_WIDTH);
    let panels_h = h - 2;
    let main_h = panels_h.saturating_sub(VOLUME_H + RSI_H);
    DetailLayout {
        main: Area { x: 0, y: 0, width: main_w, height: main_h },
        volume: Area { x: 0, y: main_h, width: main_w, height: VOLUME_H },
        rsi: Area { x: 0, y: main_h + VOLUME_H, width: main_w, height: RSI_H },
        rail: Area { x: main_w, y: 0, width: DETAIL_RAIL_WIDTH, height: panels_h },
        bar: Area { x: 0, y: h - 2, width: w, height: 2 },
    }
}

/// When the screen is at least 32 wide and 13 tall, the left column's panels stack
/// with no gap down to the bar, and the rail reaches the right edge.
pub proof fn lemma_detail_panels_tile(w: u16, h: u16)
    requires
        w >= 32,
        h >= 13,
    ensures
        ({
            let main_h = h - 13;
            &&& main_h + VOLUME_H + RSI_H == h - 2
            &&& (w - 32) + DETAIL_RAIL_WIDTH == w
        }),
{
}

/// The candle interior of a main-chart, volume or RSI panel: inset two columns and
/// one border row, as wide as `candle_cols` says (the right gutter carries the axis
/// labels).
pub fn strip_interior(area: Area) -> (r: Area)
    requires
        area.x + 2 <= u16::MAX,
        area.y + 1 <= u16::MAX,
    ensures
        r == (Area {
            x: (area.x + 2) as u16,
            y: (area.y + 1) as u16,
            width: (if area.width >= 12 { area.width - 12 } else { 0 }) as u16,
            height: (if area.height >= 2 { area.height - 2 } else { 0 }) as u16,
        }),
{
    Area {
        x: area.x + 2,
        y: area.y + 1,
        width: candle_cols(area.width) as u16,
        height: area.height.saturating_sub(2),
    }
}

/// Where a panel's axis labels go: they end at column `end`, on rows `top` (first
/// body row), `mid` (halfway) and `bot` (last body row).
pub struct AxisRows {
    pub end: u16,
    pub top: u16,
    pub mid: u16,
    pub bot: u16,
}

/// The axis-label positions of a panel.
pub fn axis_rows(area: Area) -> (a: AxisRows)
    requires
        area.width >= 3,
        area.height >= 2,
        area.x + area.width <= u16::MAX,
        area.y + area.height <= u16::MAX,
    ensures
        a.end == area.x + area.width - 3,
        a.top == area.y + 1,
        a.bot == area.y + area.height - 2,
        a.mid == (a.top + a.bot) / 2,
{
    let top = area.y + 1;
    let bot = area.y + area.height - 2;
    let mid = ((top as u32 + bot as u32) / 2) as u16;
    AxisRows { end: area.x + area.width - 3, top, mid, bot }
}

/// The legend repainted over the main chart's bottom border, and the timeframe
/// label where `main_tf_col` puts it: `ma50 ·` in the short average's colour,
/// `ma200 ·` in the long one's, the label in accent.
pub open spec fn legend_spec(x: int, y: int, tf: Seq<char>, width: int) -> Seq<SpanView> {
    seq![
        SpanView { x: x + 4, y, text: "ma50"@, role: Role::Warn },
        SpanView { x: x + 9, y, text: "·"@, role: Role::Warn },
        SpanView { x: x + 13, y, text: "ma200"@, role: Role::Heading },
        SpanView { x: x + 19, y, text: "·"@, role: Role::Heading },
        SpanView {
            x: x + if width >= 9 + tf.len() { width - 9 - tf.len() } else { 0 },
            y,
            text: tf,
            role: Role::Accent,
        },
    ]
}

/// Lays out the legend of a main chart at `area` with timeframe label `tf`.
pub fn legend_spans(area: Area, tf: &str) -> (v: Vec<Span>)
    requires
        area.height >= 1,
        area.x + area.width + 20 <= u16::MAX,
        area.y + area.height <= u16::MAX,
        tf@.len() + 9 <= u16::MAX,
    ensures
        span_views(v@) == legend_spec(area.x as int, area.y + area.height - 1, tf@, area.width as int),
{
    let y = area.y + area.height - 1;
    let x = area.x;
    let mut v: Vec<Span> = Vec::new();
    v.push(Span { x: x + 4, y, text: "ma50".to_string(), role: Role::Warn });
    v.push(Span { x: x + 9, y, text: "·".to_string(), role: Role::Warn });
    v.push(Span { x: x + 13, y, text: "ma200".to_string(), role: Role::Heading });
    v.push(Span { x: x + 19, y, text: "·".to_string(), role: Role::Heading });
    let col = main_tf_col(area.width, char_count(tf) as u16);
    v.push(Span { x: x + col, y, text: tf.to_string(), role: Role::Accent });
    assert(span_views(v@) =~= legend_spec(x as int, y as int, tf@, area.width as int));
    v
}

/// The fundamentals rail's fixed text: row labels in muted, section headings in
/// heading, all starting two columns inside the rail at `x + 2`. Rows count from
/// the top of the screen: the rail is anchored at row 0.
pub open spec fn rail_label_spec(x: int) -> Seq<SpanView> {
    let lx = x + 2;
    seq![
        SpanView { x: lx, y: 2, text: "market cap"@, role: Role::Muted },
        SpanView { x: lx, y: 3, text: "p/e (ttm)"@, role: Role::Muted },
        SpanView { x: lx, y: 4, text: "p/e (fwd)"@, role: Role::Muted },
        SpanView { x: lx, y: 5, text: "eps (ttm)"@, role: Role::Muted },
        SpanView { x: lx, y: 6, text: "div yield"@, role: Role::Muted },
        SpanView { x: lx, y: 7, text: "beta"@, role: Role::Muted },
        SpanView { x: lx, y: 16, text: "ma50"@, role: Role::Muted },
        SpanView { x: lx, y: 17, text: "ma200"@, role: Role::Muted },
        SpanView { x: lx, y: 18, text: "rsi (14)"@, role: Role::Muted },
        SpanView { x: lx, y: 21, text: "open"@, role: Role::Muted },
        SpanView { x: lx, y: 22, text: "prev close"@, role: Role::Muted },
        SpanView { x: lx, y: 23, text: "day high"@, role: Role::Muted },
        SpanView { x: lx, y: 24, text: "day low"@, role: Role::Muted },
        SpanView { x: lx, y: 9, text: "day range"@, role: Role::Heading },
        SpanView { x: lx, y: 12, text: "52-wk range"@, role: Role::Heading },
        SpanView { x: lx, y: 15, text: "indicators"@, role: Role::Heading },
        SpanView { x: lx, y: 20, text: "session"@, role: Role::Heading },
    ]
}

/// Lays out the rail's fixed text for a rail at column `x`.
pub fn rail_labels(x: u16) -> (v: Vec<Span>)
    requires
        x + 2 <= u16::MAX,
    ensures
        span_views(v@) == rail_label_spec(x as int),
{
    let lx = x + 2;
    let mut v: Vec<Span> = Vec::new();
    v.push(Span { x: lx, y: 2, text: "market cap".to_string(), role: Role::Muted });
    v.push(Span { x: lx, y: 3, text: "p/e (ttm)".to_string(), role: Role::Muted });
    v.push(Span { x: lx, y: 4, text: "p/e (fwd)".to_string(), role: Role::Muted });
    v.push(Span { x: lx, y: 5, text: "eps (ttm)".to_string(), role: Role::Muted });
    v.push(Span { x: lx, y: 6, text: "div yield".to_string(), role: Role::Muted });
    v.push(Span { x: lx, y: 7, text: "beta".to_string(), role: Role::Muted });
    v.push(Span { x: lx, y: 16, text: "ma50".to_string(), role: Role::Muted });
    v.push(Span { x: lx, y: 17, text: "ma200".to_string(), role: Role::Muted });
    v.push(Span { x: lx, y: 18, text: "rsi (14)".to_string(), role: Role::Muted });
    v.push(Span { x: lx, y: 21, text: "open".to_string(), role: Role::Muted });
    v.push(Span { x: lx, y: 22, text: "prev close".to_string(), role: Role::Muted });
    v.push(Span { x: lx, y: 23, text: "day high".to_string(), role: Role::Muted });
    v.push(Span { x: lx, y: 24, text: "day low".to_string(), role: Role::Muted });
    v.push(Span { x: lx, y: 9, text: "day range".to_string(), role: Role::Heading });
    v.push(Span { x: lx, y: 12, text: "52-wk range".to_string(), role: Role::Heading });
    v.push(Span { x: lx, y: 15, text: "indicators".to_string(), role: Role::Heading });
    v.push(Span { x: lx, y: 20, text: "session".to_string(), role: Role::Heading });
    assert(span_views(v@) =~= rail_label_spec(x as int));
    v
}

/// A value shown on the fundamentals rail, one per labelled row. `DayHigh` is the
/// top of the day's range and `DayLow` its bottom.
#[derive(Debug, Clone, Copy, PartialEq, Eq, Structural)]
pub enum RailField {
    MarketCap,
    PeTrailing,
    PeForward,
    EpsTrailing,
    DivYield,
    Beta,
    Ma50,
    Ma200,
    Rsi,
    Open,
    PrevClose,
    DayHigh,
    DayLow,
}

/// The screen row that carries `f`'s value.
pub open spec fn rail_field_row_spec(f: RailField) -> u16 {
    match f {
        RailField::MarketCap => 2,
        RailField::PeTrailing => 3,
        RailField::PeForward => 4,
        RailField::EpsTrailing => 5,
        RailField::DivYield => 6,
        RailField::Beta => 7,
        RailField::Ma50 => 16,
        RailField::Ma200 => 17,
        RailField::Rsi => 18,
        RailField::Open => 21,
        RailField::PrevClose => 22,
        RailField::DayHigh => 23,
        RailField::DayLow => 24,
    }
}

/// The label printed on `f`'s row.
pub open spec fn rail_field_label(f: RailField) -> Seq<char> {
    match f {
        RailField::MarketCap => "market cap"@,
        RailField::PeTrailing => "p/e (ttm)"@,
        RailField::PeForward => "p/e (fwd)"@,
        RailField::EpsTrailing => "eps (ttm)"@,
        RailField::DivYield => "div yield"@,
        RailField::Beta => "beta"@,
        RailField::Ma50 => "ma50"@,
        RailField::Ma200 => "ma200"@,
        RailField::Rsi => "rsi (14)"@,
        RailField::Open => "open"@,
        RailField::PrevClose => "prev close"@,
        RailField::DayHigh => "day high"@,
        RailField::DayLow => "day low"@,
    }
}

/// Position of `f`'s label among the rail's fixed spans.
pub open spec fn rail_field_index(f: RailField) -> int {
    match f {
        RailField::MarketCap => 0,
        RailField::PeTrailing => 1,
        RailField::PeForward => 2,
        RailField::EpsTrailing => 3,
        RailField::DivYield => 4,
        RailField::Beta => 5,
        RailField::Ma50 => 6,
        RailField::Ma200 => 7,
        RailField::Rsi => 8,
        RailField::Open => 9,
        RailField::PrevClose => 10,
        RailField::DayHigh => 11,
        RailField::DayLow => 12,
    }
}

/// The row on which the rail shows `f`.
pub fn rail_field_row(f: RailField) -> (r: u16)
    ensures
        r == rail_field_row_spec(f),
{
    match f {
        RailField::MarketCap => 2,
        RailField::PeTrailing => 3,
        RailField::PeForward => 4,
        RailField::EpsTrailing => 5,
        RailField::DivYield => 6,
        RailField::Beta => 7,
        RailField::Ma50 => 16,
        RailField::Ma200 => 17,
        RailField::Rsi => 18,
        RailField::Open => 21,
        RailField::PrevClose => 22,
        RailField::DayHigh => 23,
        RailField::DayLow => 24,
    }
}

/// Every rail value sits on the row of its own label: the rail's fixed text holds,
/// for each field, a muted label span naming that field on the field's row.
pub proof fn lemma_rail_field_beside_label(x: int, f: RailField)
    ensures
        rail_label_spec(x)[rail_field_index(f)] == (SpanView {
            x: x + 2,
            y: rail_field_row_spec(f) as int,
            text: rail_field_label(f),
            role: Role::Muted,
        }),
{
}

/// Inclusive column where the rail's values end, for a rail at column `x`.
pub open spec fn rail_value_end(x: int) -> int {
    x + DETAIL_RAIL_WIDTH - 3
}

/// First column of a rail value of `len` cells, right-aligned to the value edge.
pub fn rail_value_x(x: u16, len: u16) -> (c: u16)
    requires
        len >= 1,
        x + DETAIL_RAIL_WIDTH <= u16::MAX,
    ensures
        c == right_start(rail_value_end(x as int), len as int),
{
    align_right(x + DETAIL_RAIL_WIDTH - 3, len)
}

/// A moving-average row: the value (of `len` cells) ends two cells before the value
/// edge, and the trend arrow sits on the value edge. Returns (value column, arrow
/// column).
pub fn rail_ma_x(x: u16, len: u16) -> (c: (u16, u16))
    requires
        len >= 1,
        x + DETAIL_RAIL_WIDTH <= u16::MAX,
    ensures
        c.0 == right_start(rail_value_end(x as int) - 2, len as int),
        c.1 == rail_value_end(x as int),
{
    let vend = x + DETAIL_RAIL_WIDTH - 3;
    let end = vend.saturating_sub(2);
    (align_right(end, len), vend)
}

/// A range bar on the rail: the low label at the label column, the high label
/// right-aligned to the value edge, and between them a track (start column,
/// width) when there is room for one.
pub struct RangeBar {
    pub lo_x: u16,
    pub hi_x: u16,
    pub track: Option<(u16, u16)>,
}

/// The range bar geometry for a rail at column `x`, with labels of `lo_len` and
/// `hi_len` cells. The track starts one cell after the low label and ends one cell
/// before the high label; it is absent when that leaves no room.
pub fn range_bar(x: u16, lo_len: u16, hi_len: u16) -> (b: RangeBar)
    requires
        hi_len >= 1,
        x + DETAIL_RAIL_WIDTH + lo_len <= u16::MAX,
    ensures
        b.lo_x == x + 2,
        b.hi_x == right_start(rail_value_end(x as int), hi_len as int),
        ({
            let start = x + 2 + lo_len + 1;
            let end = if b.hi_x >= 1 { b.hi_x - 1 } else { 0 };
            &&& end <= start ==> b.track is None
            &&& end > start ==> b.track == Some(((start as u16), ((end - start) as u16)))
        }),
{
    let lx = x + 2;
    let hi_start = align_right(x + DETAIL_RAIL_WIDTH - 3, hi_len);
    let track_start = lx + lo_len + 1;
    let track_end = hi_start.saturating_sub(1);
    let track = if track_end <= track_start {
        None
    } else {
        Some((track_start, track_end - track_start))
    };
    RangeBar { lo_x: lx, hi_x: hi_start, track }
}

} // verus!
