//! Layout constants: the visual contract. Every width, height and column position
//! the screens use.

use vstd::prelude::*;

verus! {

/// Reference terminal width used by snapshot tests.
pub const REF_WIDTH: u16 = 96;

/// Reference terminal height used by snapshot tests.
pub const REF_HEIGHT: u16 = 31;

/// Hot-movers banner, including its top and bottom borders.
pub const BANNER_HEIGHT: u16 = 3;

/// Watchlist table panel width.
pub const WATCHLIST_WIDTH: u16 = 40;

/// Chart grid width (2 panes across).
pub const GRID_WIDTH: u16 = 56;

/// A single chart pane in the 2x2 grid.
pub const PANE_WIDTH: u16 = 28;

/// Height of a chart pane at the reference size.
pub const PANE_HEIGHT: u16 = 11;

/// Candle columns inside a grid pane (PANE_WIDTH - 2 border - 2 padding).
pub const PANE_CANDLES: usize = 24;

/// Chart body rows inside a grid pane.
pub const PANE_CHART_ROWS: usize = 9;

/// Hard cap on chart panes; the slot array has exactly this many entries.
pub const MAX_SLOTS: usize = 4;

/// Watchlist ticker column width.
pub const COL_TICKER: usize = 9;

/// Watchlist price column width.
pub const COL_PRICE: usize = 12;

/// Watchlist change column width.
pub const COL_CHANGE_PCT: usize = 9;

/// Left column of the detail view (chart + volume + rsi).
pub const DETAIL_MAIN_WIDTH: u16 = 64;

/// Right rail of the detail view (fundamentals).
pub const DETAIL_RAIL_WIDTH: u16 = 32;

/// Candle columns in the detail chart at the reference size.
pub const DETAIL_CANDLES: usize = 52;

/// Price-axis gutter on the right of the detail chart.
pub const DETAIL_AXIS_WIDTH: usize = 8;

/// Main chart body rows at the reference size.
pub const DETAIL_CHART_ROWS: usize = 14;

/// Volume histogram body rows.
pub const DETAIL_VOLUME_ROWS: usize = 3;

/// RSI pane body rows.
pub const DETAIL_RSI_ROWS: usize = 4;

/// Fundamentals rail label column width.
pub const RAIL_LABEL_WIDTH: usize = 15;

/// Fundamentals rail value column width.
pub const RAIL_VALUE_WIDTH: usize = 13;

/// Help overlay width.
pub const HELP_WIDTH: u16 = 76;

/// Help overlay height.
pub const HELP_HEIGHT: u16 = 24;

/// Bottom region: status row + hint/command row.
pub const BOTTOM_HEIGHT: u16 = 2;

/// Symbols shown in the scrolling hot-movers tape.
pub const HOT_MOVERS_COUNT: usize = 10;

/// Gap in spaces between marquee entries.
pub const MARQUEE_GAP: usize = 6;

/// Marquee advance interval in milliseconds; also the redraw tick while scrolling.
pub const MARQUEE_TICK_MS: u64 = 140;

/// A rectangle of terminal cells.
#[derive(Debug, Clone, Copy, PartialEq, Eq, Structural)]
pub struct Area {
    pub x: u16,
    pub y: u16,
    pub width: u16,
    pub height: u16,
}

/// One run of text to draw: where, what, and in which palette colour.
#[derive(Debug, Clone)]
pub struct Span {
    pub x: u16,
    pub y: u16,
    pub text: String,
    pub role: crate::ui::theme::Role,
}

/// A span as plain values.
pub struct SpanView {
    pub x: int,
    pub y: int,
    pub text: Seq<char>,
    pub role: crate::ui::theme::Role,
}

impl View for Span {
    type V = SpanView;

    open spec fn view(&self) -> SpanView {
        SpanView { x: self.x as int, y: self.y as int, text: self.text@, role: self.role }
    }
}

/// The views of a list of spans.
pub open spec fn span_views(s: Seq<Span>) -> Seq<SpanView> {
    s.map_values(|x: Span| x@)
}

/// First column of a `len`-cell string that must end at inclusive column `end`
/// (clamped at 0).
pub open spec fn right_start(end: int, len: int) -> int {
    if end >= len - 1 { end - (len - 1) } else { 0 }
}

/// First column of a string of `len` cells (`len >= 1`) right-aligned to end at
/// inclusive column `end`.
pub fn align_right(end: u16, len: u16) -> (x: u16)
    requires
        len >= 1,
    ensures
        x == right_start(end as int, len as int),
{
    end.saturating_sub(len - 1)
}

} // verus!
