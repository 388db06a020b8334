//! The glyph contract: every character the charts and tables draw with.

use vstd::prelude::*;

verus! {

/// Candle body.
pub const CANDLE_BODY: char = '█';

/// Candle wick.
pub const CANDLE_WICK: char = '│';

/// Volume bar.
pub const VOLUME_BAR: char = '█';

/// Moving-average overlay dot, drawn only into empty cells.
pub const MA_DOT: char = '·';

/// RSI point.
pub const RSI_POINT: char = '●';

/// RSI band line and range-bar track.
pub const RSI_BAND: char = '─';

/// The current price on a range bar.
pub const RANGE_MARKER: char = '●';

/// Price above the moving average.
pub const UP_ARROW: char = '▲';

/// Price below the moving average.
pub const DOWN_ARROW: char = '▼';

/// Descending sort marker.
pub const SORT_DESC: char = '▼';

/// Ascending sort marker.
pub const SORT_ASC: char = '▲';

/// Scrollbar thumb.
pub const SCROLL_THUMB: char = '█';

/// Scrollbar track.
pub const SCROLL_TRACK: char = '│';

} // verus!
