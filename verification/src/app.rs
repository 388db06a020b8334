//! Navigation and session vocabulary: views, input modes, focus, filter and sort
//! keys, the MCP listener status, and the on-disk and client-facing session shapes.

use vstd::prelude::*;

use crate::data::types::{AssetKind, Timeframe};
use crate::ui::layout::MAX_SLOTS;

verus! {

broadcast use vstd::string::group_string_axioms;

/// The three screens.
#[derive(Debug, Clone, Copy, PartialEq, Eq, Structural)]
pub enum View {
    Overview,
    Detail,
    Settings,
}

/// Vim-style modal input: the same key means different things per mode.
#[derive(Debug, Clone, Copy, PartialEq, Eq, Structural)]
pub enum InputMode {
    Normal,
    Command,
    Search,
}

/// Which Overview panel holds keyboard focus.
#[derive(Debug, Clone, Copy, PartialEq, Eq, Structural)]
pub enum FocusRegion {
    Table,
    Grid,
}

/// The watchlist filter tabs.
#[derive(Debug, Clone, Copy, PartialEq, Eq, Structural)]
pub enum AssetFilter {
    All,
    Stocks,
    Crypto,
    Indices,
}

/// The successor of a filter in the `f` cycle.
pub open spec fn next_filter(f: AssetFilter) -> AssetFilter {
    match f {
        AssetFilter::All => AssetFilter::Stocks,
        AssetFilter::Stocks => AssetFilter::Crypto,
        AssetFilter::Crypto => AssetFilter::Indices,
        AssetFilter::Indices => AssetFilter::All,
    }
}

impl AssetFilter {
    /// `f` cycles through the filters in order: All, Stocks, Crypto, Indices, All.
    pub fn next(self) -> (r: AssetFilter)
        ensures
            r == next_filter(self),
    {
        match self {
            AssetFilter::All => AssetFilter::Stocks,
            AssetFilter::Stocks => AssetFilter::Crypto,
            AssetFilter::Crypto => AssetFilter::Indices,
            AssetFilter::Indices => AssetFilter::All,
        }
    }
}

/// Cycling the filter four times comes back to where it started, and every filter
/// is reached along the way.
pub proof fn lemma_filter_cycle(f: AssetFilter)
    ensures
        next_filter(next_filter(next_filter(next_filter(f)))) == f,
        f != next_filter(f),
        f != next_filter(next_filter(f)),
        f != next_filter(next_filter(next_filter(f))),
{
}

/// Watchlist sort keys.
#[derive(Debug, Clone, Copy, PartialEq, Eq, Structural)]
pub enum SortKey {
    Symbol,
    Price,
    ChangePct,
    MarketCap,
}

/// Whether the MCP session socket bound, and if not, why.
#[derive(Debug, Clone, Copy, PartialEq, Eq, Structural)]
pub enum McpListener {
    /// Bound and serving (or a platform without the socket).
    Active,
    /// The user turned it off in the config.
    Disabled,
    /// A live instance already owns the socket.
    OtherInstance,
    /// Bind failed; MCP session tools are off.
    Failed,
}

impl McpListener {
    /// The status-row notice for a degraded listener, `None` when there is
    /// nothing to report.
    pub fn notice(self) -> (r: Option<&'static str>)
        ensures
            (self == McpListener::Active || self == McpListener::Disabled) ==> r is None,
            self == McpListener::OtherInstance ==> r == Some("MCP: inactive (another instance)"),
            self == McpListener::Failed ==> r == Some("MCP: inactive (socket error)"),
    {
        match self {
            McpListener::Active | McpListener::Disabled => None,
            McpListener::OtherInstance => Some("MCP: inactive (another instance)"),
            McpListener::Failed => Some("MCP: inactive (socket error)"),
        }
    }
}

impl Default for McpListener {
    fn default() -> (r: McpListener)
        ensures
            r == McpListener::Active,
    {
        McpListener::Active
    }
}

/// A read-only view of the live session for the MCP `get_session` tool: the
/// timeframe is its human label and symbols are resolved rather than indices.
#[derive(Debug, Clone)]
pub struct SessionSnapshot {
    pub view: View,
    /// Human timeframe label (e.g. `"1Y"`).
    pub timeframe: String,
    /// The four chart panes in order; `None` is an empty pane.
    pub slots: [Option<String>; MAX_SLOTS],
    pub focused_slot: usize,
    pub filter: AssetFilter,
    /// Symbol highlighted in the watchlist table, if any.
    pub watchlist_selected: Option<String>,
    /// The drilldown symbol when the view is Detail.
    pub detail_symbol: Option<String>,
}

/// The disposable slice of state written to `session.json` on quit.
#[derive(Debug, Clone)]
pub struct Session {
    /// `None` = empty pane.
    pub slots: [Option<String>; MAX_SLOTS],
    pub focused_slot: usize,
    pub timeframe: Timeframe,
    pub view: View,
    pub selected_row: usize,
    pub scroll_offset: usize,
    pub filter: AssetFilter,
}

} // verus!
