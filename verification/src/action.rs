//! The commands that arrive over the MCP session socket: intent only, never raw
//! keystrokes or fabricated market data.

use vstd::prelude::*;

use crate::data::types::Timeframe;

verus! {

/// The subset of app actions a remote client may issue.
#[derive(Debug, Clone)]
pub enum RemoteAction {
    AddSymbol { symbol: String },
    RemoveSymbol { symbol: String },
    ChartSymbol { symbol: String },
    ClearSlot { slot: Option<usize> },
    OpenDetail { symbol: String },
    SetTimeframe { timeframe: Timeframe },
    Refresh,
}

/// The app actions a remote action stands for: charting a symbol fills a grid
/// slot, and clearing without a slot clears every pane.
#[derive(Debug, Clone)]
pub enum Intent {
    AddSymbol(String),
    RemoveSymbol(String),
    AddToSlot(String),
    ClearSlot(usize),
    ClearAllSlots,
    OpenDetail(String),
    SetTimeframe(Timeframe),
    Refresh,
}

/// The intent of each remote action.
pub open spec fn intent_spec(r: RemoteAction) -> Intent {
    match r {
        RemoteAction::AddSymbol { symbol } => Intent::AddSymbol(symbol),
        RemoteAction::RemoveSymbol { symbol } => Intent::RemoveSymbol(symbol),
        RemoteAction::ChartSymbol { symbol } => Intent::AddToSlot(symbol),
        RemoteAction::ClearSlot { slot } => match slot {
            Some(i) => Intent::ClearSlot(i),
            None => Intent::ClearAllSlots,
        },
        RemoteAction::OpenDetail { symbol } => Intent::OpenDetail(symbol),
        RemoteAction::SetTimeframe { timeframe } => Intent::SetTimeframe(timeframe),
        RemoteAction::Refresh => Intent::Refresh,
    }
}

/// Maps a remote action onto the app action it stands for; the event loop cannot
/// tell the result from the same command given at the keyboard.
pub fn intent_of(r: RemoteAction) -> (i: Intent)
    ensures
        i == intent_spec(r),
{
    match r {
        RemoteAction::AddSymbol { symbol } => Intent::AddSymbol(symbol),
        RemoteAction::RemoveSymbol { symbol } => Intent::RemoveSymbol(symbol),
        RemoteAction::ChartSymbol { symbol } => Intent::AddToSlot(symbol),
        RemoteAction::ClearSlot { slot } => match slot {
            Some(i) => Intent::ClearSlot(i),
            None => Intent::ClearAllSlots,
        },
        RemoteAction::OpenDetail { symbol } => Intent::OpenDetail(symbol),
        RemoteAction::SetTimeframe { timeframe } => Intent::SetTimeframe(timeframe),
        RemoteAction::Refresh => Intent::Refresh,
    }
}

} // verus!
