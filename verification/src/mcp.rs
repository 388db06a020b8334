//! The MCP tools' own logic: how symbols and timeframes given by a client are
//! normalised and checked, and which remote action and confirmation each session
//! tool produces. Serving the protocol and reaching the data store and the socket
//! happen outside the verified core.

use vstd::prelude::*;

use crate::action::RemoteAction;
use crate::data::types::{kind_of_symbol, AssetKind, Timeframe};
use crate::text::{decimal, decimal_of, push_str, trim, trim_spec};
use crate::ui::layout::MAX_SLOTS;

verus! {

broadcast use vstd::string::group_string_axioms;

/// What `str::to_uppercase` returns: the Unicode upper-case mapping of the string.
pub uninterp spec fn uppercase_of(s: Seq<char>) -> Seq<char>;

/// What `format!("{:?}", s)` returns for a string: it quoted, with escapes.
pub uninterp spec fn debug_of(s: Seq<char>) -> Seq<char>;

/// `str::to_uppercase`. The contract claims the result's characters are
/// `uppercase_of` the argument's.
#[verifier::external_body]
fn upper_str(s: &str) -> (t: String)
    ensures
        t@ == uppercase_of(s@),
{
    s.to_uppercase()
}

/// `format!("{:?}", s)`, the `Debug` rendering of a string. The contract claims the
/// result's characters are `debug_of` the argument's.
#[verifier::external_body]
fn debug_str(s: &str) -> (t: String)
    ensures
        t@ == debug_of(s@),
{
    format!("{s:?}")
}

/// A symbol as a client gave it, normalised: trimmed, then upper-cased — what the
/// TUI does on `:add`, so a client and a keystroke resolve the same ticker.
pub open spec fn normalized(s: Seq<char>) -> Seq<char> {
    uppercase_of(trim_spec(s))
}

/// Normalises one symbol.
pub fn normalize_symbol(s: &str) -> (t: String)
    ensures
        t@ == normalized(s@),
{
    let t = trim(s);
    upper_str(t.as_str())
}

/// The normalised symbols that are not blank, in order.
pub open spec fn kept_symbols(symbols: Seq<String>) -> Seq<Seq<char>>
    decreases symbols.len(),
{
    if symbols.len() == 0 {
        Seq::empty()
    } else {
        let rest = kept_symbols(symbols.drop_last());
        let n = normalized(symbols.last()@);
        if n.len() == 0 { rest } else { rest.push(n) }
    }
}

/// Upper-cases and trims every symbol, dropping blanks.
pub fn normalize_symbols(symbols: Vec<String>) -> (v: Vec<String>)
    ensures
        v@.map_values(|s: String| s@) == kept_symbols(symbols@),
{
    let mut v: Vec<String> = Vec::new();
    let mut i: usize = 0;
    while i < symbols.len()
        invariant
            i <= symbols.len(),
            v@.map_values(|s: String| s@) == kept_symbols(symbols@.take(i as int)),
        decreases symbols.len() - i,
    {
        let t = normalize_symbol(symbols[i].as_str());
        proof {
            assert(symbols@.take(i + 1).drop_last() =~= symbols@.take(i as int));
        }
        if crate::text::char_count(t.as_str()) > 0 {
            let ghost before = v@;
            v.push(t);
            assert(v@.map_values(|s: String| s@) =~= before.map_values(|s: String| s@).push(t@));
        }
        i += 1;
    }
    assert(symbols@.take(symbols.len() as int) =~= symbols@);
    v
}

/// The error for an unknown timeframe label.
pub open spec fn bad_timeframe_msg(s: Seq<char>) -> Seq<char> {
    "invalid timeframe "@ + debug_of(s) + "; valid: 1D 5D 1M 6M YTD 1Y MAX"@
}

/// Parses a human timeframe label, or explains which labels are valid.
pub fn parse_timeframe(s: &str) -> (r: Result<Timeframe, String>)
    ensures
        match Timeframe::parse_spec(s@) {
            Some(t) => r == Ok::<Timeframe, String>(t),
            None => r is Err && r->Err_0@ == bad_timeframe_msg(s@),
        },
{
    match Timeframe::parse(s) {
        Some(t) => Ok(t),
        None => {
            let mut m = "invalid timeframe ".to_string();
            let q = debug_str(s);
            push_str(&mut m, q.as_str());
            push_str(&mut m, "; valid: 1D 5D 1M 6M YTD 1Y MAX");
            Err(m)
        },
    }
}

/// A watchlist member with the kind it is classified as.
#[derive(Debug, Clone)]
pub struct WatchlistEntry {
    pub symbol: String,
    pub kind: AssetKind,
}

/// The watchlist with each symbol's asset kind, in order.
pub fn watchlist_entries(symbols: Vec<String>) -> (v: Vec<WatchlistEntry>)
    ensures
        v@.len() == symbols@.len(),
        forall|i: int|
            0 <= i < v@.len() ==> (#[trigger] v@[i]).symbol == symbols@[i] && v@[i].kind == kind_of_symbol(
                symbols@[i]@,
            ),
{
    let mut v: Vec<WatchlistEntry> = Vec::new();
    let mut i: usize = 0;
    while i < symbols.len()
        invariant
            i <= symbols.len(),
            v@.len() == i,
            forall|k: int|
                0 <= k < i ==> (#[trigger] v@[k]).symbol == symbols@[k] && v@[k].kind == kind_of_symbol(
                    symbols@[k]@,
                ),
        decreases symbols.len() - i,
    {
        let s = symbols[i].clone();
        let kind = AssetKind::infer(s.as_str());
        v.push(WatchlistEntry { symbol: s, kind });
        i += 1;
    }
    v
}

/// The session tools that carry a symbol.
#[derive(Debug, Clone, Copy, PartialEq, Eq, Structural)]
pub enum SymbolTool {
    AddSymbol,
    RemoveSymbol,
    ChartSymbol,
    OpenDetail,
}

/// The confirmation a symbol tool reports once its action is delivered.
pub open spec fn symbol_tool_msg(tool: SymbolTool, sym: Seq<char>) -> Seq<char> {
    match tool {
        SymbolTool::AddSymbol => "added "@ + sym + " to the watchlist"@,
        SymbolTool::RemoveSymbol => "removed "@ + sym + " from the watchlist"@,
        SymbolTool::ChartSymbol => "charting "@ + sym + " in the grid"@,
        SymbolTool::OpenDetail => "opened detail for "@ + sym,
    }
}

/// The remote action a symbol tool sends for a normalised symbol.
pub open spec fn symbol_tool_action(tool: SymbolTool, a: RemoteAction, sym: Seq<char>) -> bool {
    match tool {
        SymbolTool::AddSymbol => a matches RemoteAction::AddSymbol { symbol } && symbol@ == sym,
        SymbolTool::RemoveSymbol => a matches RemoteAction::RemoveSymbol { symbol } && symbol@ == sym,
        SymbolTool::ChartSymbol => a matches RemoteAction::ChartSymbol { symbol } && symbol@ == sym,
        SymbolTool::OpenDetail => a matches RemoteAction::OpenDetail { symbol } && symbol@ == sym,
    }
}

/// A symbol tool's request: the action carrying the normalised symbol, and the
/// confirmation to report.
pub fn symbol_request(tool: SymbolTool, raw: &str) -> (r: (RemoteAction, String))
    ensures
        symbol_tool_action(tool, r.0, normalized(raw@)),
        r.1@ == symbol_tool_msg(tool, normalized(raw@)),
{
    let sym = normalize_symbol(raw);
    match tool {
        SymbolTool::AddSymbol => {
            let mut m = "added ".to_string();
            push_str(&mut m, sym.as_str());
            push_str(&mut m, " to the watchlist");
            (RemoteAction::AddSymbol { symbol: sym }, m)
        },
        SymbolTool::RemoveSymbol => {
            let mut m = "removed ".to_string();
            push_str(&mut m, sym.as_str());
            push_str(&mut m, " from the watchlist");
            (RemoteAction::RemoveSymbol { symbol: sym }, m)
        },
        SymbolTool::ChartSymbol => {
            let mut m = "charting ".to_string();
            push_str(&mut m, sym.as_str());
            push_str(&mut m, " in the grid");
            (RemoteAction::ChartSymbol { symbol: sym }, m)
        },
        SymbolTool::OpenDetail => {
            let mut m = "opened detail for ".to_string();
            push_str(&mut m, sym.as_str());
            (RemoteAction::OpenDetail { symbol: sym }, m)
        },
    }
}

/// What `clear_slot` answers: a pane index past the last pane is refused; a valid
/// index clears that pane; no index clears all of them.
pub open spec fn clear_slot_ok(slot: Option<usize>, r: Result<(RemoteAction, String), String>) -> bool {
    match slot {
        Some(n) => if n >= MAX_SLOTS {
            r is Err && r->Err_0@ == "slot must be 0-3, got "@ + decimal(n as nat)
        } else {
            r is Ok && r->Ok_0.0 == (RemoteAction::ClearSlot { slot: Some(n) }) && r->Ok_0.1@
                == "cleared pane "@ + decimal(n as nat)
        },
        None => r is Ok && r->Ok_0.0 == (RemoteAction::ClearSlot { slot: None }) && r->Ok_0.1@
            == "cleared all panes"@,
    }
}

/// Validates a `clear_slot` request and builds its action and confirmation.
pub fn clear_slot_request(slot: Option<usize>) -> (r: Result<(RemoteAction, String), String>)
    ensures
        clear_slot_ok(slot, r),
{
    match slot {
        Some(n) => {
            if n >= MAX_SLOTS {
                let mut m = "slot must be 0-3, got ".to_string();
                let d = decimal_of(n as u64);
                push_str(&mut m, d.as_str());
                return Err(m);
            }
            let mut m = "cleared pane ".to_string();
            let d = decimal_of(n as u64);
            push_str(&mut m, d.as_str());
            Ok((RemoteAction::ClearSlot { slot: Some(n) }, m))
        },
        None => Ok((RemoteAction::ClearSlot { slot: None }, "cleared all panes".to_string())),
    }
}

/// What `set_timeframe` answers: an unknown label is refused with the valid ones;
/// a known label sets that timeframe.
pub open spec fn set_timeframe_ok(raw: Seq<char>, r: Result<(RemoteAction, String), String>) -> bool {
    match Timeframe::parse_spec(raw) {
        Some(t) => r is Ok && r->Ok_0.0 == (RemoteAction::SetTimeframe { timeframe: t }) && r->Ok_0.1@
            == "timeframe set to "@ + t.label_spec(),
        None => r is Err && r->Err_0@ == bad_timeframe_msg(raw),
    }
}

/// Parses a human timeframe label and builds the action and confirmation.
pub fn set_timeframe_request(raw: &str) -> (r: Result<(RemoteAction, String), String>)
    ensures
        set_timeframe_ok(raw@, r),
{
    match parse_timeframe(raw) {
        Ok(t) => {
            let mut m = "timeframe set to ".to_string();
            push_str(&mut m, t.label());
            Ok((RemoteAction::SetTimeframe { timeframe: t }, m))
        },
        Err(e) => Err(e),
    }
}

/// The timeframe label `get_session` reports is exactly what `set_timeframe`
/// accepts, and it selects the same timeframe.
pub proof fn lemma_session_label_sets_same_timeframe(t: Timeframe, r: Result<(RemoteAction, String), String>)
    requires
        set_timeframe_ok(t.label_spec(), r),
    ensures
        r is Ok,
        r->Ok_0.0 == (RemoteAction::SetTimeframe { timeframe: t }),
{
    crate::data::types::lemma_parse_label_round_trip(t);
}

} // verus!
