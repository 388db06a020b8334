use quotail::action::RemoteAction;
use quotail::text::trim;
use quotail::data::types::{AssetKind, Timeframe};
use quotail::ipc::{
    connect_error_message, line_step, session_reply, ConnectFailure, LineStep, ReplyOutcome,
    GET_SESSION_LINE, NO_TUI,
};
use quotail::mcp::{
    clear_slot_request, normalize_symbol, normalize_symbols, parse_timeframe, set_timeframe_request,
    symbol_request, watchlist_entries, SymbolTool,
};

#[test]
fn symbols_are_trimmed_and_upper_cased() {
    assert_eq!(normalize_symbol("  aapl "), "AAPL");
    assert_eq!(normalize_symbol("btc-usd"), "BTC-USD");
    assert_eq!(
        normalize_symbols(vec![" nvda".to_string(), "   ".to_string(), "^gspc".to_string(), "".to_string()]),
        vec!["NVDA".to_string(), "^GSPC".to_string()]
    );
    assert!(normalize_symbols(vec![]).is_empty());
}

#[test]
fn trimming_removes_unicode_white_space_at_both_ends() {
    assert_eq!(trim(" \t aapl \n"), "aapl");
    assert_eq!(trim("\u{3000}\u{a0}x y\u{2028}"), "x y");
    assert_eq!(trim("   "), "");
    assert_eq!(trim(""), "");
    assert_eq!(trim("\u{200b}z"), "\u{200b}z"); // zero-width space is not white space
    assert_eq!(normalize_symbol("\u{3000}msft\t"), "MSFT");
}

#[test]
fn timeframe_labels_parse_or_explain() {
    assert_eq!(parse_timeframe("1Y"), Ok(Timeframe::Y1));
    assert_eq!(parse_timeframe("YTD"), Ok(Timeframe::Ytd));
    assert_eq!(
        parse_timeframe("2W"),
        Err("invalid timeframe \"2W\"; valid: 1D 5D 1M 6M YTD 1Y MAX".to_string())
    );
}

#[test]
fn symbol_tools_send_the_normalised_symbol() {
    let (a, m) = symbol_request(SymbolTool::AddSymbol, " tsla ");
    assert!(matches!(a, RemoteAction::AddSymbol { ref symbol } if symbol == "TSLA"));
    assert_eq!(m, "added TSLA to the watchlist");
    let (a, m) = symbol_request(SymbolTool::RemoveSymbol, "msft");
    assert!(matches!(a, RemoteAction::RemoveSymbol { ref symbol } if symbol == "MSFT"));
    assert_eq!(m, "removed MSFT from the watchlist");
    let (a, m) = symbol_request(SymbolTool::ChartSymbol, "eth-usd");
    assert!(matches!(a, RemoteAction::ChartSymbol { ref symbol } if symbol == "ETH-USD"));
    assert_eq!(m, "charting ETH-USD in the grid");
    let (a, m) = symbol_request(SymbolTool::OpenDetail, "nvda");
    assert!(matches!(a, RemoteAction::OpenDetail { ref symbol } if symbol == "NVDA"));
    assert_eq!(m, "opened detail for NVDA");
}

#[test]
fn clear_slot_checks_the_pane_index() {
    let (a, m) = clear_slot_request(Some(2)).unwrap();
    assert!(matches!(a, RemoteAction::ClearSlot { slot: Some(2) }));
    assert_eq!(m, "cleared pane 2");
    let (a, m) = clear_slot_request(None).unwrap();
    assert!(matches!(a, RemoteAction::ClearSlot { slot: None }));
    assert_eq!(m, "cleared all panes");
    assert_eq!(clear_slot_request(Some(4)).unwrap_err(), "slot must be 0-3, got 4");
    assert_eq!(clear_slot_request(Some(17)).unwrap_err(), "slot must be 0-3, got 17");
}

#[test]
fn set_timeframe_confirms_or_refuses() {
    let (a, m) = set_timeframe_request("6M").unwrap();
    assert!(matches!(a, RemoteAction::SetTimeframe { timeframe: Timeframe::M6 }));
    assert_eq!(m, "timeframe set to 6M");
    assert_eq!(
        set_timeframe_request("1w").unwrap_err(),
        "invalid timeframe \"1w\"; valid: 1D 5D 1M 6M YTD 1Y MAX"
    );
}

#[test]
fn watchlist_entries_carry_the_kind() {
    let e = watchlist_entries(vec!["AAPL".to_string(), "BTC-USD".to_string(), "^VIX".to_string()]);
    assert_eq!(e.len(), 3);
    assert_eq!(e[0].symbol, "AAPL");
    assert_eq!(e[0].kind, AssetKind::Stock);
    assert_eq!(e[1].kind, AssetKind::Crypto);
    assert_eq!(e[2].kind, AssetKind::Index);
}

#[test]
fn connect_failures_read_as_no_tui_or_their_cause() {
    assert_eq!(connect_error_message(ConnectFailure::NotFound), NO_TUI);
    assert_eq!(connect_error_message(ConnectFailure::ConnectionRefused), NO_TUI);
    assert_eq!(
        connect_error_message(ConnectFailure::Other("permission denied".to_string())),
        "could not reach the running Quotail TUI: permission denied"
    );
}

#[test]
fn session_reply_surfaces_a_wedged_tui_as_a_timeout() {
    let err = session_reply(ReplyOutcome::TimedOut).unwrap_err();
    assert!(err.contains("timed out"), "expected a timeout error, got: {err}");
    assert_eq!(
        session_reply(ReplyOutcome::Closed).unwrap_err(),
        "the Quotail TUI closed the connection without sending a session"
    );
    assert_eq!(
        session_reply(ReplyOutcome::ReadError("reset".to_string())).unwrap_err(),
        "error reading the session from the Quotail TUI: reset"
    );
    assert_eq!(session_reply(ReplyOutcome::Line("{}".to_string())).unwrap(), "{}");
}

#[test]
fn malformed_lines_are_dropped_and_the_connection_goes_on() {
    assert!(matches!(line_step(true, false, None), LineStep::Skip));
    assert!(matches!(line_step(false, true, None), LineStep::Answer));
    assert!(matches!(line_step(false, false, None), LineStep::Drop));
    let fwd = line_step(false, false, Some(RemoteAction::AddSymbol { symbol: "TSLA".to_string() }));
    assert!(matches!(fwd, LineStep::Forward(RemoteAction::AddSymbol { ref symbol }) if symbol == "TSLA"));
    assert!(matches!(line_step(false, true, Some(RemoteAction::Refresh)), LineStep::Answer));
    assert_eq!(GET_SESSION_LINE, "{\"action\":\"get_session\"}\n");
}

#[test]
fn session_labels_round_trip_through_set_timeframe() {
    for &tf in &Timeframe::all() {
        let (a, m) = set_timeframe_request(tf.label()).unwrap();
        assert!(matches!(a, RemoteAction::SetTimeframe { timeframe } if timeframe == tf));
        assert_eq!(m, format!("timeframe set to {}", tf.label()));
    }
}
