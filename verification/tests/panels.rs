use quotail::action::{intent_of, Intent, RemoteAction};
use quotail::app::{FocusRegion, InputMode, SortKey, View};
use quotail::config::Config;
use quotail::data::types::Timeframe;
use quotail::data::yahoo::complete_rows;
use quotail::nav::{back, fill_target, move_selection, select_row, Nav};
use quotail::ui::chart::{column_cells, pane_interior, pane_title_spans, CandleRows};
use quotail::ui::detail::{
    axis_rows, legend_spans, rail_field_row, rail_labels, rail_ma_x, rail_value_x, range_bar, strip_interior, RailField,
};
use quotail::ui::layout::{Area, Span};
use quotail::ui::help::{box_line, BOX_ROWS};
use quotail::ui::layout::HELP_WIDTH;
use quotail::ui::overview::{marquee_window, tape_cells};
use quotail::ui::settings::{chrome_spans, row_spans};
use quotail::ui::table::{header_spans, sort_by_symbol};
use quotail::ui::theme::{ColorDepth, Role};

fn flat(v: &[Span]) -> Vec<(u16, u16, String, Role)> {
    v.iter().map(|s| (s.x, s.y, s.text.clone(), s.role)).collect()
}

fn glyphs(cells: &[Option<(char, Role)>]) -> Vec<String> {
    cells.iter().map(|c| c.map_or(" ".to_string(), |(ch, _)| ch.to_string())).collect()
}

#[test]
fn renders_candle_body_and_wick_exactly() {
    // open=2, close=6 (up), high=8, low=0, scale 0..8 over 5 rows: the wick
    // spans rows 0..4 and the body rows 1..3.
    let h = 5;
    let rows = CandleRows { high: 0, low: 4, body_top: 1, body_bot: 3, ma50: None, ma200: None };
    let cells = column_cells(h, rows, true);
    assert_eq!(glyphs(&cells), vec!["│", "█", "█", "█", "│"]);
    assert!(cells.iter().flatten().all(|&(_, r)| r == Role::Up));
}

#[test]
fn ma_dots_only_fill_empty_cells() {
    // Candle open=6 close=8 high=8 low=6; ma50=2, ma200=8; scale 2..8 over 5 rows:
    // the candle fills rows 0..1, ma50 falls on row 4 and ma200 on row 0.
    let h = 5;
    let rows = CandleRows { high: 0, low: 1, body_top: 0, body_bot: 1, ma50: Some(4), ma200: Some(0) };
    let cells = column_cells(h, rows, true);
    assert_eq!(glyphs(&cells), vec!["█", "█", " ", " ", "·"]);
    assert_eq!(cells[4], Some(('·', Role::Warn)));
}

#[test]
fn long_average_dot_and_down_candle() {
    let rows = CandleRows { high: 1, low: 2, body_top: 1, body_bot: 1, ma50: Some(1), ma200: Some(3) };
    let cells = column_cells(4, rows, false);
    assert_eq!(cells, vec![None, Some(('█', Role::Down)), Some(('│', Role::Down)), Some(('·', Role::Heading))]);
    assert!(column_cells(0, rows, true).is_empty());
}

#[test]
fn pane_title_carries_quote_when_known() {
    let v = pane_title_spans(40, 3, "AAPL", Some(("189.25", "+1.20%", true)), Role::BorderFocus);
    assert_eq!(
        flat(&v),
        vec![
            (40, 3, "┌─ ".to_string(), Role::BorderFocus),
            (43, 3, "AAPL".to_string(), Role::Fg),
            (47, 3, " ".to_string(), Role::BorderFocus),
            (48, 3, "189.25".to_string(), Role::Price),
            (54, 3, " ".to_string(), Role::BorderFocus),
            (55, 3, "+1.20%".to_string(), Role::Up),
            (61, 3, " ".to_string(), Role::BorderFocus),
        ]
    );
    let v = pane_title_spans(0, 0, "^GSPC", None, Role::Border);
    assert_eq!(flat(&v)[2], (8, 0, " ".to_string(), Role::Border));
    assert_eq!(v.len(), 3);
    let v = pane_title_spans(0, 0, "TSLA", Some(("250.00", "-3.10%", false)), Role::Border);
    assert_eq!(v[5].role, Role::Down);
}

#[test]
fn pane_and_strip_interiors() {
    let a = Area { x: 40, y: 3, width: 28, height: 13 };
    assert_eq!(pane_interior(a), Area { x: 42, y: 4, width: 24, height: 11 });
    assert_eq!(pane_interior(Area { x: 0, y: 0, width: 3, height: 1 }), Area { x: 2, y: 1, width: 0, height: 0 });
    let main = Area { x: 0, y: 0, width: 64, height: 16 };
    assert_eq!(strip_interior(main), Area { x: 2, y: 1, width: 52, height: 14 });
    let ax = axis_rows(main);
    assert_eq!((ax.end, ax.top, ax.mid, ax.bot), (61, 1, 7, 14));
    let vol = Area { x: 0, y: 16, width: 64, height: 5 };
    let ax = axis_rows(vol);
    assert_eq!((ax.end, ax.top, ax.bot), (61, 17, 19));
}

#[test]
fn main_chart_legend_matches_the_overlay_colours() {
    let v = legend_spans(Area { x: 0, y: 0, width: 64, height: 16 }, "1M");
    assert_eq!(
        flat(&v),
        vec![
            (4, 15, "ma50".to_string(), Role::Warn),
            (9, 15, "·".to_string(), Role::Warn),
            (13, 15, "ma200".to_string(), Role::Heading),
            (19, 15, "·".to_string(), Role::Heading),
            (53, 15, "1M".to_string(), Role::Accent),
        ]
    );
}

#[test]
fn rail_labels_and_value_columns() {
    let v = rail_labels(64);
    assert_eq!(v.len(), 17);
    assert_eq!(flat(&v)[0], (66, 2, "market cap".to_string(), Role::Muted));
    assert_eq!(flat(&v)[12], (66, 24, "day low".to_string(), Role::Muted));
    assert_eq!(flat(&v)[14], (66, 12, "52-wk range".to_string(), Role::Heading));
    assert_eq!(flat(&v)[16], (66, 20, "session".to_string(), Role::Heading));
    // Values end at rail x + 29.
    assert_eq!(rail_value_x(64, 4), 90);
    assert_eq!(rail_value_x(64, 1), 93);
    assert_eq!(rail_ma_x(64, 6), (86, 93));
    let b = range_bar(64, 6, 6);
    assert_eq!((b.lo_x, b.hi_x, b.track), (66, 88, Some((73, 14))));
    let tight = range_bar(0, 14, 13);
    assert_eq!(tight.track, None);
}

#[test]
fn tape_cells_colour_each_segment_and_pad_the_gap() {
    let segs = vec![("▲ AAPL +1.00%".to_string(), true), ("▼ BTC".to_string(), false)];
    let cells = tape_cells(&segs);
    assert_eq!(cells.len(), 13 + 6 + 5 + 6);
    assert_eq!(cells[0], ('▲', Some(Role::Up)));
    assert_eq!(cells[12], ('%', Some(Role::Up)));
    assert!(cells[13..19].iter().all(|c| *c == (' ', None)));
    assert_eq!(cells[19], ('▼', Some(Role::Down)));
    assert!(tape_cells(&vec![]).is_empty());
}

#[test]
fn table_header_marks_the_change_sort() {
    let v = header_spans(0, 4, SortKey::ChangePct, true);
    assert_eq!(
        flat(&v),
        vec![
            (2, 4, "ticker".to_string(), Role::Heading),
            (18, 4, "price".to_string(), Role::Heading),
            (28, 4, "chg%".to_string(), Role::Heading),
            (33, 4, "▼".to_string(), Role::Heading),
        ]
    );
    assert_eq!(header_spans(0, 4, SortKey::ChangePct, false)[3].text, "▲");
    assert_eq!(header_spans(0, 4, SortKey::Symbol, true).len(), 3);
}

#[test]
fn settings_chrome_and_rows() {
    let v = chrome_spans();
    assert_eq!(v.len(), 9);
    assert_eq!(flat(&v)[3], (14, 0, "~/.config/quotail/config.toml ".to_string(), Role::Muted));
    assert_eq!(flat(&v)[8], (3, 23, "w writes changes to config.toml".to_string(), Role::Muted));
    let c = Config::default();
    let r = row_spans(12, true, 96, &c);
    assert_eq!(
        flat(&r),
        vec![
            (3, 21, "socket_path".to_string(), Role::Fg),
            (23, 21, "…state/quotail/quotail.sock".to_string(), Role::Price),
            (51, 21, "inline edit (TBD) — edit in config.toml".to_string(), Role::Muted),
        ]
    );
    let r = row_spans(3, false, 60, &c);
    assert_eq!(r[0].role, Role::Muted);
    assert_eq!(r[2].text, "< >  tok");
}

#[test]
fn forced_colour_is_trimmed_and_lower_cased() {
    assert_eq!(ColorDepth::resolve(Some("  TrueColor "), None, Some("xterm")), ColorDepth::Truecolor);
    assert_eq!(ColorDepth::resolve(Some("256"), Some("truecolor"), None), ColorDepth::Ansi256);
    assert_eq!(ColorDepth::resolve(Some("ANSI"), Some("truecolor"), None), ColorDepth::Basic);
    assert_eq!(ColorDepth::resolve(Some("weird"), Some(""), Some("xterm-256color")), ColorDepth::Ansi256);
    assert_eq!(ColorDepth::resolve(None, Some("24bit"), None), ColorDepth::Truecolor);
}

#[test]
fn remote_actions_map_onto_app_intents() {
    assert!(matches!(
        intent_of(RemoteAction::ChartSymbol { symbol: "NVDA".to_string() }),
        Intent::AddToSlot(ref s) if s == "NVDA"
    ));
    assert!(matches!(intent_of(RemoteAction::ClearSlot { slot: Some(2) }), Intent::ClearSlot(2)));
    assert!(matches!(intent_of(RemoteAction::ClearSlot { slot: None }), Intent::ClearAllSlots));
    assert!(matches!(
        intent_of(RemoteAction::SetTimeframe { timeframe: Timeframe::Y1 }),
        Intent::SetTimeframe(Timeframe::Y1)
    ));
    assert!(matches!(intent_of(RemoteAction::Refresh), Intent::Refresh));
}

#[test]
fn chart_rows_with_gaps_are_skipped() {
    let t = vec![true, true, true, true];
    let o = vec![true, false, true, true];
    let short = vec![true, true, true];
    assert_eq!(complete_rows(4, &o, &t, &t, &short), vec![0, 2]);
    assert_eq!(complete_rows(0, &o, &t, &t, &t), Vec::<usize>::new());
}

#[test]
fn charted_symbols_fill_first_empty_then_replace_focused() {
    assert_eq!(fill_target([true, false, true, false], 3), (1, 3));
    assert_eq!(fill_target([false, false, false, false], 2), (0, 2));
    assert_eq!(fill_target([true, true, true, true], 2), (2, 3));
    assert_eq!(fill_target([true, true, true, true], 3), (3, 0));
}

#[test]
fn cursor_scrolls_past_the_window_edges() {
    assert_eq!(move_selection(0, 0, 3, 23, 1), (1, 0));
    assert_eq!(move_selection(0, 0, 3, 23, -1), (0, 0));
    assert_eq!(move_selection(2, 0, 3, 23, 5), (2, 0));
    assert_eq!(move_selection(13, 0, 68, 14, 1), (14, 1));
    assert_eq!(move_selection(5, 5, 68, 14, -1), (4, 4));
    assert_eq!(move_selection(0, 0, 0, 14, 1), (0, 0));
    assert_eq!(select_row(67, 0, 68, 14), (67, 54));
    assert_eq!(select_row(0, 54, 68, 14), (0, 0));
}

#[test]
fn back_from_detail_lands_on_a_coherent_overview() {
    let n = Nav { view: View::Detail, input_mode: InputMode::Normal, show_help: false, focus: FocusRegion::Grid };
    let b = back(n);
    assert_eq!(b, Nav { view: View::Overview, input_mode: InputMode::Normal, show_help: false, focus: FocusRegion::Table });
    let s = Nav { view: View::Settings, input_mode: InputMode::Command, show_help: false, focus: FocusRegion::Grid };
    assert_eq!(back(s).focus, FocusRegion::Table);
    assert_eq!(back(s).input_mode, InputMode::Normal);
}

#[test]
fn closing_help_leaves_focus_alone() {
    let n = Nav { view: View::Overview, input_mode: InputMode::Normal, show_help: true, focus: FocusRegion::Grid };
    let b = back(n);
    assert!(!b.show_help);
    assert_eq!(b.focus, FocusRegion::Grid);
    assert_eq!(back(b), b);
}

#[test]
fn marquee_content_drifts_left_each_tick() {
    let before = marquee_window(5, 7, 10);
    let after = marquee_window(6, 7, 10);
    assert_eq!(&after[..9], &before[1..]);
    assert_eq!(marquee_window(6, 7, 3), vec![6, 0, 1]);
}

#[test]
fn a_full_grid_replaces_each_pane_once_in_four_adds() {
    let mut focused = 1;
    let mut hit = Vec::new();
    for _ in 0..4 {
        let (target, next) = fill_target([true, true, true, true], focused);
        hit.push(target);
        focused = next;
    }
    assert_eq!(hit, vec![1, 2, 3, 0]);
    assert_eq!(focused, 1);
}

#[test]
fn every_help_row_is_the_box_width() {
    for i in 0..BOX_ROWS {
        assert_eq!(box_line(i).chars().count(), HELP_WIDTH as usize, "row {i}");
    }
    assert!(box_line(0).starts_with('┌'));
    assert!(box_line(BOX_ROWS - 1).ends_with('┘'));
}

#[test]
fn rail_values_sit_on_their_label_rows() {
    let labels = rail_labels(0);
    let row_of_label = |name: &str| labels.iter().find(|s| s.text == name).unwrap().y;
    assert_eq!(rail_field_row(RailField::MarketCap), row_of_label("market cap"));
    assert_eq!(rail_field_row(RailField::Rsi), row_of_label("rsi (14)"));
    assert_eq!(rail_field_row(RailField::Open), 21);
    assert_eq!(rail_field_row(RailField::PrevClose), 22);
    assert_eq!(rail_field_row(RailField::DayHigh), 23);
    assert_eq!(rail_field_row(RailField::DayLow), 24);
    assert_eq!(rail_field_row(RailField::DayLow), row_of_label("day low"));
}

#[test]
fn symbols_sort_by_code_point_both_ways() {
    let syms: Vec<String> = ["MSFT", "^GSPC", "AAPL", "BTC-USD", "AAPL", "AA"].iter().map(|s| s.to_string()).collect();
    let up = sort_by_symbol(syms.clone(), false);
    assert_eq!(up, vec!["AA", "AAPL", "AAPL", "BTC-USD", "MSFT", "^GSPC"]);
    let down = sort_by_symbol(syms, true);
    assert_eq!(down, vec!["^GSPC", "MSFT", "BTC-USD", "AAPL", "AAPL", "AA"]);
    assert!(sort_by_symbol(vec![], false).is_empty());
    // Code-point order agrees with `str`'s own order.
    let mixed: Vec<String> = ["é", "z", "Z", "a"].iter().map(|s| s.to_string()).collect();
    let mut expected = mixed.clone();
    expected.sort();
    assert_eq!(sort_by_symbol(mixed, false), expected);
}
