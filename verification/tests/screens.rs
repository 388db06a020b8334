use quotail::app::{InputMode, View};
use quotail::config::Config;
use quotail::data::types::{MarketStatus, Timeframe};
use quotail::ui::bottom_bar::{bar_spans, clock_hms, exchange_label, hint_row, status_text};
use quotail::ui::chart::{tf_bottom_border, tf_label_col};
use quotail::ui::detail::{candle_cols, detail_layout, main_bottom_border, main_tf_col};
use quotail::ui::help::{box_line, key_spans, run_role, BOX_ROWS};
use quotail::ui::layout::{align_right, Area};
use quotail::ui::overview::{empty_prompt_pos, grid_panes, marquee_window, overview_layout, pane_candle_cols};
use quotail::ui::settings::{clip, cycle, elide, hint, hint_width, row_label, row_y, toggle, value_str};
use quotail::ui::table::{filter_symbols, scrollbar_thumb, shown_rows, title_spans, visible_rows};
use quotail::ui::theme::{palette, Ansi, Color, ColorDepth, Role};
use quotail::app::AssetFilter;

#[test]
fn tf_bottom_border_matches_reference_split() {
    // 28-wide pane → `└` + 10 dashes + ` 1M ` + 12 dashes + `┘`.
    assert_eq!(tf_bottom_border(28, "1M"), "└────────── 1M ────────────┘");
}

#[test]
fn tf_label_col_points_at_the_label() {
    let border: Vec<char> = tf_bottom_border(28, "1M").chars().collect();
    let col = tf_label_col(28, "1M") as usize;
    assert_eq!(col, 12);
    assert_eq!(border[col], '1');
    assert_eq!(border[col + 1], 'M');
    let wide: Vec<char> = tf_bottom_border(41, "YTD").chars().collect();
    assert_eq!(wide.len(), 41);
    let c = tf_label_col(41, "YTD") as usize;
    assert_eq!(wide[c..c + 3].iter().collect::<String>(), "YTD");
    // Too narrow to hold the label: no dashes, label still framed.
    assert_eq!(tf_bottom_border(3, "1M"), "└ 1M ┘");
}

#[test]
fn cycle_wraps_enum_and_number_rows() {
    let mut c = Config::default();
    assert!(cycle(&mut c, 3, 1));
    assert_eq!(c.display.theme, "gruvbox");
    assert!(cycle(&mut c, 3, -1));
    assert_eq!(c.display.theme, "tokyonight");
    assert!(cycle(&mut c, 9, 1)); // 60 -> 300
    assert_eq!(c.data.poll_interval_sec, 300);
    assert!(cycle(&mut c, 9, 1)); // 300 -> 15 (wrap)
    assert_eq!(c.data.poll_interval_sec, 15);
    assert!(!cycle(&mut c, 12, 1)); // socket_path is not cyclable
}

#[test]
fn cycle_reports_no_change_for_whole_turns() {
    let mut c = Config::default();
    assert!(!cycle(&mut c, 3, 0));
    assert!(!cycle(&mut c, 3, 4)); // four themes: a whole turn
    assert_eq!(c.display.theme, "tokyonight");
    assert!(!cycle(&mut c, 9, 0));
    assert_eq!(c.data.poll_interval_sec, 60);
    // An unknown value moves to the first option even on a zero step.
    c.display.default_sort = "bogus".to_string();
    assert!(cycle(&mut c, 6, 0));
}

#[test]
fn toggle_flips_only_bool_rows() {
    let mut c = Config::default();
    assert!(toggle(&mut c, 7));
    assert!(!c.display.ticker_scroll);
    assert!(toggle(&mut c, 11));
    assert!(!c.mcp.enabled);
    assert!(!toggle(&mut c, 3)); // theme is not a toggle
}

#[test]
fn cycle_forward_then_back_restores_and_unknown_counts_as_first() {
    let mut c = Config::default();
    assert!(cycle(&mut c, 4, 1));
    assert_eq!(c.display.default_timeframe, "6M");
    assert!(cycle(&mut c, 4, -1));
    assert_eq!(c.display.default_timeframe, "1M");
    // A value outside the list counts as the first option.
    c.display.default_sort = "bogus".to_string();
    assert!(cycle(&mut c, 6, 1));
    assert_eq!(c.display.default_sort, "price");
    c.data.cache_ttl_sec = 7;
    assert!(cycle(&mut c, 10, -1));
    assert_eq!(c.data.cache_ttl_sec, 60);
    // Large steps wrap modulo the list length.
    assert!(cycle(&mut c, 5, 9));
    assert_eq!(c.display.default_filter, "stocks");
    assert!(!cycle(&mut c, 0, 1));
    assert!(!cycle(&mut c, 99, 1));
    // Toggling twice gives back the start.
    let before = c.mcp.enabled;
    assert!(toggle(&mut c, 11));
    assert!(toggle(&mut c, 11));
    assert_eq!(c.mcp.enabled, before);
    assert!(!toggle(&mut c, 12));
}

#[test]
fn settings_rows_show_values_and_hints() {
    let mut c = Config::default();
    c.watchlist.stocks = vec!["AAPL".into(), "MSFT".into()];
    assert_eq!(value_str(0, &c), "2 symbols");
    assert_eq!(value_str(2, &c), "0 symbols");
    assert_eq!(value_str(3, &c), "tokyonight");
    assert_eq!(value_str(7, &c), "true");
    assert_eq!(value_str(9, &c), "60");
    assert_eq!(value_str(12, &c), "~/.local/state/quotail/quotail.sock");
    assert_eq!(value_str(13, &c), "");
    assert_eq!(hint(7, &c), "space to toggle  ·  speed 140ms");
    assert_eq!(hint(1, &c), "edit via :add / :rm");
    assert_eq!(row_label(9), "poll_interval_sec");
    assert_eq!(row_y(0), 3);
    assert_eq!(row_y(3), 8);
    assert_eq!(row_y(8), 15);
    assert_eq!(row_y(12), 21);
    assert_eq!(elide("~/.local/state/quotail/quotail.sock", 27), "…state/quotail/quotail.sock");
    assert_eq!(elide("short", 27), "short");
    assert_eq!(clip("abcdef", 3), "abc");
    assert_eq!(clip("ab", 3), "ab");
    assert_eq!(hint_width(96), 44);
    assert_eq!(hint_width(40), 0);
}

#[test]
fn detects_truecolor_from_colorterm() {
    assert_eq!(
        ColorDepth::from_env(Some("truecolor"), Some("xterm-256color")),
        ColorDepth::Truecolor
    );
    assert_eq!(ColorDepth::from_env(Some("24bit"), None), ColorDepth::Truecolor);
}

#[test]
fn empty_colorterm_falls_through_to_term() {
    assert_eq!(
        ColorDepth::from_env(Some(""), Some("xterm-256color")),
        ColorDepth::Ansi256
    );
    assert_eq!(
        ColorDepth::from_env(None, Some("screen-256color")),
        ColorDepth::Ansi256
    );
}

#[test]
fn falls_back_to_basic() {
    assert_eq!(ColorDepth::from_env(Some(""), Some("xterm")), ColorDepth::Basic);
    assert_eq!(ColorDepth::from_env(None, None), ColorDepth::Basic);
}

#[test]
fn forced_color_names() {
    assert_eq!(ColorDepth::forced("24"), Some(ColorDepth::Truecolor));
    assert_eq!(ColorDepth::forced("256color"), Some(ColorDepth::Ansi256));
    assert_eq!(ColorDepth::forced("ansi"), Some(ColorDepth::Basic));
    assert_eq!(ColorDepth::forced("rainbow"), None);
}

#[test]
fn table_rows_filter_and_scrollbar() {
    assert_eq!(visible_rows(26), 23);
    assert_eq!(visible_rows(2), 1);
    let wl: Vec<String> = ["AAPL", "BTC-USD", "^GSPC", "TSLA", "ETH-USD"]
        .iter()
        .map(|s| s.to_string())
        .collect();
    assert_eq!(filter_symbols(&wl, AssetFilter::All), wl);
    assert_eq!(filter_symbols(&wl, AssetFilter::Stocks), vec!["AAPL", "TSLA"]);
    assert_eq!(filter_symbols(&wl, AssetFilter::Crypto), vec!["BTC-USD", "ETH-USD"]);
    assert_eq!(filter_symbols(&wl, AssetFilter::Indices), vec!["^GSPC"]);
    assert_eq!(shown_rows(68, 10, 23), (10, 33));
    assert_eq!(shown_rows(30, 10, 23), (10, 30));
    assert_eq!(shown_rows(5, 9, 23), (5, 5));
    // Everything fits: no scrollbar.
    assert_eq!(scrollbar_thumb(10, 0, 23), None);
    // 68 rows, 23 visible: thumb 23*23/68 = 7 rows; at the last page it touches the bottom.
    assert_eq!(scrollbar_thumb(68, 0, 23), Some((0, 7)));
    assert_eq!(scrollbar_thumb(68, 45, 23), Some((16, 7)));
    assert_eq!(scrollbar_thumb(1000, 10, 3), Some((0, 1)));
}

#[test]
fn table_title_tabs() {
    let spans = title_spans(0, 3, AssetFilter::All, Role::BorderFocus);
    let texts: Vec<&str> = spans.iter().map(|s| s.text.as_str()).collect();
    assert_eq!(
        texts,
        vec!["┌─ ", "watchlist", " ─ ", "[All]", " ", "Stk", " ", "Cry", " ", "Idx", " "]
    );
    let xs: Vec<u16> = spans.iter().map(|s| s.x).collect();
    assert_eq!(xs, vec![0, 3, 12, 15, 20, 21, 24, 25, 28, 29, 32]);
    assert_eq!(spans[3].role, Role::Accent);
    assert_eq!(spans[5].role, Role::Muted);
    let crypto = title_spans(0, 3, AssetFilter::Crypto, Role::Border);
    assert_eq!(crypto[7].text, "[Cry]");
}

#[test]
fn bottom_bar_matches_reference_rows() {
    let spans = bar_spans(
        View::Overview,
        InputMode::Normal,
        MarketStatus::Closed,
        Timeframe::M1,
        "NYSE",
        22 * 3600 + 20 * 60 + 1,
        "",
        0,
        29,
        96,
    );
    let mut row1 = vec![' '; 96];
    let mut row2 = vec![' '; 96];
    for s in &spans {
        let row = if s.y == 29 { &mut row1 } else { &mut row2 };
        for (i, ch) in s.text.chars().enumerate() {
            row[s.x as usize + i] = ch;
        }
    }
    let r1: String = row1.into_iter().collect();
    let r2: String = row2.into_iter().collect();
    assert_eq!(
        r1,
        " NYSE: Closed                                      [1M]                  Last Refresh: 22:20:01 "
    );
    assert_eq!(
        r2,
        " q quit  d detail  / search  f filter  s sort  c clear  tab pane  r refresh  : cmd  ? help      "
    );
    assert_eq!(spans[1].role, Role::Down);
    assert_eq!(spans[2].role, Role::Warn);
}

#[test]
fn bottom_bar_command_line_and_settings_have_no_timeframe() {
    let spans = bar_spans(
        View::Settings,
        InputMode::Command,
        MarketStatus::PreMarket,
        Timeframe::Y1,
        "NYSE",
        0,
        "add NVDA",
        0,
        29,
        96,
    );
    assert!(spans.iter().all(|s| s.text != "[1Y]"));
    assert_eq!(spans.last().unwrap().text, ":add NVDA▮");
    assert_eq!(spans.last().unwrap().x, 0);
    assert_eq!(spans[1].text, "Pre-Market");
    assert_eq!(spans[1].role, Role::Warn);
    let search = bar_spans(
        View::Detail,
        InputMode::Search,
        MarketStatus::Open,
        Timeframe::Y1,
        "NASDAQ",
        0,
        "nv",
        0,
        0,
        96,
    );
    assert_eq!(search.last().unwrap().text, "/nv▮");
    assert_eq!(search[0].text, "NASDAQ: ");
    assert_eq!(search[1].x, 9);
    assert_eq!(status_text(MarketStatus::AfterHours), "After-Hours");
    assert_eq!(exchange_label(View::Detail, Some("NASDAQ")), "NASDAQ");
    assert_eq!(exchange_label(View::Detail, None), "NYSE");
    assert_eq!(exchange_label(View::Overview, Some("NASDAQ")), "NYSE");
    let detail_hints: Vec<String> = hint_row(View::Detail, 1, 0).into_iter().map(|s| s.text).collect();
    assert_eq!(detail_hints[0], "esc");
    assert_eq!(detail_hints[5], "timeframe");
}

#[test]
fn clock_is_utc_hh_mm_ss() {
    assert_eq!(clock_hms(0), "00:00:00");
    assert_eq!(clock_hms(86_399), "23:59:59");
    assert_eq!(clock_hms(1_725_029_869), "14:57:49");
    assert_eq!(clock_hms(-1), "23:59:59");
}

#[test]
fn detail_geometry_and_border() {
    assert_eq!(candle_cols(64), 52);
    assert_eq!(candle_cols(10), 0);
    let l = detail_layout(96, 31);
    assert_eq!(l.main, Area { x: 0, y: 0, width: 64, height: 18 });
    assert_eq!(l.volume, Area { x: 0, y: 18, width: 64, height: 5 });
    assert_eq!(l.rsi, Area { x: 0, y: 23, width: 64, height: 6 });
    assert_eq!(l.rail, Area { x: 64, y: 0, width: 32, height: 29 });
    assert_eq!(l.bar, Area { x: 0, y: 29, width: 96, height: 2 });
    let b = main_bottom_border("1M", 64);
    assert_eq!(b, "└── ma50 ·── ma200 ·──────────────────────────────── 1M ───────┘");
    assert_eq!(b.chars().count(), 64);
    let col = main_tf_col(64, 2) as usize;
    let chars: Vec<char> = b.chars().collect();
    assert_eq!(chars[col..col + 2].iter().collect::<String>(), "1M");
}

#[test]
fn overview_geometry() {
    let l = overview_layout(96, 31);
    assert_eq!(l.banner, Area { x: 0, y: 0, width: 96, height: 3 });
    assert_eq!(l.watchlist, Area { x: 0, y: 3, width: 40, height: 26 });
    assert_eq!(l.panes[0], Area { x: 40, y: 3, width: 28, height: 13 });
    assert_eq!(l.panes[1], Area { x: 68, y: 3, width: 28, height: 13 });
    assert_eq!(l.panes[2], Area { x: 40, y: 16, width: 28, height: 13 });
    assert_eq!(l.panes[3], Area { x: 68, y: 16, width: 28, height: 13 });
    assert_eq!(l.bar, Area { x: 0, y: 29, width: 96, height: 2 });
    let p = grid_panes(3, 45, 119);
    assert_eq!(p[1].x + p[1].width, 119);
    assert_eq!(p[2].y + p[2].height, 48);
    assert_eq!(pane_candle_cols(28), 24);
    assert_eq!(empty_prompt_pos(p[3]), (p[3].x + (p[3].width - 14) / 2, p[3].y + p[3].height / 2));
    assert_eq!(marquee_window(7, 5, 6), vec![2, 3, 4, 0, 1, 2]);
    assert_eq!(align_right(22, 6), 17);
    assert_eq!(align_right(2, 6), 0);
}

#[test]
fn help_runs_split_keys_from_descriptions() {
    assert_eq!(BOX_ROWS, 25);
    let line: Vec<char> = box_line(11).chars().collect();
    let spans = key_spans(&line);
    let texts: Vec<String> = spans
        .iter()
        .map(|&(c, l)| line[c..c + l].iter().collect())
        .collect();
    assert_eq!(texts, vec!["j / k", "move selection", "1", "2", "3", "1D", "5D", "1M"]);
    let heading: Vec<char> = box_line(2).chars().collect();
    let hs = key_spans(&heading);
    assert_eq!(hs, vec![(3, 10), (36, 10)]);
    assert_eq!(run_role("navigation", 0), Some(Role::Heading));
    assert_eq!(run_role("d", 0), Some(Role::Accent));
    assert_eq!(run_role("open detail", 1), None);
    assert!(key_spans(&box_line(1).chars().collect()).is_empty());
}

#[test]
fn every_depth_keeps_its_distinctions() {
    for d in [ColorDepth::Truecolor, ColorDepth::Ansi256, ColorDepth::Basic] {
        let t = palette(d);
        let req = [
            ("up vs down", t.up, t.down),
            ("selection vs bg", t.selection, t.bg),
            ("border vs border_focus", t.border, t.border_focus),
            ("muted vs fg", t.muted, t.fg),
            ("accent vs warn", t.accent, t.warn),
            ("accent vs heading", t.accent, t.heading),
            ("accent vs price", t.accent, t.price),
            ("warn vs heading", t.warn, t.heading),
            ("warn vs price", t.warn, t.price),
            ("heading vs price", t.heading, t.price),
            ("accent vs fg", t.accent, t.fg),
            ("warn vs fg", t.warn, t.fg),
            ("heading vs fg", t.heading, t.fg),
            ("price vs fg", t.price, t.fg),
        ];
        for (label, a, b) in req {
            assert_ne!(a, b, "{d:?}: {label} collapsed ({a:?} == {b:?})");
        }
    }
}

#[test]
fn fallbacks_avoid_rgb() {
    for d in [ColorDepth::Ansi256, ColorDepth::Basic] {
        let t = palette(d);
        for c in [
            t.bg, t.fg, t.muted, t.up, t.down, t.accent, t.price, t.warn, t.border, t.border_focus, t.heading,
            t.selection, t.dim,
        ] {
            assert!(!matches!(c, Color::Rgb(..)), "fallback leaked Rgb: {c:?}");
        }
    }
    assert_eq!(palette(ColorDepth::Truecolor).bg, Color::Rgb(0x16, 0x18, 0x1f));
    assert_eq!(palette(ColorDepth::Basic).up, Color::Named(Ansi::Green));
    assert_eq!(palette(ColorDepth::Ansi256).color_of(Role::BorderFocus), Color::Indexed(111));
    assert_eq!(palette(ColorDepth::Basic).color_of(Role::Selection), Color::Named(Ansi::DarkGray));
}

#[test]
fn settings_rows_stack_in_order_between_headings() {
    let ys: Vec<u16> = (0..13).map(row_y).collect();
    assert!(ys.windows(2).all(|w| w[0] < w[1]));
    for y in &ys {
        assert!(![2, 7, 14, 19, 23].contains(y));
        assert!(*y > 0 && *y < 25);
    }
}
