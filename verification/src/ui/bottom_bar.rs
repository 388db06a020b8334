//! The bottom region: row 1 is the passive status line (exchange, market status,
//! `[tf]`, last refresh); row 2 is the per-view key-hint strip in Normal mode and
//! becomes the `:` / `/` input line otherwise.

use vstd::prelude::*;

use crate::app::InputMode;
use crate::app::View as Screen;
use crate::data::types::{MarketStatus, Timeframe};
use crate::text::{char_count, digit, push_char, push_str};
use crate::ui::layout::{Span, SpanView, span_views};
use crate::ui::theme::Role;

verus! {

broadcast use vstd::string::group_string_axioms;

/// The word shown for a market status.
pub open spec fn status_word(s: MarketStatus) -> Seq<char> {
    match s {
        MarketStatus::Open => "Open"@,
        MarketStatus::Closed => "Closed"@,
        MarketStatus::PreMarket => "Pre-Market"@,
        MarketStatus::AfterHours => "After-Hours"@,
    }
}

/// The colour role of a market status: open green, closed red, the extended
/// sessions warn.
pub open spec fn status_role_spec(s: MarketStatus) -> Role {
    match s {
        MarketStatus::Open => Role::Up,
        MarketStatus::Closed => Role::Down,
        _ => Role::Warn,
    }
}

/// The status word.
pub fn status_text(status: MarketStatus) -> (s: &'static str)
    ensures
        s@ == status_word(status),
{
    match status {
        MarketStatus::Open => "Open",
        MarketStatus::Closed => "Closed",
        MarketStatus::PreMarket => "Pre-Market",
        MarketStatus::AfterHours => "After-Hours",
    }
}

/// The status word's role.
pub fn status_role(status: MarketStatus) -> (r: Role)
    ensures
        r == status_role_spec(status),
{
    match status {
        MarketStatus::Open => Role::Up,
        MarketStatus::Closed => Role::Down,
        MarketStatus::PreMarket | MarketStatus::AfterHours => Role::Warn,
    }
}

/// Per-view key hints as (key, label) pairs.
pub open spec fn hints_spec(view: Screen) -> Seq<(Seq<char>, Seq<char>)> {
    match view {
        Screen::Overview => seq![
            ("q"@, "quit"@),
            ("d"@, "detail"@),
            ("/"@, "search"@),
            ("f"@, "filter"@),
            ("s"@, "sort"@),
            ("c"@, "clear"@),
            ("tab"@, "pane"@),
            ("r"@, "refresh"@),
            (":"@, "cmd"@),
            ("?"@, "help"@),
        ],
        Screen::Detail => seq![
            ("esc"@, "back"@),
            ("/"@, "search"@),
            ("1-7"@, "timeframe"@),
            ("e"@, "export"@),
            ("r"@, "refresh"@),
            (":"@, "cmd"@),
            ("?"@, "help"@),
            ("q"@, "quit"@),
        ],
        Screen::Settings => seq![
            ("j/k"@, "move"@),
            ("enter"@, "edit"@),
            ("< >"@, "change"@),
            ("space"@, "toggle"@),
            ("w"@, "write"@),
            ("esc"@, "back"@),
            ("?"@, "help"@),
            ("q"@, "quit"@),
        ],
    }
}

/// Per-view key hints: the key is drawn in accent, its label in muted.
pub fn hints(view: Screen) -> (h: Vec<(&'static str, &'static str)>)
    ensures
        h@.len() == hints_spec(view).len(),
        forall|i: int| 0 <= i < h@.len() ==> (#[trigger] h@[i]).0@ == hints_spec(view)[i].0 && h@[i].1@
            == hints_spec(view)[i].1,
{
    match view {
        Screen::Overview => vec![
            ("q", "quit"),
            ("d", "detail"),
            ("/", "search"),
            ("f", "filter"),
            ("s", "sort"),
            ("c", "clear"),
            ("tab", "pane"),
            ("r", "refresh"),
            (":", "cmd"),
            ("?", "help"),
        ],
        Screen::Detail => vec![
            ("esc", "back"),
            ("/", "search"),
            ("1-7", "timeframe"),
            ("e", "export"),
            ("r", "refresh"),
            (":", "cmd"),
            ("?", "help"),
            ("q", "quit"),
        ],
        Screen::Settings => vec![
            ("j/k", "move"),
            ("enter", "edit"),
            ("< >", "change"),
            ("space", "toggle"),
            ("w", "write"),
            ("esc", "back"),
            ("?", "help"),
            ("q", "quit"),
        ],
    }
}

/// The hint spans from column `cx` on: each key, one space, its label, two spaces.
pub open spec fn hint_spans_spec(hs: Seq<(Seq<char>, Seq<char>)>, cx: int, y: int) -> Seq<SpanView>
    decreases hs.len(),
{
    if hs.len() == 0 {
        Seq::empty()
    } else {
        let k = hs[0].0;
        let l = hs[0].1;
        seq![
            SpanView { x: cx, y, text: k, role: Role::Accent },
            SpanView { x: cx + k.len() + 1, y, text: l, role: Role::Muted },
        ] + hint_spans_spec(hs.drop_first(), cx + k.len() + 1 + l.len() + 2, y)
    }
}

/// The exchange shown in the status row: the detail symbol's exchange on the
/// Detail view (NYSE when unknown), NYSE elsewhere.
pub open spec fn exchange_spec(view: Screen, exchange: Option<Seq<char>>) -> Seq<char> {
    match (view, exchange) {
        (Screen::Detail, Some(e)) => e,
        _ => "NYSE"@,
    }
}

/// The exchange label of the status row.
pub fn exchange_label(view: Screen, exchange: Option<&str>) -> (s: String)
    ensures
        s@ == exchange_spec(
            view,
            match exchange {
                Some(e) => Some(e@),
                None => None,
            },
        ),
{
    match (view, exchange) {
        (Screen::Detail, Some(e)) => e.to_string(),
        _ => "NYSE".to_string(),
    }
}

/// Two decimal digits of `n < 100`, zero-padded.
pub open spec fn two_digits(n: int) -> Seq<char> {
    seq![digit((n / 10) as nat), digit((n % 10) as nat)]
}

/// `HH:MM:SS` of a unix timestamp, in UTC.
pub open spec fn hms_spec(ts: int) -> Seq<char> {
    let d = ts % 86400;
    two_digits(d / 3600) + seq![':'] + two_digits(d % 3600 / 60) + seq![':'] + two_digits(d % 60)
}

/// Appends `n < 100` as two digits.
fn push_two_digits(s: &mut String, n: i64)
    requires
        0 <= n < 100,
    ensures
        final(s)@ == old(s)@ + two_digits(n as int),
{
    let tens = (n / 10) as u8;
    let ones = (n % 10) as u8;
    push_char(s, ('0' as u8 + tens) as char);
    push_char(s, ('0' as u8 + ones) as char);
    assert(final(s)@ =~= old(s)@ + two_digits(n as int));
}

/// The wall-clock time of a unix timestamp as `HH:MM:SS` (UTC).
pub fn clock_hms(ts: i64) -> (s: String)
    ensures
        s@ == hms_spec(ts as int),
{
    let r = ts % 86400;
    let d: i64 = if r < 0 { r + 86400 } else { r };
    proof {
        let q = ts / 86400;
        vstd::arithmetic::div_mod::lemma_fundamental_div_mod(ts as int, 86400);
        assert(d == (ts as int) % 86400) by {
            if ts >= 0 {
                assert(d == r);
            } else {
                vstd::arithmetic::div_mod::lemma_mod_bound(ts as int, 86400);
            }
        }
    }
    let mut s = String::new();
    push_two_digits(&mut s, d / 3600);
    push_char(&mut s, ':');
    push_two_digits(&mut s, d % 3600 / 60);
    push_char(&mut s, ':');
    push_two_digits(&mut s, d % 60);
    s
}

/// The whole bottom region for a bar at (`x`, `y`), `w` wide.
pub open spec fn bar_spec(
    view: Screen,
    mode: InputMode,
    status: MarketStatus,
    tf: Timeframe,
    exchange: Seq<char>,
    refresh_ts: int,
    input: Seq<char>,
    x: int,
    y: int,
    w: int,
) -> Seq<SpanView> {
    let ex = exchange + ": "@;
    let clock = "Last Refresh: "@ + hms_spec(refresh_ts);
    let clock_x = x + if w >= 1 + clock.len() { w - (1 + clock.len()) } else { 0 };
    let row1 = seq![
        SpanView { x: x + 1, y, text: ex, role: Role::Muted },
        SpanView { x: x + 1 + ex.len(), y, text: status_word(status), role: status_role_spec(status) },
    ] + (if view == Screen::Overview || view == Screen::Detail {
        seq![SpanView { x: x + 51, y, text: "["@ + tf.label_spec() + "]"@, role: Role::Warn }]
    } else {
        Seq::empty()
    }) + seq![SpanView { x: clock_x, y, text: clock, role: Role::Muted }];
    let row2 = match mode {
        InputMode::Normal => hint_spans_spec(hints_spec(view), x + 1, y + 1),
        InputMode::Command => seq![SpanView { x, y: y + 1, text: ":"@ + input + "▮"@, role: Role::Fg }],
        InputMode::Search => seq![SpanView { x, y: y + 1, text: "/"@ + input + "▮"@, role: Role::Fg }],
    };
    row1 + row2
}

/// Lays out the bottom region. `exchange` is the label from `exchange_label`,
/// `refresh_ts` the last refresh as a unix timestamp, `input` the `:`/`/` buffer.
pub fn bar_spans(
    view: Screen,
    mode: InputMode,
    status: MarketStatus,
    tf: Timeframe,
    exchange: &str,
    refresh_ts: i64,
    input: &str,
    x: u16,
    y: u16,
    w: u16,
) -> (v: Vec<Span>)
    requires
        x + w + exchange@.len() + 200 <= u16::MAX,
        y + 1 <= u16::MAX,
    ensures
        span_views(v@) == bar_spec(view, mode, status, tf, exchange@, refresh_ts as int, input@, x as int, y as int, w as int),
{
    proof {
        reveal_strlit("Last Refresh: ");
    }
    let ghost spec = bar_spec(view, mode, status, tf, exchange@, refresh_ts as int, input@, x as int, y as int, w as int);
    let mut v: Vec<Span> = Vec::new();
    let mut ex = exchange.to_string();
    push_str(&mut ex, ": ");
    let ex_len = char_count(ex.as_str()) as u16;
    proof {
        reveal_strlit(": ");
    }
    v.push(Span { x: x + 1, y, text: ex, role: Role::Muted });
    v.push(Span { x: x + 1 + ex_len, y, text: status_text(status).to_string(), role: status_role(status) });
    if view == Screen::Overview || view == Screen::Detail {
        let mut t = "[".to_string();
        push_str(&mut t, tf.label());
        push_str(&mut t, "]");
        v.push(Span { x: x + 51, y, text: t, role: Role::Warn });
    }
    let mut clock = "Last Refresh: ".to_string();
    let hms = clock_hms(refresh_ts);
    push_str(&mut clock, hms.as_str());
    let clock_len = char_count(clock.as_str()) as u16;
    let clock_x = x + w.saturating_sub(1 + clock_len);
    v.push(Span { x: clock_x, y, text: clock, role: Role::Muted });
    let ghost row1 = span_views(v@);
    let row2 = match mode {
        InputMode::Normal => hint_row(view, x + 1, y + 1),
        InputMode::Command => {
            let mut t = ":".to_string();
            push_str(&mut t, input);
            push_str(&mut t, "▮");
            let mut r: Vec<Span> = Vec::new();
            r.push(Span { x, y: y + 1, text: t, role: Role::Fg });
            r
        },
        InputMode::Search => {
            let mut t = "/".to_string();
            push_str(&mut t, input);
            push_str(&mut t, "▮");
            let mut r: Vec<Span> = Vec::new();
            r.push(Span { x, y: y + 1, text: t, role: Role::Fg });
            r
        },
    };
    let ghost row2v = span_views(row2@);
    let mut row2 = row2;
    v.append(&mut row2);
    assert(span_views(v@) =~= row1 + row2v);
    v
}

/// Every key and label pair of a hint strip is at most twelve cells, and a strip
/// has at most ten pairs.
proof fn lemma_hint_lengths(view: Screen, i: int)
    requires
        0 <= i < hints_spec(view).len(),
    ensures
        hints_spec(view)[i].0.len() + hints_spec(view)[i].1.len() <= 12,
        hints_spec(view).len() <= 10,
{
        reveal_strlit("q");
        reveal_strlit("quit");
        reveal_strlit("d");
        reveal_strlit("detail");
        reveal_strlit("/");
        reveal_strlit("search");
        reveal_strlit("f");
        reveal_strlit("filter");
        reveal_strlit("s");
        reveal_strlit("sort");
        reveal_strlit("c");
        reveal_strlit("clear");
        reveal_strlit("tab");
        reveal_strlit("pane");
        reveal_strlit("r");
        reveal_strlit("refresh");
        reveal_strlit(":");
        reveal_strlit("cmd");
        reveal_strlit("?");
        reveal_strlit("help");
        reveal_strlit("esc");
        reveal_strlit("back");
        reveal_strlit("1-7");
        reveal_strlit("timeframe");
        reveal_strlit("e");
        reveal_strlit("export");
        reveal_strlit("j/k");
        reveal_strlit("move");
        reveal_strlit("enter");
        reveal_strlit("edit");
        reveal_strlit("< >");
        reveal_strlit("change");
        reveal_strlit("space");
        reveal_strlit("toggle");
        reveal_strlit("w");
        reveal_strlit("write");
}

/// The key-hint strip of a view, from column `cx` on row `y`.
pub fn hint_row(view: Screen, cx: u16, y: u16) -> (v: Vec<Span>)
    requires
        cx + 150 <= u16::MAX,
    ensures
        span_views(v@) == hint_spans_spec(hints_spec(view), cx as int, y as int),
{
    let hs = hints(view);
    let ghost spec_hs = hints_spec(view);
    let mut v: Vec<Span> = Vec::new();
    let mut i: usize = 0;
    let mut x: u16 = cx;
    assert(spec_hs.skip(0) == spec_hs);
    while i < hs.len()
        invariant
            hs@.len() == spec_hs.len(),
            spec_hs == hints_spec(view),
            forall|k: int| 0 <= k < hs@.len() ==> (#[trigger] hs@[k]).0@ == spec_hs[k].0 && hs@[k].1@ == spec_hs[k].1,
            i <= hs@.len(),
            x <= cx + 15 * i,
            cx + 150 <= u16::MAX,
            span_views(v@) + hint_spans_spec(spec_hs.skip(i as int), x as int, y as int) == hint_spans_spec(
                spec_hs,
                cx as int,
                y as int,
            ),
        decreases hs.len() - i,
    {
        let (k, l) = hs[i];
        proof {
            lemma_hint_lengths(view, i as int);
        }
        let kl = char_count(k) as u16;
        let ll = char_count(l) as u16;
        let ghost before = span_views(v@);
        let ghost rest = spec_hs.skip(i as int);
        v.push(Span { x, y, text: k.to_string(), role: Role::Accent });
        v.push(Span { x: x + kl + 1, y, text: l.to_string(), role: Role::Muted });
        proof {
            assert(rest[0] == spec_hs[i as int]);
            assert(rest.drop_first() =~= spec_hs.skip(i + 1));
            assert(span_views(v@) =~= before.push(v@[v@.len() - 2]@).push(v@[v@.len() - 1]@));
        }
        x = x + kl + 1 + ll + 2;
        i += 1;
    }
    assert(spec_hs.skip(hs.len() as int) =~= Seq::<(Seq<char>, Seq<char>)>::empty());
    v
}

/// Every span of a hint strip lies on the strip's row.
proof fn lemma_hint_spans_on_row(hs: Seq<(Seq<char>, Seq<char>)>, cx: int, y: int)
    ensures
        forall|k: int| 0 <= k < hint_spans_spec(hs, cx, y).len() ==> (#[trigger] hint_spans_spec(hs, cx, y)[k]).y == y,
    decreases hs.len(),
{
    if hs.len() > 0 {
        let k0 = hs[0].0;
        let l0 = hs[0].1;
        lemma_hint_spans_on_row(hs.drop_first(), cx + k0.len() + 1 + l0.len() + 2, y);
    }
}

/// The bottom region laid on the last two rows of an `h`-row screen (as both view
/// layouts place it) keeps the status line on row `h - 2` and puts the hint strip,
/// or the `:` / `/` input line, on the last row.
pub proof fn lemma_input_line_is_last_row(
    view: Screen,
    mode: InputMode,
    status: MarketStatus,
    tf: Timeframe,
    exchange: Seq<char>,
    refresh_ts: int,
    input: Seq<char>,
    x: int,
    w: int,
    h: int,
)
    requires
        h >= 2,
    ensures
        ({
            let s = bar_spec(view, mode, status, tf, exchange, refresh_ts, input, x, h - 2, w);
            let n1: int = if view == Screen::Overview || view == Screen::Detail { 4 } else { 3 };
            &&& n1 < s.len()
            &&& forall|k: int| 0 <= k < n1 ==> (#[trigger] s[k]).y == h - 2
            &&& forall|k: int| n1 <= k < s.len() ==> (#[trigger] s[k]).y == h - 1
        }),
{
    let y = h - 2;
    let s = bar_spec(view, mode, status, tf, exchange, refresh_ts, input, x, y, w);
    lemma_hint_spans_on_row(hints_spec(view), x + 1, y + 1);
    reveal_with_fuel(hint_spans_spec, 2);
    assert(hints_spec(view).len() > 0);
}

} // verus!
