//! Candlestick chart windowing: which native candles are visible for a display
//! span, how they are spread over the pane's columns, and the pane's bottom border
//! with its centred timeframe label.
//!
//! Slicing is BY TIMESTAMP, never by bar count. Bucket `b` of `w` columns over `n`
//! visible candles holds visible positions `[b*n/w, (b+1)*n/w)`; the per-column
//! open/high/low/close/volume fold over those positions is done by the renderer.

use chrono::{Datelike, TimeZone};
use vstd::prelude::*;

use crate::data::types::DisplaySpan;
use crate::ui::glyph::{CANDLE_BODY, CANDLE_WICK, MA_DOT};
use crate::ui::layout::{Area, Span, SpanView, span_views};
use crate::ui::theme::Role;
use crate::text::{char_count, push_char, push_repeat, push_str, repeat};

verus! {

broadcast use vstd::string::group_string_axioms;

/// The year (UTC) of a unix timestamp, as chrono computes it (`None` when chrono
/// cannot represent the instant).
pub uninterp spec fn utc_year_of(ts: i64) -> Option<i32>;

/// The unix timestamp of Jan 1, 00:00:00 UTC of a year, as chrono computes it
/// (`None` when chrono cannot represent that date).
pub uninterp spec fn utc_year_start_of(year: i32) -> Option<i64>;

/// chrono's `Utc.timestamp_opt(ts, 0).single()` then `Datelike::year`. The contract
/// claims only that the result is `utc_year_of(ts)`, a function of `ts` alone.
#[verifier::external_body]
fn utc_year(ts: i64) -> (y: Option<i32>)
    ensures
        y == utc_year_of(ts),
{
    chrono::Utc.timestamp_opt(ts, 0).single().map(|dt| dt.year())
}

/// chrono's `Utc.with_ymd_and_hms(year, 1, 1, 0, 0, 0).single()` then `timestamp()`.
/// The contract claims only that the result is `utc_year_start_of(year)`.
#[verifier::external_body]
fn utc_year_start(year: i32) -> (t: Option<i64>)
    ensures
        t == utc_year_start_of(year),
{
    chrono::Utc.with_ymd_and_hms(year, 1, 1, 0, 0, 0).single().map(|dt| dt.timestamp())
}

/// The timestamp of the last candle, or 0 for an empty series.
pub open spec fn last_ts(ts: Seq<i64>) -> int {
    if ts.len() > 0 { ts.last() as int } else { 0 }
}

/// The left edge of the visible window; the right edge is always the last candle.
pub open spec fn window_start_spec(ts: Seq<i64>, span: DisplaySpan) -> int {
    match span {
        DisplaySpan::Max => if ts.len() > 0 { ts[0] as int } else { 0 },
        DisplaySpan::Last(secs) => last_ts(ts) - secs,
        DisplaySpan::Ytd => match utc_year_of(last_ts(ts) as i64) {
            Some(y) => match utc_year_start_of(y) {
                Some(t) => t as int,
                None => 0,
            },
            None => 0,
        },
    }
}

/// The window arithmetic does not overflow an `i64`.
pub open spec fn window_in_range(ts: Seq<i64>, span: DisplaySpan) -> bool {
    match span {
        DisplaySpan::Last(secs) => i64::MIN <= last_ts(ts) - secs <= i64::MAX,
        _ => true,
    }
}

/// The timestamp at the left edge of the visible window, given the display span
/// and the candle timestamps.
pub fn window_start_ts(ts: &Vec<i64>, span: DisplaySpan) -> (r: i64)
    requires
        window_in_range(ts@, span),
    ensures
        r == window_start_spec(ts@, span),
{
    let last: i64 = if ts.len() > 0 { ts[ts.len() - 1] } else { 0 };
    match span {
        DisplaySpan::Max => if ts.len() > 0 { ts[0] } else { 0 },
        DisplaySpan::Last(secs) => last - secs,
        DisplaySpan::Ytd => match utc_year(last) {
            Some(y) => match utc_year_start(y) {
                Some(t) => t,
                None => 0,
            },
            None => 0,
        },
    }
}

/// A year-to-date window opens on Jan 1, 00:00 UTC of the year the LAST candle
/// falls in, so it depends on the last candle alone: two series that end on the
/// same candle open the same window, however far back either reaches.
pub proof fn lemma_ytd_window_opens_on_last_candles_year(ts: Seq<i64>, other: Seq<i64>, y: i32, t: i64)
    requires
        ts.len() > 0,
    ensures
        utc_year_of(ts.last()) == Some(y) && utc_year_start_of(y) == Some(t) ==> window_start_spec(
            ts,
            DisplaySpan::Ytd,
        ) == t,
        other.len() > 0 && other.last() == ts.last() ==> window_start_spec(other, DisplaySpan::Ytd)
            == window_start_spec(ts, DisplaySpan::Ytd),
{
}

/// A fixed-length window ends on the last candle and reaches back exactly its
/// length; a `Max` window opens on the first candle.
pub proof fn lemma_window_edges(ts: Seq<i64>, secs: i64)
    requires
        ts.len() > 0,
    ensures
        window_start_spec(ts, DisplaySpan::Last(secs)) + secs == ts.last(),
        window_start_spec(ts, DisplaySpan::Max) == ts[0],
{
}

/// Indices of the candles inside the window (`ts >= start`), in order.
pub open spec fn visible_spec(ts: Seq<i64>, start: int) -> Seq<usize> {
    Seq::new(ts.len(), |i: int| i as usize).filter(|i: usize| ts[i as int] >= start)
}

/// Indices of the candles at or after `start`, in order.
pub fn visible_indices(ts: &Vec<i64>, start: i64) -> (v: Vec<usize>)
    ensures
        v@ == visible_spec(ts@, start as int),
{
    let mut v: Vec<usize> = Vec::new();
    let mut i: usize = 0;
    let ghost all = Seq::new(ts@.len(), |i: int| i as usize);
    let ghost pred = |i: usize| ts@[i as int] >= start;
    while i < ts.len()
        invariant
            i <= ts.len(),
            all == Seq::new(ts@.len(), |i: int| i as usize),
            pred == (|i: usize| ts@[i as int] >= start),
            v@ == all.take(i as int).filter(pred),
        decreases ts.len() - i,
    {
        proof {
            assert(all.take(i + 1) == all.take(i as int).push(i));
            all.take(i as int).lemma_filter_push(i, pred);
        }
        if ts[i] >= start {
            v.push(i);
        }
        i += 1;
    }
    assert(all.take(ts.len() as int) == all);
    v
}

/// First visible position of bucket `b` when `n` candles are spread over `w` columns.
pub open spec fn bucket_edge(b: int, n: int, w: int) -> int {
    b * n / w
}

/// Bucket `b`'s visible positions `[lo, hi)`, or `None` when the bucket is empty.
pub open spec fn bucket_spec(b: int, n: int, w: int) -> Option<(usize, usize)> {
    if bucket_edge(b, n, w) < bucket_edge(b + 1, n, w) {
        Some((bucket_edge(b, n, w) as usize, bucket_edge(b + 1, n, w) as usize))
    } else {
        None
    }
}

/// Spreads `n` visible candles evenly over `width` columns: column `b` gets
/// positions `[b*n/width, (b+1)*n/width)`, `None` when that is empty.
pub fn bucket_ranges(n: usize, width: usize) -> (r: Vec<Option<(usize, usize)>>)
    requires
        width > 0,
        width * n <= usize::MAX,
    ensures
        r@.len() == width,
        forall|b: int| 0 <= b < width ==> r@[b] == bucket_spec(b, n as int, width as int),
{
    let mut r: Vec<Option<(usize, usize)>> = Vec::new();
    let mut b: usize = 0;
    while b < width
        invariant
            b <= width,
            width > 0,
            width * n <= usize::MAX,
            r@.len() == b,
            forall|k: int| 0 <= k < b ==> r@[k] == bucket_spec(k, n as int, width as int),
        decreases width - b,
    {
        proof {
            assert((b + 1) * n <= width * n) by (nonlinear_arith)
                requires
                    b + 1 <= width,
            ;
            assert(b * n <= (b + 1) * n) by (nonlinear_arith);
            assert(0 <= b * n) by (nonlinear_arith);
        }
        let lo = b * n / width;
        let hi = (b + 1) * n / width;
        if lo < hi {
            r.push(Some((lo, hi)));
        } else {
            r.push(None);
        }
        b += 1;
    }
    r
}

/// Which native candles each column of a chart shows.
pub struct ChartPlan {
    /// Indices of the visible candles, in order.
    pub visible: Vec<usize>,
    /// Per column, the range of positions into `visible` it aggregates.
    pub buckets: Vec<Option<(usize, usize)>>,
}

/// Slices the series to the display window (by timestamp) and spreads the visible
/// candles over `width` columns. A zero width gives no columns; no visible candles
/// gives `width` empty columns.
pub fn plan_columns(ts: &Vec<i64>, span: DisplaySpan, width: usize) -> (p: ChartPlan)
    requires
        window_in_range(ts@, span),
        width * ts@.len() <= usize::MAX,
    ensures
        p.buckets@.len() == width,
        width > 0 ==> p.visible@ == visible_spec(ts@, window_start_spec(ts@, span)),
        width > 0 ==> forall|b: int|
            0 <= b < width ==> p.buckets@[b] == bucket_spec(b, p.visible@.len() as int, width as int),
        width == 0 ==> p.visible@.len() == 0,
{
    if width == 0 {
        return ChartPlan { visible: Vec::new(), buckets: Vec::new() };
    }
    let start = window_start_ts(ts, span);
    let visible = visible_indices(ts, start);
    proof {
        let all = Seq::new(ts@.len(), |i: int| i as usize);
        all.lemma_filter_len(|i: usize| ts@[i as int] >= start);
        assert(width * visible@.len() <= width * ts@.len()) by (nonlinear_arith)
            requires
                visible@.len() <= ts@.len(),
        ;
    }
    let buckets = bucket_ranges(visible.len(), width);
    ChartPlan { visible, buckets }
}

/// The bucket edges start at 0, end at `n`, and never decrease, so the columns
/// tile the visible candles in order with no gap and no overlap.
pub proof fn lemma_buckets_tile(n: int, w: int, b: int)
    requires
        n >= 0,
        w > 0,
        0 <= b < w,
    ensures
        bucket_edge(0, n, w) == 0,
        bucket_edge(w, n, w) == n,
        bucket_edge(b, n, w) <= bucket_edge(b + 1, n, w),
        0 <= bucket_edge(b, n, w) <= n,
{
    assert(0 * n / w == 0) by (nonlinear_arith)
        requires
            w > 0,
    ;
    assert(w * n / w == n) by (nonlinear_arith)
        requires
            w > 0,
    ;
    assert(b * n <= (b + 1) * n) by (nonlinear_arith)
        requires
            n >= 0,
            b >= 0,
    ;
    vstd::arithmetic::div_mod::lemma_div_is_ordered(b * n, (b + 1) * n, w);
    assert(b * n <= w * n) by (nonlinear_arith)
        requires
            n >= 0,
            b < w,
    ;
    vstd::arithmetic::div_mod::lemma_div_is_ordered(b * n, w * n, w);
    assert(0 <= b * n) by (nonlinear_arith)
        requires
            n >= 0,
            b >= 0,
    ;
    vstd::arithmetic::div_mod::lemma_div_pos_is_pos(b * n, w);
}

/// With at least as many visible candles as columns, every column is filled.
pub proof fn lemma_buckets_full_when_enough(n: int, w: int, b: int)
    requires
        n >= w > 0,
        0 <= b < w,
    ensures
        bucket_edge(b, n, w) < bucket_edge(b + 1, n, w),
{
    let q = b * n / w;
    vstd::arithmetic::div_mod::lemma_fundamental_div_mod(b * n, w);
    let r = (b * n) % w;
    assert((b + 1) * n == b * n + n) by (nonlinear_arith);
    assert((q + 1) * w == w * q + w) by (nonlinear_arith);
    assert((b + 1) * n >= (q + 1) * w);
    vstd::arithmetic::div_mod::lemma_div_is_ordered((q + 1) * w, (b + 1) * n, w);
    assert((q + 1) * w / w == q + 1) by (nonlinear_arith)
        requires
            w > 0,
    ;
}

/// With fewer visible candles than columns, no column holds more than one candle.
pub proof fn lemma_buckets_single_when_few(n: int, w: int, b: int)
    requires
        0 <= n <= w,
        w > 0,
        0 <= b < w,
    ensures
        bucket_edge(b + 1, n, w) - bucket_edge(b, n, w) <= 1,
{
    let q = b * n / w;
    vstd::arithmetic::div_mod::lemma_fundamental_div_mod(b * n, w);
    let r = (b * n) % w;
    assert((b + 1) * n < (q + 2) * w) by (nonlinear_arith)
        requires
            b * n == w * q + r,
            r < w,
            n <= w,
            0 <= r,
    ;
    let q2 = (b + 1) * n / w;
    vstd::arithmetic::div_mod::lemma_fundamental_div_mod((b + 1) * n, w);
    assert(q2 < q + 2) by (nonlinear_arith)
        requires
            (b + 1) * n == w * q2 + (b + 1) * n % w,
            0 <= (b + 1) * n % w,
            (b + 1) * n < (q + 2) * w,
            w > 0,
    ;
}

/// Number of non-empty columns among the first `k`.
pub open spec fn filled_columns(n: int, w: int, k: int) -> int
    decreases k,
{
    if k <= 0 {
        0
    } else {
        filled_columns(n, w, k - 1) + if bucket_edge(k - 1, n, w) < bucket_edge(k, n, w) {
            1int
        } else {
            0int
        }
    }
}

/// With fewer visible candles than columns, exactly `n` columns are filled: some
/// columns stay empty, and no candle is drawn twice.
pub proof fn lemma_filled_columns_when_few(n: int, w: int)
    requires
        0 <= n <= w,
        w > 0,
    ensures
        filled_columns(n, w, w) == n,
{
    lemma_filled_prefix(n, w, w);
    lemma_buckets_tile(n, w, 0);
}

/// Under few candles, the filled columns among the first `k` number `edge(k)`.
proof fn lemma_filled_prefix(n: int, w: int, k: int)
    requires
        0 <= n <= w,
        w > 0,
        0 <= k <= w,
    ensures
        filled_columns(n, w, k) == bucket_edge(k, n, w),
    decreases k,
{
    if k == 0 {
        assert(0 * n / w == 0) by (nonlinear_arith)
            requires
                w > 0,
        ;
    } else {
        lemma_filled_prefix(n, w, k - 1);
        lemma_buckets_single_when_few(n, w, k - 1);
        lemma_buckets_tile(n, w, k - 1);
    }
}

/// The bottom border of a pane with the timeframe centred in it: `└`, dashes,
/// ` label `, dashes, `┘`. The left run is biased one cell short so a 28-wide pane
/// splits 10 / 12 dashes around ` 1M `.
pub open spec fn sat_sub(a: int, b: int) -> int {
    if a >= b { a - b } else { 0 }
}

/// Dashes left of ` label ` on a `width`-wide bottom border.
pub open spec fn tf_left(width: int, seg_len: int) -> int {
    sat_sub(sat_sub(sat_sub(width, 2), seg_len), 1) / 2
}

/// Dashes right of ` label ` on a `width`-wide bottom border.
pub open spec fn tf_right(width: int, seg_len: int) -> int {
    sat_sub(sat_sub(sat_sub(width, 2), seg_len), tf_left(width, seg_len))
}

/// The whole bottom border.
pub open spec fn tf_border_spec(width: int, label: Seq<char>) -> Seq<char> {
    let seg = seq![' '] + label + seq![' '];
    seq!['└'] + repeat('─', tf_left(width, seg.len() as int) as nat) + seg + repeat(
        '─',
        tf_right(width, seg.len() as int) as nat,
    ) + seq!['┘']
}

/// Bottom border with the timeframe centred.
pub fn tf_bottom_border(width: usize, label: &str) -> (s: String)
    requires
        label@.len() + 2 <= usize::MAX,
    ensures
        s@ == tf_border_spec(width as int, label@),
{
    let seg_len = char_count(label) + 2;
    let inner = width.saturating_sub(2);
    let left = inner.saturating_sub(seg_len).saturating_sub(1) / 2;
    let right = inner.saturating_sub(seg_len).saturating_sub(left);
    let mut s = String::new();
    push_char(&mut s, '└');
    push_repeat(&mut s, '─', left);
    push_char(&mut s, ' ');
    push_str(&mut s, label);
    push_char(&mut s, ' ');
    push_repeat(&mut s, '─', right);
    push_char(&mut s, '┘');
    assert(s@ =~= tf_border_spec(width as int, label@));
    s
}

/// Column (relative to the pane's left edge) where the timeframe label text begins
/// on the bottom border: `└` + left dashes + the leading space.
pub fn tf_label_col(width: usize, label: &str) -> (c: u16)
    requires
        label@.len() + 2 <= usize::MAX,
    ensures
        c == (2 + tf_left(width as int, (label@.len() + 2) as int)) as u16,
{
    let seg_len = char_count(label) + 2;
    let inner = width.saturating_sub(2);
    let left = inner.saturating_sub(seg_len).saturating_sub(1) / 2;
    (1 + left + 1) as u16
}

/// The label sits on the border exactly where `tf_label_col` says, and a border
/// wide enough to hold ` label ` is exactly `width` cells long.
pub proof fn lemma_tf_label_on_border(width: int, label: Seq<char>)
    requires
        width >= 0,
    ensures
        ({
            let b = tf_border_spec(width, label);
            let col = 2 + tf_left(width, (label.len() + 2) as int);
            &&& b.subrange(col, col + label.len()) == label
            &&& (width >= label.len() + 5 ==> b.len() == width)
        }),
{
    let seg = seq![' '] + label + seq![' '];
    let l = tf_left(width, seg.len() as int);
    let b = tf_border_spec(width, label);
    assert(b.subrange(2 + l, 2 + l + label.len()) =~= label);
}

/// The interior of a grid pane: inset one padding column each side inside the
/// border, one border row top and bottom.
pub fn pane_interior(area: Area) -> (r: Area)
    requires
        area.x + 2 <= u16::MAX,
        area.y + 1 <= u16::MAX,
    ensures
        r == (Area {
            x: (area.x + 2) as u16,
            y: (area.y + 1) as u16,
            width: (if area.width >= 4 { area.width - 4 } else { 0 }) as u16,
            height: (if area.height >= 2 { area.height - 2 } else { 0 }) as u16,
        }),
{
    Area {
        x: area.x + 2,
        y: area.y + 1,
        width: area.width.saturating_sub(4),
        height: area.height.saturating_sub(2),
    }
}

/// The title of a filled pane over its top border: `┌─ `, the symbol, and when a
/// quote is known its price and signed change (coloured by direction), then one
/// trailing space. `quote` holds the price text, the change text, and whether the
/// change is up.
pub open spec fn pane_title_spec(
    x: int,
    y: int,
    symbol: Seq<char>,
    quote: Option<(Seq<char>, Seq<char>, bool)>,
    border: Role,
) -> Seq<SpanView> {
    let head = seq![
        SpanView { x, y, text: "┌─ "@, role: border },
        SpanView { x: x + 3, y, text: symbol, role: Role::Fg },
    ];
    let cx = x + 3 + symbol.len();
    match quote {
        Some((p, c, up)) => head + seq![
            SpanView { x: cx, y, text: " "@, role: border },
            SpanView { x: cx + 1, y, text: p, role: Role::Price },
            SpanView { x: cx + 1 + p.len(), y, text: " "@, role: border },
            SpanView { x: cx + 2 + p.len(), y, text: c, role: if up { Role::Up } else { Role::Down } },
            SpanView { x: cx + 2 + p.len() + c.len(), y, text: " "@, role: border },
        ],
        None => head + seq![SpanView { x: cx, y, text: " "@, role: border }],
    }
}

/// Lays out a pane's title from column `x` on row `y`.
pub fn pane_title_spans(x: u16, y: u16, symbol: &str, quote: Option<(&str, &str, bool)>, border: Role) -> (v: Vec<
    Span,
>)
    requires
        x + symbol@.len() + 10 + match quote {
            Some(q) => q.0@.len() + q.1@.len(),
            None => 0,
        } <= u16::MAX,
    ensures
        span_views(v@) == pane_title_spec(
            x as int,
            y as int,
            symbol@,
            match quote {
                Some(q) => Some((q.0@, q.1@, q.2)),
                None => None,
            },
            border,
        ),
{
    let mut v: Vec<Span> = Vec::new();
    v.push(Span { x, y, text: "┌─ ".to_string(), role: border });
    v.push(Span { x: x + 3, y, text: symbol.to_string(), role: Role::Fg });
    let cx: u16 = x + 3 + char_count(symbol) as u16;
    match quote {
        Some((p, c, up)) => {
            let pl = char_count(p) as u16;
            let cl = char_count(c) as u16;
            v.push(Span { x: cx, y, text: " ".to_string(), role: border });
            v.push(Span { x: cx + 1, y, text: p.to_string(), role: Role::Price });
            v.push(Span { x: cx + 1 + pl, y, text: " ".to_string(), role: border });
            let role = if up { Role::Up } else { Role::Down };
            v.push(Span { x: cx + 2 + pl, y, text: c.to_string(), role });
            v.push(Span { x: cx + 2 + pl + cl, y, text: " ".to_string(), role: border });
        },
        None => {
            v.push(Span { x: cx, y, text: " ".to_string(), role: border });
        },
    }
    proof {
        let q = match quote {
            Some(q) => Some((q.0@, q.1@, q.2)),
            None => None,
        };
        assert(span_views(v@) =~= pane_title_spec(x as int, y as int, symbol@, q, border));
    }
    v
}

/// The rows (top = 0) a candle and its overlays land on inside a chart column.
#[derive(Debug, Clone, Copy, PartialEq, Eq, Structural)]
pub struct CandleRows {
    /// Row of the high (top of the wick).
    pub high: u16,
    /// Row of the low (bottom of the wick).
    pub low: u16,
    /// Row of the upper body edge.
    pub body_top: u16,
    /// Row of the lower body edge.
    pub body_bot: u16,
    /// Row of the short moving average, if it has a value.
    pub ma50: Option<u16>,
    /// Row of the long moving average, if it has a value.
    pub ma200: Option<u16>,
}

/// What cell `r` of a chart column shows: the body over the wick, the wick over
/// the overlays, the short average over the long one, else nothing. Up candles and
/// down candles differ only in colour.
pub open spec fn cell_spec(r: int, c: CandleRows, up: bool) -> Option<(char, Role)> {
    let candle = if up { Role::Up } else { Role::Down };
    if c.body_top <= r <= c.body_bot {
        Some((CANDLE_BODY, candle))
    } else if c.high <= r <= c.low {
        Some((CANDLE_WICK, candle))
    } else if (c.ma50 matches Some(m) && m == r) {
        Some((MA_DOT, Role::Warn))
    } else if (c.ma200 matches Some(m) && m == r) {
        Some((MA_DOT, Role::Heading))
    } else {
        None
    }
}

/// Whether row `r` is covered by the candle itself (wick or body).
pub open spec fn candle_covers(r: int, c: CandleRows) -> bool {
    c.body_top <= r <= c.body_bot || c.high <= r <= c.low
}

/// The cell shows a candle glyph (body or wick).
pub open spec fn shows_candle(cell: Option<(char, Role)>) -> bool {
    match cell {
        Some((ch, _)) => ch == CANDLE_BODY || ch == CANDLE_WICK,
        None => false,
    }
}

/// The cells of one chart column of height `h`, top to bottom. An overlay dot is
/// drawn only into a cell the candle left empty: a candle always wins.
pub fn column_cells(h: u16, c: CandleRows, up: bool) -> (v: Vec<Option<(char, Role)>>)
    ensures
        v@.len() == h,
        forall|r: int| 0 <= r < h ==> #[trigger] v@[r] == cell_spec(r, c, up),
        forall|r: int|
            0 <= r < h && candle_covers(r, c) ==> shows_candle(#[trigger] v@[r]),
{
    let candle = if up { Role::Up } else { Role::Down };
    let mut v: Vec<Option<(char, Role)>> = Vec::new();
    let mut r: u16 = 0;
    while r < h
        invariant
            r <= h,
            v@.len() == r,
            candle == (if up { Role::Up } else { Role::Down }),
            forall|k: int| 0 <= k < r ==> #[trigger] v@[k] == cell_spec(k, c, up),
        decreases h - r,
    {
        let cell = if c.body_top <= r && r <= c.body_bot {
            Some((CANDLE_BODY, candle))
        } else if c.high <= r && r <= c.low {
            Some((CANDLE_WICK, candle))
        } else if c.ma50 == Some(r) {
            Some((MA_DOT, Role::Warn))
        } else if c.ma200 == Some(r) {
            Some((MA_DOT, Role::Heading))
        } else {
            None
        };
        v.push(cell);
        r += 1;
    }
    v
}

} // verus!
