//! Domain vocabulary that carries no prices: asset kinds, timeframes, display spans
//! and market status. Price-bearing records (quotes, candles, fundamentals,
//! indicator series) are floating point and live outside the verified core.

use vstd::prelude::*;

use crate::text::{ascii_upper, chars_of, ends_with, has_prefix, has_suffix, same_chars, starts_with, to_ascii_upper};

verus! {

broadcast use vstd::string::group_string_axioms;

/// What kind of instrument a ticker names.
#[derive(Debug, Clone, Copy, PartialEq, Eq, Structural)]
pub enum AssetKind {
    Stock,
    Crypto,
    Index,
}

/// Yahoo's ticker convention: a leading `^` marks an index, a `-USD` suffix a
/// crypto pair, anything else a stock.
pub open spec fn kind_of_symbol(s: Seq<char>) -> AssetKind {
    if starts_with(s, seq!['^']) {
        AssetKind::Index
    } else if ends_with(s, seq!['-', 'U', 'S', 'D']) {
        AssetKind::Crypto
    } else {
        AssetKind::Stock
    }
}

impl AssetKind {
    /// Classifies a ticker by Yahoo's convention (`^GSPC` index, `BTC-USD` crypto).
    pub fn infer(symbol: &str) -> (k: AssetKind)
        ensures
            k == kind_of_symbol(symbol@),
    {
        proof {
            reveal_strlit("^");
            reveal_strlit("-USD");
        }
        assert("^"@ =~= seq!['^']);
        assert("-USD"@ =~= seq!['-', 'U', 'S', 'D']);
        if has_prefix(symbol, "^") {
            AssetKind::Index
        } else if has_suffix(symbol, "-USD") {
            AssetKind::Crypto
        } else {
            AssetKind::Stock
        }
    }
}

/// The chart timeframes, in UI / hotkey order.
#[derive(Debug, Clone, Copy, PartialEq, Eq, Hash, Structural)]
pub enum Timeframe {
    D1,
    D5,
    M1,
    M6,
    Ytd,
    Y1,
    Max,
}

/// The visible time window of a chart. `Last` holds its length in seconds; YTD
/// and MAX depend on the data and the calendar, so they are their own variants.
#[derive(Debug, Clone, Copy, PartialEq, Eq, Structural)]
pub enum DisplaySpan {
    /// Visible window is `[last - secs, last]`.
    Last(i64),
    /// Year to date: from Jan 1 (UTC) of the last candle's year.
    Ytd,
    /// Everything available.
    Max,
}

/// US equity session state.
#[derive(Debug, Clone, Copy, PartialEq, Eq, Structural)]
pub enum MarketStatus {
    Open,
    Closed,
    PreMarket,
    AfterHours,
}

/// Seconds in a day.
pub const DAY_SECS: i64 = 86400;

/// RSI look-back period.
pub const RSI_PERIOD: usize = 14;

/// Short moving-average period.
pub const MA_SHORT: usize = 50;

/// Long moving-average period: the warmup the store asks the provider for.
pub const MA_LONG: usize = 200;

impl Timeframe {
    /// Every timeframe, in UI order; also the `1`..`7` hotkey order.
    pub open spec fn all_spec() -> Seq<Timeframe> {
        seq![
            Timeframe::D1,
            Timeframe::D5,
            Timeframe::M1,
            Timeframe::M6,
            Timeframe::Ytd,
            Timeframe::Y1,
            Timeframe::Max,
        ]
    }

    /// The label shown in the status row (`[1M]`).
    pub open spec fn label_spec(self) -> Seq<char> {
        match self {
            Timeframe::D1 => seq!['1', 'D'],
            Timeframe::D5 => seq!['5', 'D'],
            Timeframe::M1 => seq!['1', 'M'],
            Timeframe::M6 => seq!['6', 'M'],
            Timeframe::Ytd => seq!['Y', 'T', 'D'],
            Timeframe::Y1 => seq!['1', 'Y'],
            Timeframe::Max => seq!['M', 'A', 'X'],
        }
    }

    /// Estimated native bars in the visible window (fetch sizing only).
    pub open spec fn visible_bars_spec(self) -> int {
        match self {
            Timeframe::D1 => 78,
            Timeframe::D5 => 65,
            Timeframe::M1 => 21,
            Timeframe::M6 => 126,
            Timeframe::Ytd => 252,
            Timeframe::Y1 => 252,
            Timeframe::Max => 0,
        }
    }

    /// Yahoo `interval` parameter.
    pub open spec fn interval_spec(self) -> Seq<char> {
        match self {
            Timeframe::D1 => seq!['5', 'm'],
            Timeframe::D5 => seq!['3', '0', 'm'],
            Timeframe::Max => seq!['1', 'w', 'k'],
            _ => seq!['1', 'd'],
        }
    }

    /// Yahoo ranges valid at this timeframe's interval, ascending, each with an
    /// estimate of the native bars it yields.
    pub open spec fn ladder_spec(self) -> Seq<(Seq<char>, int)> {
        let iv = self.interval_spec();
        if iv == seq!['5', 'm'] {
            seq![(seq!['1', 'd'], 78int), (seq!['5', 'd'], 390int)]
        } else if iv == seq!['3', '0', 'm'] {
            seq![(seq!['5', 'd'], 65int), (seq!['1', 'm', 'o'], 286int)]
        } else if iv == seq!['1', 'd'] {
            seq![
                (seq!['1', 'm', 'o'], 21int),
                (seq!['3', 'm', 'o'], 63int),
                (seq!['6', 'm', 'o'], 126int),
                (seq!['1', 'y'], 252int),
                (seq!['2', 'y'], 504int),
            ]
        } else {
            seq![(seq!['m', 'a', 'x'], usize::MAX as int)]
        }
    }

    /// Cache time-to-live in seconds: intraday data goes stale fast, daily slowly.
    pub open spec fn ttl_spec(self) -> int {
        match self {
            Timeframe::D1 | Timeframe::D5 => 60,
            _ => 3600,
        }
    }

    /// The window shown for this timeframe.
    pub open spec fn span_spec(self) -> DisplaySpan {
        match self {
            Timeframe::D1 => DisplaySpan::Last(DAY_SECS),
            Timeframe::D5 => DisplaySpan::Last((5 * DAY_SECS) as i64),
            Timeframe::M1 => DisplaySpan::Last((30 * DAY_SECS) as i64),
            Timeframe::M6 => DisplaySpan::Last((182 * DAY_SECS) as i64),
            Timeframe::Ytd => DisplaySpan::Ytd,
            Timeframe::Y1 => DisplaySpan::Last((365 * DAY_SECS) as i64),
            Timeframe::Max => DisplaySpan::Max,
        }
    }

    /// What `parse` accepts: the label, compared after ASCII upper-casing.
    pub open spec fn parse_spec(s: Seq<char>) -> Option<Timeframe> {
        let u = ascii_upper(s);
        if u == Timeframe::D1.label_spec() {
            Some(Timeframe::D1)
        } else if u == Timeframe::D5.label_spec() {
            Some(Timeframe::D5)
        } else if u == Timeframe::M1.label_spec() {
            Some(Timeframe::M1)
        } else if u == Timeframe::M6.label_spec() {
            Some(Timeframe::M6)
        } else if u == Timeframe::Ytd.label_spec() {
            Some(Timeframe::Ytd)
        } else if u == Timeframe::Y1.label_spec() {
            Some(Timeframe::Y1)
        } else if u == Timeframe::Max.label_spec() {
            Some(Timeframe::Max)
        } else {
            None
        }
    }

    /// Every timeframe, in UI order.
    pub fn all() -> (r: [Timeframe; 7])
        ensures
            r@ == Timeframe::all_spec(),
    {
        let r = [
            Timeframe::D1,
            Timeframe::D5,
            Timeframe::M1,
            Timeframe::M6,
            Timeframe::Ytd,
            Timeframe::Y1,
            Timeframe::Max,
        ];
        assert(r@ =~= Timeframe::all_spec());
        r
    }

    /// Label shown in the status row, e.g. `[1M]`.
    pub fn label(&self) -> (r: &'static str)
        ensures
            r@ == self.label_spec(),
    {
        match self {
            Timeframe::D1 => {
                proof {
                    reveal_strlit("1D");
                }
                "1D"
            },
            Timeframe::D5 => {
                proof {
                    reveal_strlit("5D");
                }
                "5D"
            },
            Timeframe::M1 => {
                proof {
                    reveal_strlit("1M");
                }
                "1M"
            },
            Timeframe::M6 => {
                proof {
                    reveal_strlit("6M");
                }
                "6M"
            },
            Timeframe::Ytd => {
                proof {
                    reveal_strlit("YTD");
                }
                "YTD"
            },
            Timeframe::Y1 => {
                proof {
                    reveal_strlit("1Y");
                }
                "1Y"
            },
            Timeframe::Max => {
                proof {
                    reveal_strlit("MAX");
                }
                "MAX"
            },
        }
    }

    /// Estimated NATIVE bars in the visible window — for fetch sizing only; an
    /// over-estimate only widens the fetch.
    fn visible_bars(&self) -> (n: usize)
        ensures
            n == self.visible_bars_spec(),
    {
        match self {
            Timeframe::D1 => 78,
            Timeframe::D5 => 65,
            Timeframe::M1 => 21,
            Timeframe::M6 => 126,
            Timeframe::Ytd => 252,
            Timeframe::Y1 => 252,
            Timeframe::Max => 0,
        }
    }

    /// Yahoo `interval` parameter, chosen so a pane never receives thousands of
    /// candles.
    pub fn interval_param(&self) -> (r: &'static str)
        ensures
            r@ == self.interval_spec(),
    {
        match self {
            Timeframe::D1 => {
                proof {
                    reveal_strlit("5m");
                }
                "5m"
            },
            Timeframe::D5 => {
                proof {
                    reveal_strlit("30m");
                }
                "30m"
            },
            Timeframe::M1 | Timeframe::M6 | Timeframe::Ytd | Timeframe::Y1 => {
                proof {
                    reveal_strlit("1d");
                }
                "1d"
            },
            Timeframe::Max => {
                proof {
                    reveal_strlit("1wk");
                }
                "1wk"
            },
        }
    }

    /// Yahoo ranges valid at this timeframe's native interval, ascending, each paired
    /// with an estimate of the native bars it yields.
    fn range_ladder(&self) -> (r: Vec<(&'static str, usize)>)
        ensures
            r@.len() == self.ladder_spec().len(),
            forall|i: int|
                0 <= i < r@.len() ==> (#[trigger] r@[i]).0@ == self.ladder_spec()[i].0
                    && r@[i].1 == self.ladder_spec()[i].1,
    {
        proof {
            reveal_strlit("5m");
            reveal_strlit("30m");
            reveal_strlit("1d");
            reveal_strlit("1wk");
            reveal_strlit("5d");
            reveal_strlit("1mo");
            reveal_strlit("3mo");
            reveal_strlit("6mo");
            reveal_strlit("1y");
            reveal_strlit("2y");
            reveal_strlit("max");
        }
        let r = match self {
            Timeframe::D1 => vec![("1d", 78), ("5d", 390)],
            Timeframe::D5 => vec![("5d", 65), ("1mo", 286)],
            Timeframe::M1 | Timeframe::M6 | Timeframe::Ytd | Timeframe::Y1 => vec![
                ("1mo", 21),
                ("3mo", 63),
                ("6mo", 126),
                ("1y", 252),
                ("2y", 504),
            ],
            Timeframe::Max => vec![("max", usize::MAX)],
        };
        assert(self.interval_spec() == seq!['5', 'm'] <==> *self == Timeframe::D1);
        assert(self.interval_spec() == seq!['3', '0', 'm'] <==> *self == Timeframe::D5);
        assert(self.interval_spec() == seq!['1', 'd'] <==> (*self != Timeframe::D1
            && *self != Timeframe::D5 && *self != Timeframe::Max));
        assert("1d"@ =~= seq!['1', 'd']);
        assert("5d"@ =~= seq!['5', 'd']);
        assert("1mo"@ =~= seq!['1', 'm', 'o']);
        assert("3mo"@ =~= seq!['3', 'm', 'o']);
        assert("6mo"@ =~= seq!['6', 'm', 'o']);
        assert("1y"@ =~= seq!['1', 'y']);
        assert("2y"@ =~= seq!['2', 'y']);
        assert("max"@ =~= seq!['m', 'a', 'x']);
        r
    }

    /// Yahoo `range` to fetch: the first (smallest) ladder entry whose estimate
    /// covers `min_bars` warmup bars plus the visible window, or the widest one
    /// when none does.
    pub fn fetch_range_param(&self, min_bars: usize) -> (r: &'static str)
        requires
            min_bars + self.visible_bars_spec() <= usize::MAX,
        ensures
            r@ == self.fetch_range_spec(min_bars as int),
    {
        let required = min_bars + self.visible_bars();
        let ladder = self.range_ladder();
        let mut i: usize = 0;
        while i + 1 < ladder.len() && ladder[i].1 < required
            invariant
                ladder@.len() == self.ladder_spec().len(),
                ladder@.len() >= 1,
                forall|k: int|
                    0 <= k < ladder@.len() ==> (#[trigger] ladder@[k]).0@ == self.ladder_spec()[k].0
                        && ladder@[k].1 == self.ladder_spec()[k].1,
                required == min_bars + self.visible_bars_spec(),
                i < ladder@.len(),
                first_cover(self.ladder_spec(), required as int, 0) == first_cover(
                    self.ladder_spec(),
                    required as int,
                    i as int,
                ),
            decreases ladder.len() - i,
        {
            i += 1;
        }
        ladder[i].0
    }

    /// The range chosen for `min_bars` warmup bars.
    pub open spec fn fetch_range_spec(self, min_bars: int) -> Seq<char> {
        let l = self.ladder_spec();
        l[first_cover(l, min_bars + self.visible_bars_spec(), 0)].0
    }

    /// Cache TTL in seconds. Historical daily candles barely change; intraday does.
    pub fn ttl_secs(&self) -> (s: u64)
        ensures
            s == self.ttl_spec(),
    {
        match self {
            Timeframe::D1 | Timeframe::D5 => 60,
            _ => 3600,
        }
    }

    /// The visible window this timeframe shows.
    pub fn display_span(&self) -> (d: DisplaySpan)
        ensures
            d == self.span_spec(),
    {
        match self {
            Timeframe::D1 => DisplaySpan::Last(DAY_SECS),
            Timeframe::D5 => DisplaySpan::Last(5 * DAY_SECS),
            Timeframe::M1 => DisplaySpan::Last(30 * DAY_SECS),
            Timeframe::M6 => DisplaySpan::Last(182 * DAY_SECS),
            Timeframe::Ytd => DisplaySpan::Ytd,
            Timeframe::Y1 => DisplaySpan::Last(365 * DAY_SECS),
            Timeframe::Max => DisplaySpan::Max,
        }
    }

    /// Parses a label (`1d`, `YTD`, `max`, …), ignoring ASCII case.
    pub fn parse(s: &str) -> (r: Option<Timeframe>)
        ensures
            r == Timeframe::parse_spec(s@),
    {
        let u = to_ascii_upper(s);
        let all = Timeframe::all();
        let mut i: usize = 0;
        while i < 7
            invariant
                i <= 7,
                u@ == ascii_upper(s@),
                all@ == Timeframe::all_spec(),
                forall|j: int| 0 <= j < i ==> u@ != (#[trigger] Timeframe::all_spec()[j]).label_spec(),
            decreases 7 - i,
        {
            let tf = all[i];
            if same_chars(&u, &chars_of(tf.label())) {
                return Some(tf);
            }
            i += 1;
        }
        assert(u@ != Timeframe::all_spec()[0].label_spec());
        assert(u@ != Timeframe::all_spec()[1].label_spec());
        assert(u@ != Timeframe::all_spec()[2].label_spec());
        assert(u@ != Timeframe::all_spec()[3].label_spec());
        assert(u@ != Timeframe::all_spec()[4].label_spec());
        assert(u@ != Timeframe::all_spec()[5].label_spec());
        assert(u@ != Timeframe::all_spec()[6].label_spec());
        None
    }
}

/// Index of the first ladder entry (at or after `i`) whose estimate covers
/// `required`, or the last index when none does.
pub open spec fn first_cover(l: Seq<(Seq<char>, int)>, required: int, i: int) -> int
    decreases l.len() - i,
{
    if i + 1 >= l.len() {
        if l.len() == 0 { 0 } else { l.len() - 1 }
    } else if l[i].1 >= required {
        i
    } else {
        first_cover(l, required, i + 1)
    }
}

/// `first_cover` lands on the first entry at or after `i` that covers `required`,
/// or on the last entry when none does.
pub proof fn lemma_first_cover(l: Seq<(Seq<char>, int)>, required: int, i: int)
    requires
        0 <= i < l.len(),
    ensures
        i <= first_cover(l, required, i) < l.len(),
        l[first_cover(l, required, i)].1 >= required || first_cover(l, required, i) == l.len() - 1,
        forall|j: int| i <= j < first_cover(l, required, i) ==> l[j].1 < required,
    decreases l.len() - i,
{
    if i + 1 < l.len() && l[i].1 < required {
        lemma_first_cover(l, required, i + 1);
    }
}

/// Parsing a timeframe's own label gives that timeframe back.
pub proof fn lemma_parse_label_round_trip(tf: Timeframe)
    ensures
        Timeframe::parse_spec(tf.label_spec()) == Some(tf),
{
    assert(ascii_upper(tf.label_spec()) =~= tf.label_spec());
}

/// The fetched range is the smallest one that covers the warmup plus the visible
/// window: every narrower range falls short, and the chosen one covers unless it is
/// already the widest the source offers.
pub proof fn lemma_fetch_range_is_smallest_cover(tf: Timeframe, min_bars: int)
    ensures
        ({
            let l = tf.ladder_spec();
            let required = min_bars + tf.visible_bars_spec();
            let i = first_cover(l, required, 0);
            &&& 0 <= i < l.len()
            &&& l[i].0 == tf.fetch_range_spec(min_bars)
            &&& (l[i].1 >= required || i == l.len() - 1)
            &&& forall|j: int| 0 <= j < i ==> l[j].1 < required
        }),
{
    lemma_first_cover(tf.ladder_spec(), min_bars + tf.visible_bars_spec(), 0);
}

/// For every timeframe, the range fetched for the long moving average's warmup
/// yields at least that warmup plus the visible window, so the long average is
/// defined across the whole visible chart.
pub proof fn lemma_fetch_range_covers_long_ma_warmup(tf: Timeframe)
    ensures
        ({
            let l = tf.ladder_spec();
            let required = MA_LONG + tf.visible_bars_spec();
            l[first_cover(l, required, 0)].1 >= required
        }),
{
    let l = tf.ladder_spec();
    let required = MA_LONG + tf.visible_bars_spec();
    lemma_first_cover(l, required, 0);
    assert(l[l.len() - 1].1 >= required);
}

/// How a ticker is classified, by how it is written: a ticker that opens with `^`
/// is an index; any other ticker that ends in `-USD` is a crypto pair, whatever
/// comes before the suffix and however long it is; every other ticker is a stock.
pub proof fn lemma_kind_by_spelling(p: Seq<char>)
    ensures
        kind_of_symbol(seq!['^'] + p) == AssetKind::Index,
        (p.len() == 0 || p[0] != '^') ==> kind_of_symbol(p + seq!['-', 'U', 'S', 'D']) == AssetKind::Crypto,
        (p.len() == 0 || p[0] != '^') && !(p.len() >= 4 && p.subrange(p.len() - 4, p.len() as int) == seq![
            '-',
            'U',
            'S',
            'D',
        ]) ==> kind_of_symbol(p) == AssetKind::Stock,
{
    let caret = seq!['^'] + p;
    assert(caret.subrange(0, 1) =~= seq!['^']);
    let pair = p + seq!['-', 'U', 'S', 'D'];
    assert(pair.subrange(pair.len() - 4, pair.len() as int) =~= seq!['-', 'U', 'S', 'D']);
    if p.len() == 0 || p[0] != '^' {
        assert(pair.subrange(0, 1)[0] != seq!['^'][0]);
        if p.len() > 0 {
            assert(p.subrange(0, 1)[0] != seq!['^'][0]);
        }
    }
}

/// Yahoo's `range` parameters, as the fewest calendar days each can span (a month
/// at least 28 days, a year at least 365); `None` for `max`, which spans all the
/// history there is.
pub open spec fn range_min_days(r: Seq<char>) -> Option<int> {
    if r == seq!['1', 'd'] {
        Some(1)
    } else if r == seq!['5', 'd'] {
        Some(5)
    } else if r == seq!['1', 'm', 'o'] {
        Some(28)
    } else if r == seq!['3', 'm', 'o'] {
        Some(89)
    } else if r == seq!['6', 'm', 'o'] {
        Some(181)
    } else if r == seq!['1', 'y'] {
        Some(365)
    } else if r == seq!['2', 'y'] {
        Some(730)
    } else {
        None
    }
}

/// Yahoo's `interval` parameters, as the seconds one bar covers.
pub open spec fn interval_secs(iv: Seq<char>) -> int {
    if iv == seq!['5', 'm'] {
        300
    } else if iv == seq!['3', '0', 'm'] {
        1800
    } else if iv == seq!['1', 'd'] {
        DAY_SECS as int
    } else if iv == seq!['1', 'w', 'k'] {
        7 * DAY_SECS
    } else {
        0
    }
}

/// The longest a chart's visible window can be, in seconds: its span for a
/// fixed-length timeframe, and a leap year for year-to-date.
pub open spec fn window_secs(tf: Timeframe) -> Option<int> {
    match tf.span_spec() {
        DisplaySpan::Last(secs) => Some(secs as int),
        DisplaySpan::Ytd => Some(366 * DAY_SECS),
        DisplaySpan::Max => None,
    }
}

/// The next finer Yahoo interval, among the ones a chart can use.
pub open spec fn finer_interval(iv: Seq<char>) -> Option<Seq<char>> {
    if iv == seq!['3', '0', 'm'] {
        Some(seq!['5', 'm'])
    } else if iv == seq!['1', 'd'] {
        Some(seq!['3', '0', 'm'])
    } else if iv == seq!['1', 'w', 'k'] {
        Some(seq!['1', 'd'])
    } else {
        None
    }
}

/// Fetch sizing serves the chart. For every timeframe with a bounded window:
/// the range fetched for the long average's warmup spans at least that window;
/// the interval is the finest that keeps the window at 400 bars or fewer (one step
/// finer would overflow it), so a pane never receives thousands of candles. An
/// unbounded window uses the coarsest interval.
pub proof fn lemma_fetch_spans_the_window(tf: Timeframe)
    ensures
        window_secs(tf) matches Some(w) ==> {
            &&& (range_min_days(tf.fetch_range_spec(MA_LONG as int)) matches Some(d) ==> d * DAY_SECS >= w)
            &&& interval_secs(tf.interval_spec()) > 0
            &&& w <= 400 * interval_secs(tf.interval_spec())
            &&& (finer_interval(tf.interval_spec()) matches Some(f) ==> w > 400 * interval_secs(f))
        },
        window_secs(tf) is None ==> tf.interval_spec() == seq!['1', 'w', 'k'],
{
    let l = tf.ladder_spec();
    let required = MA_LONG + tf.visible_bars_spec();
    lemma_first_cover(l, required, 0);
    reveal_with_fuel(first_cover, 6);
}

} // verus!
