//! The decisions of the Yahoo Finance adapter: how the batch is requested, when a
//! crumb token is usable, when a quote request is retried, and how Yahoo's
//! `marketState` maps onto a market status. The HTTP exchange itself happens
//! outside the verified core.

use vstd::prelude::*;

use crate::data::types::MarketStatus;
use crate::text::{chars_of, contains, has_infix, push_char, push_str, str_eq};

verus! {

broadcast use vstd::string::group_string_axioms;

/// Batch quote endpoint.
pub const V7_QUOTE: &'static str = "https://query1.finance.yahoo.com/v7/finance/quote";

/// Candle endpoint; the symbol follows a `/`.
pub const V8_CHART: &'static str = "https://query1.finance.yahoo.com/v8/finance/chart";

/// Crumb endpoint.
pub const CRUMB_URL: &'static str = "https://query1.finance.yahoo.com/v1/test/getcrumb";

/// Cookie-priming endpoint.
pub const COOKIE_URL: &'static str = "https://fc.yahoo.com/";

/// User agent sent with every request.
pub const UA: &'static str = "Mozilla/5.0 (X11; Linux x86_64) AppleWebKit/537.36 (KHTML, like Gecko) quotail";

/// The status Yahoo's `marketState` names: `REGULAR` open, `PRE`/`PREPRE`
/// pre-market, `POST`/`POSTPOST` after hours, anything else (or nothing) closed.
pub open spec fn status_of_state(state: Option<Seq<char>>) -> MarketStatus {
    match state {
        Some(s) => if s == "REGULAR"@ {
            MarketStatus::Open
        } else if s == "PRE"@ || s == "PREPRE"@ {
            MarketStatus::PreMarket
        } else if s == "POST"@ || s == "POSTPOST"@ {
            MarketStatus::AfterHours
        } else {
            MarketStatus::Closed
        },
        None => MarketStatus::Closed,
    }
}

/// Maps the reference index's `marketState` onto a market status.
pub fn market_status_from(state: Option<&str>) -> (m: MarketStatus)
    ensures
        m == status_of_state(
            match state {
                Some(s) => Some(s@),
                None => None,
            },
        ),
{
    match state {
        Some(s) => if str_eq(s, "REGULAR") {
            MarketStatus::Open
        } else if str_eq(s, "PRE") || str_eq(s, "PREPRE") {
            MarketStatus::PreMarket
        } else if str_eq(s, "POST") || str_eq(s, "POSTPOST") {
            MarketStatus::AfterHours
        } else {
            MarketStatus::Closed
        },
        None => MarketStatus::Closed,
    }
}

/// A crumb is usable when it is non-empty and not an HTML error page (no `<`).
pub fn crumb_usable(crumb: &str) -> (ok: bool)
    ensures
        ok == (crumb@.len() > 0 && !contains(crumb@, "<"@)),
{
    let n = chars_of(crumb).len();
    n > 0 && !has_infix(crumb, "<")
}

/// What to do with a quote response.
#[derive(Debug, Clone, Copy, PartialEq, Eq, Structural)]
pub enum QuoteStep {
    /// The crumb went stale on the first attempt: drop it and try once more.
    Retry,
    /// A non-success status: give up with an error.
    Fail,
    /// Success: parse the body.
    Parse,
}

/// The step a quote response with HTTP `status` leads to on attempt `attempt`
/// (0 or 1): a 401 on the first attempt retries; any other non-2xx fails.
pub open spec fn quote_step_spec(status: int, attempt: int) -> QuoteStep {
    if status == 401 && attempt == 0 {
        QuoteStep::Retry
    } else if !(200 <= status <= 299) {
        QuoteStep::Fail
    } else {
        QuoteStep::Parse
    }
}

/// Decides how a quote response is handled.
pub fn quote_step(status: u16, attempt: u32) -> (s: QuoteStep)
    ensures
        s == quote_step_spec(status as int, attempt as int),
{
    if status == 401 && attempt == 0 {
        QuoteStep::Retry
    } else if !(200 <= status && status <= 299) {
        QuoteStep::Fail
    } else {
        QuoteStep::Parse
    }
}

/// A stale crumb is retried at most once: on the second attempt a 401 fails.
pub proof fn lemma_single_retry(status: int)
    ensures
        quote_step_spec(status, 1) != QuoteStep::Retry,
{
}

/// Symbols joined by commas (`[String]::join(",")`).
pub open spec fn joined(symbols: Seq<Seq<char>>) -> Seq<char>
    decreases symbols.len(),
{
    if symbols.len() == 0 {
        Seq::empty()
    } else if symbols.len() == 1 {
        symbols[0]
    } else {
        joined(symbols.drop_last()) + seq![','] + symbols.last()
    }
}

/// The comma-joined symbol list of a batch request — one request for the whole list.
pub fn join_symbols(symbols: &Vec<String>) -> (s: String)
    ensures
        s@ == joined(symbols@.map_values(|x: String| x@)),
{
    let ghost views = symbols@.map_values(|x: String| x@);
    let mut s = String::new();
    let mut i: usize = 0;
    while i < symbols.len()
        invariant
            i <= symbols.len(),
            views == symbols@.map_values(|x: String| x@),
            s@ == joined(views.take(i as int)),
        decreases symbols.len() - i,
    {
        if i > 0 {
            push_char(&mut s, ',');
        }
        push_str(&mut s, symbols[i].as_str());
        proof {
            assert(views.take(i + 1).drop_last() =~= views.take(i as int));
            if i == 0 {
                assert(views.take(0) =~= Seq::<Seq<char>>::empty());
            }
        }
        i += 1;
    }
    assert(views.take(symbols.len() as int) =~= views);
    s
}

/// The candle URL of a symbol: the chart endpoint, `/`, the symbol.
pub fn chart_url(symbol: &str) -> (u: String)
    ensures
        u@ == V8_CHART@ + seq!['/'] + symbol@,
{
    let mut u = V8_CHART.to_string();
    push_char(&mut u, '/');
    push_str(&mut u, symbol);
    u
}

/// Whether Yahoo filled row `i` of a chart: its open, high, low and close are all
/// present (a value array shorter than the timestamps counts as missing there).
pub open spec fn row_complete(i: int, open: Seq<bool>, high: Seq<bool>, low: Seq<bool>, close: Seq<bool>) -> bool {
    &&& i < open.len() && open[i]
    &&& i < high.len() && high[i]
    &&& i < low.len() && low[i]
    &&& i < close.len() && close[i]
}

/// The rows of an `n`-timestamp chart that become candles, in order.
pub open spec fn complete_spec(n: nat, open: Seq<bool>, high: Seq<bool>, low: Seq<bool>, close: Seq<bool>) -> Seq<
    usize,
> {
    Seq::new(n, |i: int| i as usize).filter(|i: usize| row_complete(i as int, open, high, low, close))
}

/// One presence flag per row: whether the value at that row is present.
fn present_at(v: &Vec<bool>, i: usize) -> (b: bool)
    ensures
        b == (i < v@.len() && v@[i as int]),
{
    i < v.len() && v[i]
}

/// Which rows of a chart response become candles: those whose open, high, low
/// and close are all present. Rows Yahoo left null (gaps, halts) are skipped.
pub fn complete_rows(n: usize, open: &Vec<bool>, high: &Vec<bool>, low: &Vec<bool>, close: &Vec<bool>) -> (v: Vec<
    usize,
>)
    ensures
        v@ == complete_spec(n as nat, open@, high@, low@, close@),
{
    let mut v: Vec<usize> = Vec::new();
    let mut i: usize = 0;
    let ghost all = Seq::new(n as nat, |i: int| i as usize);
    let ghost pred = |i: usize| row_complete(i as int, open@, high@, low@, close@);
    while i < n
        invariant
            i <= n,
            all == Seq::new(n as nat, |i: int| i as usize),
            pred == (|i: usize| row_complete(i as int, open@, high@, low@, close@)),
            v@ == all.take(i as int).filter(pred),
        decreases n - i,
    {
        proof {
            assert(all.take(i + 1) == all.take(i as int).push(i));
            all.take(i as int).lemma_filter_push(i, pred);
        }
        if present_at(open, i) && present_at(high, i) && present_at(low, i) && present_at(close, i) {
            v.push(i);
        }
        i += 1;
    }
    assert(all.take(n as int) == all);
    v
}

/// The comma-separated fields of a string, left to right (a string without a
/// comma is one field).
pub open spec fn split_commas(s: Seq<char>) -> Seq<Seq<char>>
    decreases s.len(),
{
    if s.len() == 0 {
        seq![Seq::<char>::empty()]
    } else {
        let rest = split_commas(s.drop_first());
        if s[0] == ',' {
            seq![Seq::<char>::empty()] + rest
        } else {
            rest.update(0, seq![s[0]] + rest[0])
        }
    }
}

/// Whether a symbol holds no comma.
pub open spec fn comma_free(a: Seq<char>) -> bool {
    forall|i: int| 0 <= i < a.len() ==> a[i] != ','
}

proof fn lemma_split_has_a_field(s: Seq<char>)
    ensures
        split_commas(s).len() >= 1,
    decreases s.len(),
{
    if s.len() > 0 {
        lemma_split_has_a_field(s.drop_first());
    }
}

/// A comma-free field followed by a comma splits off as the first field.
proof fn lemma_split_after_field(a: Seq<char>, b: Seq<char>)
    requires
        comma_free(a),
    ensures
        split_commas(a + seq![','] + b) == seq![a] + split_commas(b),
    decreases a.len(),
{
    let s = a + seq![','] + b;
    lemma_split_has_a_field(b);
    if a.len() == 0 {
        assert(s.drop_first() =~= b);
        assert(a =~= Seq::<char>::empty());
    } else {
        let a1 = a.drop_first();
        assert(s.drop_first() =~= a1 + seq![','] + b);
        lemma_split_after_field(a1, b);
        assert(seq![a[0]] + a1 =~= a);
        assert((seq![a1] + split_commas(b)).update(0, seq![a[0]] + a1) =~= seq![a] + split_commas(b));
    }
}

/// A comma-free string is a single field.
proof fn lemma_split_single(a: Seq<char>)
    requires
        comma_free(a),
    ensures
        split_commas(a) == seq![a],
    decreases a.len(),
{
    if a.len() > 0 {
        let a1 = a.drop_first();
        lemma_split_single(a1);
        assert(seq![a[0]] + a1 =~= a);
        assert(seq![a1].update(0, seq![a[0]] + a1) =~= seq![a]);
    } else {
        assert(a =~= Seq::<char>::empty());
    }
}

/// Joining peels off from the front as well as from the back.
proof fn lemma_joined_front(v: Seq<Seq<char>>)
    requires
        v.len() >= 2,
    ensures
        joined(v) == v[0] + seq![','] + joined(v.drop_first()),
    decreases v.len(),
{
    if v.len() == 2 {
        assert(v.drop_last() =~= seq![v[0]]);
        assert(v.drop_first() =~= seq![v[1]]);
        assert(joined(v.drop_last()) == v[0]);
        assert(joined(v.drop_first()) == v[1]);
        assert(joined(v) == joined(v.drop_last()) + seq![','] + v.last());
    } else {
        let l = v.drop_last();
        let f = v.drop_first();
        lemma_joined_front(l);
        assert(l.drop_first() =~= f.drop_last());
        assert(f.last() == v.last());
        assert(l[0] == v[0]);
        assert(joined(v) == joined(l) + seq![','] + v.last());
        assert(joined(f) == joined(f.drop_last()) + seq![','] + f.last());
        assert(joined(v) =~= v[0] + seq![','] + joined(f));
    }
}

/// The batch request names every symbol, in order: splitting the joined list at
/// its commas gives the symbols back, as long as none of them holds a comma.
pub proof fn lemma_batch_names_every_symbol(v: Seq<Seq<char>>)
    requires
        v.len() >= 1,
        forall|i: int| 0 <= i < v.len() ==> comma_free(#[trigger] v[i]),
    ensures
        split_commas(joined(v)) == v,
    decreases v.len(),
{
    if v.len() == 1 {
        lemma_split_single(v[0]);
        assert(seq![v[0]] =~= v);
    } else {
        lemma_joined_front(v);
        let rest = v.drop_first();
        assert(forall|i: int| 0 <= i < rest.len() ==> rest[i] == v[i + 1]);
        lemma_batch_names_every_symbol(rest);
        assert(comma_free(v[0]));
        lemma_split_after_field(v[0], joined(rest));
        assert(seq![v[0]] + rest =~= v);
    }
}

} // verus!
