//! `config.toml`: user intent. The editable configuration, its defaults, the typed
//! readings of its string fields, and the categorisation the watchlist is written
//! back with. Reading and writing the file happens outside the verified core.

use vstd::prelude::*;

use crate::app::{AssetFilter, SortKey};
use crate::data::types::{kind_of_symbol, AssetKind, Timeframe};
use crate::text::{has_prefix, str_eq, starts_with, string_of, chars_of};

verus! {

broadcast use vstd::string::group_string_axioms;

/// The whole configuration file.
#[derive(Debug, Clone)]
pub struct Config {
    pub watchlist: Watchlist,
    pub display: Display,
    pub data: DataCfg,
    pub mcp: Mcp,
}

/// The three watchlist arrays, by asset kind.
#[derive(Debug, Clone)]
pub struct Watchlist {
    pub stocks: Vec<String>,
    pub crypto: Vec<String>,
    pub indices: Vec<String>,
}

/// `[display]`.
#[derive(Debug, Clone)]
pub struct Display {
    pub theme: String,
    pub default_timeframe: String,
    pub default_filter: String,
    pub default_sort: String,
    pub ticker_scroll: bool,
    pub ticker_speed_ms: u64,
}

/// `[data]`.
#[derive(Debug, Clone)]
pub struct DataCfg {
    pub provider: String,
    pub poll_interval_sec: u64,
    pub cache_ttl_sec: u64,
}

/// `[mcp]`.
#[derive(Debug, Clone)]
pub struct Mcp {
    pub enabled: bool,
    pub socket_path: String,
}

impl Default for Watchlist {
    fn default() -> (w: Watchlist)
        ensures
            w.stocks@.len() == 0,
            w.crypto@.len() == 0,
            w.indices@.len() == 0,
    {
        Watchlist { stocks: Vec::new(), crypto: Vec::new(), indices: Vec::new() }
    }
}

impl Default for Display {
    fn default() -> (d: Display)
        ensures
            d.theme@ == "tokyonight"@,
            d.default_timeframe@ == "1M"@,
            d.default_filter@ == "all"@,
            d.default_sort@ == "change_pct"@,
            d.ticker_scroll,
            d.ticker_speed_ms == 140,
    {
        Display {
            theme: "tokyonight".to_string(),
            default_timeframe: "1M".to_string(),
            default_filter: "all".to_string(),
            default_sort: "change_pct".to_string(),
            ticker_scroll: true,
            ticker_speed_ms: 140,
        }
    }
}

impl Default for DataCfg {
    fn default() -> (d: DataCfg)
        ensures
            d.provider@ == "yahoo"@,
            d.poll_interval_sec == 60,
            d.cache_ttl_sec == 30,
    {
        DataCfg { provider: "yahoo".to_string(), poll_interval_sec: 60, cache_ttl_sec: 30 }
    }
}

impl Default for Mcp {
    fn default() -> (m: Mcp)
        ensures
            m.enabled,
            m.socket_path@ == "~/.local/state/quotail/quotail.sock"@,
    {
        Mcp { enabled: true, socket_path: "~/.local/state/quotail/quotail.sock".to_string() }
    }
}

impl Default for Config {
    fn default() -> (c: Config)
        ensures
            c.watchlist.stocks@.len() == 0,
            c.watchlist.crypto@.len() == 0,
            c.watchlist.indices@.len() == 0,
            c.display.theme@ == "tokyonight"@,
            c.display.default_timeframe@ == "1M"@,
            c.display.default_filter@ == "all"@,
            c.display.default_sort@ == "change_pct"@,
            c.display.ticker_scroll,
            c.display.ticker_speed_ms == 140,
            c.data.provider@ == "yahoo"@,
            c.data.poll_interval_sec == 60,
            c.data.cache_ttl_sec == 30,
            c.mcp.enabled,
            c.mcp.socket_path@ == "~/.local/state/quotail/quotail.sock"@,
    {
        Config {
            watchlist: Watchlist::default(),
            display: Display::default(),
            data: DataCfg::default(),
            mcp: Mcp::default(),
        }
    }
}

/// The filter a `default_filter` string selects; unknown strings mean All.
pub open spec fn filter_named(s: Seq<char>) -> AssetFilter {
    if s == "stocks"@ {
        AssetFilter::Stocks
    } else if s == "crypto"@ {
        AssetFilter::Crypto
    } else if s == "indices"@ {
        AssetFilter::Indices
    } else {
        AssetFilter::All
    }
}

/// The sort a `default_sort` string selects; unknown strings mean ChangePct.
pub open spec fn sort_named(s: Seq<char>) -> SortKey {
    if s == "symbol"@ {
        SortKey::Symbol
    } else if s == "price"@ {
        SortKey::Price
    } else if s == "market_cap"@ {
        SortKey::MarketCap
    } else {
        SortKey::ChangePct
    }
}

/// The views of a sequence of strings.
pub open spec fn views(v: Seq<String>) -> Seq<Seq<char>> {
    v.map_values(|s: String| s@)
}

/// The symbols of kind `k`, in their watchlist order.
pub open spec fn of_kind(symbols: Seq<String>, k: AssetKind) -> Seq<String> {
    symbols.filter(|s: String| kind_of_symbol(s@) == k)
}

/// What `Duration::from_secs` returns for a number of seconds.
pub uninterp spec fn duration_of_secs(secs: u64) -> core::time::Duration;

/// `Duration::from_secs`. The contract claims only that the result is
/// `duration_of_secs(secs)`: what a `Duration` holds is opaque here.
#[verifier::external_body]
fn duration_from_secs(secs: u64) -> (d: core::time::Duration)
    ensures
        d == duration_of_secs(secs),
{
    core::time::Duration::from_secs(secs)
}

impl Config {
    /// The full watchlist: stocks, then crypto, then indices — the poll order.
    pub fn watchlist(&self) -> (r: Vec<String>)
        ensures
            r@ == self.watchlist.stocks@ + self.watchlist.crypto@ + self.watchlist.indices@,
    {
        let mut r: Vec<String> = Vec::new();
        append_all(&mut r, &self.watchlist.stocks);
        append_all(&mut r, &self.watchlist.crypto);
        append_all(&mut r, &self.watchlist.indices);
        r
    }

    /// The configured default timeframe; an unparsable value means 1M.
    pub fn default_timeframe(&self) -> (t: Timeframe)
        ensures
            t == (match Timeframe::parse_spec(self.display.default_timeframe@) {
                Some(t) => t,
                None => Timeframe::M1,
            }),
    {
        match Timeframe::parse(self.display.default_timeframe.as_str()) {
            Some(t) => t,
            None => Timeframe::M1,
        }
    }

    /// The configured default filter (`stocks`/`crypto`/`indices`, else All).
    pub fn default_filter(&self) -> (f: AssetFilter)
        ensures
            f == filter_named(self.display.default_filter@),
    {
        let s = self.display.default_filter.as_str();
        if str_eq(s, "stocks") {
            AssetFilter::Stocks
        } else if str_eq(s, "crypto") {
            AssetFilter::Crypto
        } else if str_eq(s, "indices") {
            AssetFilter::Indices
        } else {
            AssetFilter::All
        }
    }

    /// The configured default sort (`symbol`/`price`/`market_cap`, else ChangePct).
    pub fn default_sort(&self) -> (k: SortKey)
        ensures
            k == sort_named(self.display.default_sort@),
    {
        let s = self.display.default_sort.as_str();
        if str_eq(s, "symbol") {
            SortKey::Symbol
        } else if str_eq(s, "price") {
            SortKey::Price
        } else if str_eq(s, "market_cap") {
            SortKey::MarketCap
        } else {
            SortKey::ChangePct
        }
    }

    /// Seconds between polls — never 0, which would busy-loop the poller.
    pub fn poll_interval_secs(&self) -> (s: u64)
        ensures
            s == if self.data.poll_interval_sec >= 1 { self.data.poll_interval_sec } else { 1 },
    {
        if self.data.poll_interval_sec >= 1 {
            self.data.poll_interval_sec
        } else {
            1
        }
    }

    /// The poll interval as a `Duration` of `poll_interval_secs` seconds.
    pub fn poll_interval(&self) -> (d: core::time::Duration)
        ensures
            d == duration_of_secs(
                if self.data.poll_interval_sec >= 1 { self.data.poll_interval_sec } else { 1 },
            ),
    {
        duration_from_secs(self.poll_interval_secs())
    }
}

/// Appends every string of `src` to `dst`.
fn append_all(dst: &mut Vec<String>, src: &Vec<String>)
    ensures
        final(dst)@ == old(dst)@ + src@,
{
    let mut i: usize = 0;
    while i < src.len()
        invariant
            i <= src.len(),
            dst@ == old(dst)@ + src@.take(i as int),
        decreases src.len() - i,
    {
        dst.push(src[i].clone());
        i += 1;
        assert(src@.take(i as int) == src@.take((i - 1) as int).push(src@[i - 1]));
    }
    assert(src@.take(src.len() as int) == src@);
}

/// The part after a leading `~/`, when the path starts with one: the MCP socket
/// path is expanded against the home directory only in that case.
pub fn home_relative(raw: &str) -> (r: Option<String>)
    ensures
        starts_with(raw@, "~/"@) ==> r is Some && r->0@ == raw@.skip(2),
        !starts_with(raw@, "~/"@) ==> r is None,
{
    if has_prefix(raw, "~/") {
        let v = chars_of(raw);
        let mut rest: Vec<char> = Vec::new();
        let mut i: usize = 2;
        proof {
            reveal_strlit("~/");
        }
        while i < v.len()
            invariant
                2 <= i <= v.len(),
                v@ == raw@,
                rest@ == raw@.subrange(2, i as int),
            decreases v.len() - i,
        {
            rest.push(v[i]);
            i += 1;
            assert(raw@.subrange(2, i as int) == raw@.subrange(2, i - 1).push(raw@[i - 1]));
        }
        Some(string_of(&rest))
    } else {
        None
    }
}

/// Splits a flat watchlist into the three per-kind arrays, each keeping the
/// watchlist order — how the watchlist is written back to `config.toml`.
pub fn split_by_kind(symbols: &Vec<String>) -> (w: Watchlist)
    ensures
        w.stocks@ == of_kind(symbols@, AssetKind::Stock),
        w.crypto@ == of_kind(symbols@, AssetKind::Crypto),
        w.indices@ == of_kind(symbols@, AssetKind::Index),
{
    let mut w = Watchlist { stocks: Vec::new(), crypto: Vec::new(), indices: Vec::new() };
    let mut i: usize = 0;
    while i < symbols.len()
        invariant
            i <= symbols.len(),
            w.stocks@ == of_kind(symbols@.take(i as int), AssetKind::Stock),
            w.crypto@ == of_kind(symbols@.take(i as int), AssetKind::Crypto),
            w.indices@ == of_kind(symbols@.take(i as int), AssetKind::Index),
        decreases symbols.len() - i,
    {
        let s = &symbols[i];
        let k = AssetKind::infer(s.as_str());
        proof {
            let pre = symbols@.take(i as int);
            assert(symbols@.take(i + 1) == pre.push(symbols@[i as int]));
            pre.lemma_filter_push(symbols@[i as int], |x: String| kind_of_symbol(x@) == AssetKind::Stock);
            pre.lemma_filter_push(symbols@[i as int], |x: String| kind_of_symbol(x@) == AssetKind::Crypto);
            pre.lemma_filter_push(symbols@[i as int], |x: String| kind_of_symbol(x@) == AssetKind::Index);
        }
        match k {
            AssetKind::Stock => w.stocks.push(s.clone()),
            AssetKind::Crypto => w.crypto.push(s.clone()),
            AssetKind::Index => w.indices.push(s.clone()),
        }
        i += 1;
    }
    assert(symbols@.take(symbols.len() as int) == symbols@);
    w
}

/// Every symbol lands in exactly one of the three arrays: splitting loses nothing
/// and adds nothing.
pub proof fn lemma_split_is_partition(symbols: Seq<String>)
    ensures
        of_kind(symbols, AssetKind::Stock).len() + of_kind(symbols, AssetKind::Crypto).len()
            + of_kind(symbols, AssetKind::Index).len() == symbols.len(),
    decreases symbols.len(),
{
    if symbols.len() > 0 {
        let pre = symbols.drop_last();
        lemma_split_is_partition(pre);
        assert(symbols == pre.push(symbols.last()));
        pre.lemma_filter_push(symbols.last(), |x: String| kind_of_symbol(x@) == AssetKind::Stock);
        pre.lemma_filter_push(symbols.last(), |x: String| kind_of_symbol(x@) == AssetKind::Crypto);
        pre.lemma_filter_push(symbols.last(), |x: String| kind_of_symbol(x@) == AssetKind::Index);
    } else {
        assert(of_kind(symbols, AssetKind::Stock) =~= Seq::<String>::empty());
        assert(of_kind(symbols, AssetKind::Crypto) =~= Seq::<String>::empty());
        assert(of_kind(symbols, AssetKind::Index) =~= Seq::<String>::empty());
    }
}

} // verus!
