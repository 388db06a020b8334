use quotail::app::{AssetFilter, McpListener, SortKey};
use quotail::config::{home_relative, split_by_kind, Config};
use quotail::data::provider::ProviderError;
use quotail::data::store::{quote_plan, serve_from_cache, Cached, QuotePlan, StoreError, QUOTE_TTL_SECS};
use quotail::data::types::{MarketStatus, Timeframe};
use quotail::data::yahoo::{chart_url, crumb_usable, join_symbols, market_status_from, quote_step, QuoteStep, V8_CHART};

#[test]
fn market_state_maps_onto_status() {
    assert_eq!(market_status_from(Some("REGULAR")), MarketStatus::Open);
    assert_eq!(market_status_from(Some("PRE")), MarketStatus::PreMarket);
    assert_eq!(market_status_from(Some("PREPRE")), MarketStatus::PreMarket);
    assert_eq!(market_status_from(Some("POST")), MarketStatus::AfterHours);
    assert_eq!(market_status_from(Some("POSTPOST")), MarketStatus::AfterHours);
    assert_eq!(market_status_from(Some("CLOSED")), MarketStatus::Closed);
    assert_eq!(market_status_from(None), MarketStatus::Closed);
}

#[test]
fn crumb_must_be_nonempty_and_not_html() {
    assert!(crumb_usable("abc.DEF/123"));
    assert!(!crumb_usable(""));
    assert!(!crumb_usable("<html>error</html>"));
}

#[test]
fn a_stale_crumb_is_retried_once() {
    assert_eq!(quote_step(401, 0), QuoteStep::Retry);
    assert_eq!(quote_step(401, 1), QuoteStep::Fail);
    assert_eq!(quote_step(500, 0), QuoteStep::Fail);
    assert_eq!(quote_step(404, 1), QuoteStep::Fail);
    assert_eq!(quote_step(200, 0), QuoteStep::Parse);
    assert_eq!(quote_step(204, 1), QuoteStep::Parse);
}

#[test]
fn batch_request_joins_all_symbols() {
    let v = vec!["AAPL".to_string(), "BTC-USD".to_string(), "^GSPC".to_string()];
    assert_eq!(join_symbols(&v), "AAPL,BTC-USD,^GSPC");
    assert_eq!(join_symbols(&v).split(',').collect::<Vec<_>>(), v);
    assert_eq!(join_symbols(&vec!["NVDA".to_string()]), "NVDA");
    assert_eq!(join_symbols(&vec![]), "");
    assert_eq!(chart_url("AAPL"), format!("{V8_CHART}/AAPL"));
    assert_eq!(chart_url("^GSPC"), "https://query1.finance.yahoo.com/v8/finance/chart/^GSPC");
}

#[test]
fn cache_freshness_follows_the_ttl() {
    let c = Cached { value: 7u32, at_ms: 1_000 };
    let ttl = QUOTE_TTL_SECS * 1000;
    assert!(c.fresh(1_000, ttl));
    assert!(c.fresh(30_999, ttl));
    assert!(!c.fresh(31_000, ttl));
    assert!(c.fresh(500, ttl));
    assert!(!c.fresh(1_000, 0));
}

#[test]
fn quote_batches_hit_the_cache_only_when_all_fresh() {
    assert_eq!(quote_plan(&vec![], false), QuotePlan::Empty);
    assert_eq!(quote_plan(&vec![], true), QuotePlan::Empty);
    assert_eq!(quote_plan(&vec![true, true], false), QuotePlan::Cached);
    assert_eq!(quote_plan(&vec![true, false, true], false), QuotePlan::Fetch);
    assert_eq!(quote_plan(&vec![true, true], true), QuotePlan::Fetch);
    assert!(serve_from_cache(false, Some(true)));
    assert!(!serve_from_cache(true, Some(true)));
    assert!(!serve_from_cache(false, Some(false)));
    assert!(!serve_from_cache(false, None));
}

#[test]
fn config_defaults_and_readings() {
    let mut c = Config::default();
    assert_eq!(c.display.theme, "tokyonight");
    assert_eq!(c.data.poll_interval_sec, 60);
    assert_eq!(c.mcp.socket_path, "~/.local/state/quotail/quotail.sock");
    assert!(c.watchlist().is_empty());
    assert_eq!(c.default_timeframe(), Timeframe::M1);
    assert_eq!(c.default_filter(), AssetFilter::All);
    assert_eq!(c.default_sort(), SortKey::ChangePct);
    c.display.default_timeframe = "YTD".to_string();
    c.display.default_filter = "crypto".to_string();
    c.display.default_sort = "market_cap".to_string();
    assert_eq!(c.default_timeframe(), Timeframe::Ytd);
    assert_eq!(c.default_filter(), AssetFilter::Crypto);
    assert_eq!(c.default_sort(), SortKey::MarketCap);
    c.display.default_timeframe = "3Y".to_string();
    assert_eq!(c.default_timeframe(), Timeframe::M1);
    c.data.poll_interval_sec = 0;
    assert_eq!(c.poll_interval_secs(), 1);
    assert_eq!(c.poll_interval(), std::time::Duration::from_secs(1));
    c.data.poll_interval_sec = 15;
    assert_eq!(c.poll_interval(), std::time::Duration::from_secs(15));
}

#[test]
fn watchlist_polls_stocks_then_crypto_then_indices() {
    let mut c = Config::default();
    c.watchlist.stocks = vec!["AAPL".to_string()];
    c.watchlist.crypto = vec!["BTC-USD".to_string()];
    c.watchlist.indices = vec!["^GSPC".to_string(), "^VIX".to_string()];
    assert_eq!(c.watchlist(), vec!["AAPL", "BTC-USD", "^GSPC", "^VIX"]);
}

#[test]
fn watchlist_split_by_kind_fills_the_three_arrays() {
    let symbols: Vec<String> =
        vec!["AAPL".into(), "TSLA".into(), "BTC-USD".into(), "^GSPC".into()];
    let w = split_by_kind(&symbols);
    assert_eq!(w.stocks, vec!["AAPL", "TSLA"]);
    assert_eq!(w.crypto, vec!["BTC-USD"]);
    assert_eq!(w.indices, vec!["^GSPC"]);
    let mut c = Config::default();
    c.watchlist = w;
    assert_eq!(c.watchlist(), symbols);
}

#[test]
fn socket_path_expands_only_a_leading_tilde() {
    assert_eq!(home_relative("~/.local/state/quotail/quotail.sock"), Some(".local/state/quotail/quotail.sock".to_string()));
    assert_eq!(home_relative("/tmp/q.sock"), None);
    assert_eq!(home_relative("~user/q.sock"), None);
    assert_eq!(home_relative("~/"), Some(String::new()));
}

#[test]
fn degraded_listener_has_a_notice() {
    assert_eq!(McpListener::default(), McpListener::Active);
    assert_eq!(McpListener::Active.notice(), None);
    assert_eq!(McpListener::Disabled.notice(), None);
    assert_eq!(McpListener::OtherInstance.notice(), Some("MCP: inactive (another instance)"));
    assert_eq!(McpListener::Failed.notice(), Some("MCP: inactive (socket error)"));
}

#[test]
fn filter_cycle_visits_every_tab() {
    let f = AssetFilter::All;
    assert_eq!(f.next(), AssetFilter::Stocks);
    assert_eq!(f.next().next(), AssetFilter::Crypto);
    assert_eq!(f.next().next().next(), AssetFilter::Indices);
    assert_eq!(f.next().next().next().next(), AssetFilter::All);
}

#[test]
fn provider_failures_read_plainly() {
    assert_eq!(ProviderError::Network("reset".into()).message(), "network error: reset");
    assert_eq!(ProviderError::Parse("eof".into()).message(), "could not parse response: eof");
    assert_eq!(ProviderError::NotFound("ZZZZ".into()).message(), "symbol not found: ZZZZ");
    assert_eq!(
        ProviderError::RateLimited { provider: "yahoo".into(), retry_after_secs: 30 }.message(),
        "rate limited by yahoo, retry after 30s"
    );
    assert_eq!(
        ProviderError::Unavailable("could not obtain Yahoo crumb".into()).message(),
        "provider unavailable: could not obtain Yahoo crumb"
    );
    assert_eq!(
        StoreError::Provider(ProviderError::NotFound("X".into())).message(),
        "symbol not found: X"
    );
}
