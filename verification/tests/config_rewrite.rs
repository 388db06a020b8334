use quotail::config::Config;
use quotail::config_file::{rewrite_config, rewrite_watchlist};

/// A `config.toml` as a user keeps it: comments, blank lines and every section.
const TEMPLATE: &str = "# Quotail — default configuration.\n\
# Edit freely; the app rewrites only the keys it owns.\n\
\n\
[watchlist]\n\
# Equities, crypto pairs and indices, in display order.\n\
stocks = [\"MSFT\"]\n\
crypto = []\n\
indices = []\n\
\n\
[display]\n\
theme = \"tokyonight\" # the palette\n\
ticker_speed_ms = 140\n\
\n\
[data]\n\
provider = \"yahoo\"\n\
poll_interval_sec = 60\n\
\n\
[mcp]\n\
enabled = true\n";

fn strings(v: &toml::Value) -> Vec<String> {
    v.as_array().unwrap().iter().map(|s| s.as_str().unwrap().to_string()).collect()
}

#[test]
fn persist_updates_arrays_and_keeps_comments() {
    let symbols: Vec<String> = vec!["AAPL".into(), "TSLA".into(), "BTC-USD".into(), "^GSPC".into()];
    let out = rewrite_watchlist(TEMPLATE, &symbols).unwrap();
    let doc: toml::Value = toml::from_str(&out).unwrap();
    assert_eq!(strings(&doc["watchlist"]["stocks"]), vec!["AAPL", "TSLA"]);
    assert_eq!(strings(&doc["watchlist"]["crypto"]), vec!["BTC-USD"]);
    assert_eq!(strings(&doc["watchlist"]["indices"]), vec!["^GSPC"]);
    // Comments and other sections survive the surgical edit.
    assert!(out.contains("# Quotail — default configuration."));
    assert!(out.contains("[mcp]"));
    assert!(out.contains("poll_interval_sec"));
}

#[test]
fn rewrite_leaves_unowned_text_alone() {
    let out = rewrite_watchlist(TEMPLATE, &vec!["AAPL".to_string()]).unwrap();
    assert!(out.contains("# Equities, crypto pairs and indices, in display order."));
    assert!(out.contains("theme = \"tokyonight\" # the palette"));
    // The part of the text after the watchlist is unchanged, byte for byte.
    let tail = &TEMPLATE[TEMPLATE.find("[display]").unwrap()..];
    assert!(out.ends_with(tail));
}

#[test]
fn rewrite_adds_a_missing_table() {
    let out = rewrite_watchlist("", &vec!["NVDA".to_string(), "ETH-USD".to_string()]).unwrap();
    let doc: toml::Value = toml::from_str(&out).unwrap();
    assert_eq!(strings(&doc["watchlist"]["stocks"]), vec!["NVDA"]);
    assert_eq!(strings(&doc["watchlist"]["crypto"]), vec!["ETH-USD"]);
    assert!(strings(&doc["watchlist"]["indices"]).is_empty());
}

#[test]
fn rewrite_refuses_text_that_is_not_toml() {
    assert!(rewrite_watchlist("stocks = [", &vec!["AAPL".to_string()]).is_err());
    assert!(rewrite_config("[display\n", &Config::default(), &vec![]).is_err());
}

#[test]
fn rewrite_refuses_a_section_that_is_not_a_table() {
    assert_eq!(
        rewrite_watchlist("watchlist = 3\n", &vec!["AAPL".to_string()]),
        Err("[watchlist] in config.toml is not a table".to_string())
    );
    assert_eq!(
        rewrite_config("mcp = \"on\"\n", &Config::default(), &vec![]),
        Err("[mcp] in config.toml is not a table".to_string())
    );
}

#[test]
fn rewrite_config_writes_every_setting() {
    let mut c = Config::default();
    c.display.theme = "gruvbox".to_string();
    c.display.ticker_scroll = false;
    c.display.ticker_speed_ms = 90;
    c.data.poll_interval_sec = 300;
    c.mcp.enabled = false;
    c.mcp.socket_path = "~/q.sock".to_string();
    let out = rewrite_config(TEMPLATE, &c, &vec!["^DJI".to_string()]).unwrap();
    let doc: toml::Value = toml::from_str(&out).unwrap();
    assert_eq!(doc["display"]["theme"].as_str(), Some("gruvbox"));
    assert_eq!(doc["display"]["ticker_scroll"].as_bool(), Some(false));
    assert_eq!(doc["display"]["ticker_speed_ms"].as_integer(), Some(90));
    assert_eq!(doc["display"]["default_timeframe"].as_str(), Some(c.display.default_timeframe.as_str()));
    assert_eq!(doc["data"]["provider"].as_str(), Some("yahoo"));
    assert_eq!(doc["data"]["poll_interval_sec"].as_integer(), Some(300));
    assert_eq!(doc["data"]["cache_ttl_sec"].as_integer(), Some(30));
    assert_eq!(doc["mcp"]["enabled"].as_bool(), Some(false));
    assert_eq!(doc["mcp"]["socket_path"].as_str(), Some("~/q.sock"));
    assert_eq!(strings(&doc["watchlist"]["indices"]), vec!["^DJI"]);
    assert!(strings(&doc["watchlist"]["stocks"]).is_empty());
    assert!(out.contains("# Quotail — default configuration."));
}
