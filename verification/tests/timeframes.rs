use quotail::data::types::{AssetKind, DisplaySpan, Timeframe, MA_LONG};

/// The test's own estimate of native bars an (interval, range) pair yields.
fn est_bars(interval: &str, range: &str) -> usize {
    match (interval, range) {
        ("5m", "1d") => 78,
        ("5m", "5d") => 390,
        ("30m", "5d") => 65,
        ("30m", "1mo") => 286,
        ("1d", "1mo") => 21,
        ("1d", "3mo") => 63,
        ("1d", "6mo") => 126,
        ("1d", "1y") => 252,
        ("1d", "2y") => 504,
        ("1wk", "max") => usize::MAX,
        other => panic!("unmodeled (interval, range) = {other:?}"),
    }
}

/// The test's own estimate of native bars in each timeframe's visible span.
fn visible_bars(tf: Timeframe) -> usize {
    match tf {
        Timeframe::D1 => 78,
        Timeframe::D5 => 65,
        Timeframe::M1 => 21,
        Timeframe::M6 => 126,
        Timeframe::Ytd => 252,
        Timeframe::Y1 => 252,
        Timeframe::Max => 0,
    }
}

#[test]
fn fetch_range_covers_warmup_plus_visible_for_every_timeframe() {
    for &tf in &Timeframe::all() {
        let range = tf.fetch_range_param(MA_LONG);
        let fetched = est_bars(tf.interval_param(), range);
        let required = MA_LONG + visible_bars(tf);
        assert!(
            fetched >= required,
            "{tf:?}: range {range:?} yields ~{fetched} bars but needs >= {required}"
        );
    }
}

#[test]
fn d5_is_the_tight_one_margin_is_real() {
    let range = Timeframe::D5.fetch_range_param(MA_LONG);
    assert_eq!(range, "1mo", "D5 range choice changed");
    let fetched = est_bars("30m", range);
    let required = MA_LONG + visible_bars(Timeframe::D5);
    assert!(fetched >= required, "D5 no longer covered: {fetched} < {required}");
    assert!(
        fetched - required <= 40,
        "D5 margin unexpectedly large ({} bars) — is the range wider than needed?",
        fetched - required,
    );
}

#[test]
fn fetch_range_picks_the_smallest_covering_range() {
    // 1M at 1d bars: 21 visible + 0 warmup fits in 1mo; + 42 in 3mo; + 50 needs 6mo;
    // + 200 needs 1y.
    assert_eq!(Timeframe::M1.fetch_range_param(0), "1mo");
    assert_eq!(Timeframe::M1.fetch_range_param(42), "3mo");
    assert_eq!(Timeframe::M1.fetch_range_param(50), "6mo");
    assert_eq!(Timeframe::M1.fetch_range_param(200), "1y");
    // Nothing covers 10_000 daily bars: the widest range is returned.
    assert_eq!(Timeframe::M1.fetch_range_param(10_000), "2y");
    assert_eq!(Timeframe::D1.fetch_range_param(10_000), "5d");
    assert_eq!(Timeframe::Max.fetch_range_param(10_000), "max");
}

#[test]
fn labels_round_trip_through_parse() {
    for &tf in &Timeframe::all() {
        assert_eq!(Timeframe::parse(tf.label()), Some(tf));
    }
    assert_eq!(Timeframe::parse("ytd"), Some(Timeframe::Ytd));
    assert_eq!(Timeframe::parse("1m"), Some(Timeframe::M1));
    assert_eq!(Timeframe::parse("2Y"), None);
    assert_eq!(Timeframe::parse(""), None);
}

#[test]
fn interval_ttl_and_span_per_timeframe() {
    assert_eq!(Timeframe::D1.interval_param(), "5m");
    assert_eq!(Timeframe::D5.interval_param(), "30m");
    assert_eq!(Timeframe::Y1.interval_param(), "1d");
    assert_eq!(Timeframe::Max.interval_param(), "1wk");
    assert_eq!(Timeframe::D5.ttl_secs(), 60);
    assert_eq!(Timeframe::M6.ttl_secs(), 3600);
    assert_eq!(Timeframe::M1.display_span(), DisplaySpan::Last(30 * 86_400));
    assert_eq!(Timeframe::Ytd.display_span(), DisplaySpan::Ytd);
    assert_eq!(Timeframe::Max.display_span(), DisplaySpan::Max);
}

#[test]
fn asset_kind_follows_yahoo_convention() {
    assert_eq!(AssetKind::infer("^GSPC"), AssetKind::Index);
    assert_eq!(AssetKind::infer("BTC-USD"), AssetKind::Crypto);
    assert_eq!(AssetKind::infer("AAPL"), AssetKind::Stock);
    assert_eq!(AssetKind::infer("BRK-B"), AssetKind::Stock);
    assert_eq!(AssetKind::infer("-USD"), AssetKind::Crypto);
    assert_eq!(AssetKind::infer(""), AssetKind::Stock);
}
