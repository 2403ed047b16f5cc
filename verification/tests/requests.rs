use rustgecko::encode::CallParameters;
use rustgecko::endpoint::{
    coins_history_path, coins_marketchart_path, coins_marketchart_range_path, coins_ohlc_path,
    coins_path, coins_tickers_path, simple_token_price_path, ClientConfig,
};
use rustgecko::date::Date;
use rustgecko::queryparams::{MarketOrder, PriceChange, TrustOrder};
use rustgecko::requests::{
    assetplatforms_query, coins_history_query, coins_list_query, coins_markets_query,
    coins_marketchart_query, coins_marketchart_range_query, coins_ohlc_query, coins_query,
    coins_tickers_query, simple_price_id_query, simple_price_query, simple_token_price_query,
};

fn pairs(p: &CallParameters) -> Vec<(&str, &str)> {
    p.entries.iter().map(|(k, v)| (k.as_str(), v.as_str())).collect()
}

#[test]
fn markets_query_end_to_end() {
    // A market snapshot list ordered by descending market cap, on page 1,
    // with two price-change windows.
    let windows = vec![PriceChange::Days7, PriceChange::Years1];
    let q = coins_markets_query(
        "usd",
        None,
        &MarketOrder::MarketCapDesc,
        Some(&windows),
        true,
        Some(1),
    );
    let got = pairs(&q);
    assert_eq!(
        got,
        vec![
            ("vs_currency", "usd"),
            ("order", "market_cap_desc"),
            ("sparkline", "true"),
            ("page", "1"),
            ("price_change", "7d,1y"),
        ]
    );
    // order comes before page, which comes before price_change.
    let idx = |key: &str| got.iter().position(|(k, _)| *k == key).unwrap();
    assert!(idx("order") < idx("page"));
    assert!(idx("page") < idx("price_change"));
}

#[test]
fn markets_query_absent_options_emit_nothing() {
    let q = coins_markets_query("eur", None, &MarketOrder::IdAsc, None, false, None);
    assert_eq!(
        pairs(&q),
        vec![("vs_currency", "eur"), ("order", "id_asc"), ("sparkline", "false")]
    );
}

#[test]
fn markets_query_present_options_emit_one_pair_each() {
    let ids = vec![String::from("bitcoin"), String::from("ethereum")];
    let q = coins_markets_query("usd", Some(&ids), &MarketOrder::GeckoDesc, None, true, Some(3));
    let got = pairs(&q);
    assert_eq!(got.iter().filter(|(k, _)| *k == "ids").count(), 1);
    assert_eq!(got.iter().filter(|(k, _)| *k == "page").count(), 1);
    assert_eq!(got.iter().filter(|(k, _)| *k == "price_change").count(), 0);
    assert_eq!(got[3], ("ids", "bitcoin,ethereum"));
    assert_eq!(got[4], ("page", "3"));
}

#[test]
fn simple_price_query_layout() {
    let ids = vec![String::from("1032")];
    let vs = vec![String::from("usd"), String::from("eur")];
    let q = simple_price_query(&ids, &vs, true, true, true, true, "max");
    assert_eq!(
        pairs(&q),
        vec![
            ("ids", "1032"),
            ("vs_currencies", "usd,eur"),
            ("include_market_cap", "true"),
            ("include_24hr_change", "true"),
            ("include_24hr_vol", "true"),
            ("include_last_updated_at", "true"),
            ("precision", "max"),
        ]
    );
}

#[test]
fn token_price_query_layout() {
    let vs = vec![String::from("usd"), String::from("eur")];
    let contracts = vec![
        String::from("0x1f9840a85d5af5bf1d1762f925bdaddc4201f984"),
        String::from("0xf629cbd94d3791c9250152bd8dfbdf380e2a3b9c"),
    ];
    let q = simple_token_price_query(&vs, &contracts, true, true, true, true, "full");
    let got = pairs(&q);
    assert_eq!(got[0], ("vs_currencies", "usd,eur"));
    assert_eq!(
        got[6],
        (
            "contract_addresses",
            "0x1f9840a85d5af5bf1d1762f925bdaddc4201f984,0xf629cbd94d3791c9250152bd8dfbdf380e2a3b9c"
        )
    );
}

#[test]
fn coins_query_layout() {
    let q = coins_query(true, false, true, false, true, false);
    assert_eq!(
        pairs(&q),
        vec![
            ("localization", "true"),
            ("tickers", "false"),
            ("market_data", "true"),
            ("community_data", "false"),
            ("developer_data", "true"),
            ("sparkline", "false"),
        ]
    );
}

#[test]
fn coins_list_query_asks_for_platforms() {
    let q = coins_list_query();
    assert_eq!(pairs(&q), vec![("include_platform", "true")]);
}

#[test]
fn tickers_query_layout() {
    let exchanges = vec![String::from("binance"), String::from("kraken")];
    let q = coins_tickers_query(Some(&exchanges), true, 2, &TrustOrder::VolumeDesc);
    assert_eq!(
        pairs(&q),
        vec![
            ("include_exchange_logo", "true"),
            ("page", "2"),
            ("order", "volume_desc"),
            ("exchange_ids", "binance,kraken"),
        ]
    );
}

#[test]
fn history_query_encodes_the_date() {
    let date = Date::new(2022, 10, 1).unwrap();
    let q = coins_history_query(&date, None);
    assert_eq!(pairs(&q), vec![("date", "01-10-2022")]);
    let q = coins_history_query(&date, Some("en"));
    assert_eq!(pairs(&q), vec![("date", "01-10-2022"), ("localization", "en")]);
}

#[test]
fn chart_and_ohlc_queries() {
    let q = coins_marketchart_query("usd", "max", None);
    assert_eq!(pairs(&q), vec![("vs_currency", "usd"), ("days", "max")]);
    let q = coins_marketchart_query("usd", "14", Some("daily"));
    assert_eq!(
        pairs(&q),
        vec![("vs_currency", "usd"), ("days", "14"), ("interval", "daily")]
    );
    let q = coins_marketchart_range_query("eur", "1392577232", "1422577232");
    assert_eq!(
        pairs(&q),
        vec![("vs_currency", "eur"), ("from", "1392577232"), ("to", "1422577232")]
    );
    let q = coins_ohlc_query("usd", "7");
    assert_eq!(pairs(&q), vec![("vs_currency", "usd"), ("days", "7")]);
}

#[test]
fn assetplatforms_query_filter_is_optional() {
    let q = assetplatforms_query(None);
    assert!(q.entries.is_empty());
    let q = assetplatforms_query(Some("nft"));
    assert_eq!(pairs(&q), vec![("filter", "nft")]);
}

#[test]
fn base_location_drops_one_trailing_slash() {
    let cfg = ClientConfig::new(String::from("https://some.url/"));
    assert_eq!(cfg.api_url, "https://some.url");
    assert_eq!(cfg.build_url("/ping"), "https://some.url/ping");
    let cfg = ClientConfig::new(String::from("https://some.url"));
    assert_eq!(cfg.build_url("/coins/markets"), "https://some.url/coins/markets");
}

#[test]
fn endpoint_paths_substitute_the_resource_id() {
    assert_eq!(coins_path("bitcoin"), "/coins/bitcoin");
    assert_eq!(coins_tickers_path("bitcoin"), "/coins/bitcoin/tickers");
    assert_eq!(coins_history_path("tezos"), "/coins/tezos/history");
    assert_eq!(coins_marketchart_path("bitcoin"), "/coins/bitcoin/market_chart");
    assert_eq!(
        coins_marketchart_range_path("bitcoin"),
        "/coins/bitcoin/market_chart/range"
    );
    assert_eq!(coins_ohlc_path("bitcoin"), "/coins/bitcoin/ohlc");
    assert_eq!(simple_token_price_path("ethereum"), "/simple/token_price/ethereum");
}

#[test]
fn contract_scoped_price_query_layout() {
    let ids = vec![String::from("ethereum")];
    let vs = vec![String::from("usd")];
    let contracts = vec![String::from("0xabc"), String::from("0xdef")];
    let q = simple_price_id_query(&ids, &vs, &contracts, false, false, true, false, "2");
    let got = pairs(&q);
    assert_eq!(got[0], ("ids", "ethereum"));
    assert_eq!(got[1], ("contract_addresses", "0xabc,0xdef"));
    assert_eq!(got[2], ("vs_currencies", "usd"));
    assert_eq!(got[3], ("include_market_cap", "false"));
    assert_eq!(got[4], ("include_24hr_change", "true"));
    assert_eq!(got[5], ("include_24hr_vol", "false"));
    assert_eq!(got[7], ("precision", "2"));
}
