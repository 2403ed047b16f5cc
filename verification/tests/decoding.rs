use rustgecko::decode::{req_bool, req_i64, req_string};
use rustgecko::json::JsonValue;
use rustgecko::models::{
    decode_asset_platform, decode_candle, decode_coin_listing, decode_image_item,
    decode_links_item, decode_market, decode_ping, decode_project, decode_status_update_item,
    Candle,
};
use rustgecko::pipeline::{
    asset_platforms_response, coins_list_response, ohlc_response, ping_response,
    price_table_response, process_response, supported_currencies_response, GeckoError,
};

fn text(s: &str) -> JsonValue {
    JsonValue::Text(String::from(s))
}

fn number(s: &str) -> JsonValue {
    JsonValue::Number(String::from(s))
}

fn object(entries: Vec<(&str, JsonValue)>) -> JsonValue {
    JsonValue::Object(entries.into_iter().map(|(k, v)| (String::from(k), v)).collect())
}

#[test]
fn rejected_status_is_reported_without_decoding() {
    // The body is not JSON at all: a rejected status must surface as is,
    // proving the decoder was never consulted.
    let r = process_response(429, String::from("rate limit exceeded -- try later"));
    match r {
        Err(GeckoError::HttpStatus { status, body }) => {
            assert_eq!(status, 429);
            assert_eq!(body, "rate limit exceeded -- try later");
        }
        _ => panic!("a 429 must classify as an http status error"),
    }
}

#[test]
fn rejected_status_range_boundaries() {
    assert!(matches!(
        process_response(400, String::from("x")),
        Err(GeckoError::HttpStatus { status: 400, .. })
    ));
    assert!(matches!(
        process_response(599, String::from("x")),
        Err(GeckoError::HttpStatus { status: 599, .. })
    ));
    assert!(process_response(200, String::from("{}")).is_ok());
    assert!(process_response(399, String::from("{}")).is_ok());
}

#[test]
fn malformed_body_is_a_decode_error() {
    let r = ping_response(200, String::from("{ not json"));
    match r {
        Err(GeckoError::Decode { error }) => {
            assert_eq!(error.expected, "json document");
            assert_eq!(error.found, "malformed text");
        }
        _ => panic!("malformed text must be a decode error"),
    }
}

#[test]
fn ping_decodes_the_greeting() {
    let r = ping_response(200, String::from("{\"gecko_says\":\"(V3) To the Moon!\"}"));
    assert_eq!(r.unwrap().gecko_says, "(V3) To the Moon!");
}

#[test]
fn missing_nested_field_names_its_full_path() {
    // The nested project object lacks its required `name`: the error must
    // identify `project.name`, not report a generic parse failure.
    let update = object(vec![
        ("pin", JsonValue::Bool(false)),
        (
            "project",
            object(vec![
                ("id", text("tezos")),
                ("symbol", text("xtz")),
                ("type", text("coin")),
                ("image", object(vec![])),
            ]),
        ),
    ]);
    let e = decode_status_update_item(&update, "").unwrap_err();
    assert_eq!(e.path, "project.name");
    assert_eq!(e.expected, "string");
    assert_eq!(e.found, "missing");
}

#[test]
fn null_optional_object_field_decodes_as_absent() {
    let listing = object(vec![
        ("id", text("bitcoin")),
        ("symbol", text("btc")),
        ("name", text("Bitcoin")),
        ("platforms", JsonValue::Null),
    ]);
    let c = decode_coin_listing(&listing, "").unwrap();
    assert!(c.platforms.is_none());

    let listing = object(vec![
        ("id", text("bitcoin")),
        ("symbol", text("btc")),
        ("name", text("Bitcoin")),
    ]);
    assert!(decode_coin_listing(&listing, "").unwrap().platforms.is_none());
}

#[test]
fn present_platforms_decode_with_null_addresses_kept_absent() {
    let listing = object(vec![
        ("id", text("uniswap")),
        ("symbol", text("uni")),
        ("name", text("Uniswap")),
        (
            "platforms",
            object(vec![
                ("ethereum", text("0x1f9840a85d5af5bf1d1762f925bdaddc4201f984")),
                ("sora", JsonValue::Null),
            ]),
        ),
    ]);
    let c = decode_coin_listing(&listing, "").unwrap();
    let platforms = c.platforms.unwrap();
    assert_eq!(platforms.len(), 2);
    assert_eq!(platforms[0].0, "ethereum");
    assert_eq!(
        platforms[0].1.as_deref(),
        Some("0x1f9840a85d5af5bf1d1762f925bdaddc4201f984")
    );
    assert_eq!(platforms[1].0, "sora");
    assert!(platforms[1].1.is_none());
}

#[test]
fn wrong_kind_field_reports_expected_and_found() {
    let listing = object(vec![
        ("id", number("7")),
        ("symbol", text("btc")),
        ("name", text("Bitcoin")),
    ]);
    let e = decode_coin_listing(&listing, "").unwrap_err();
    assert_eq!(e.path, "id");
    assert_eq!(e.expected, "string");
    assert_eq!(e.found, "number");

    let e = decode_ping(&text("pong"), "").unwrap_err();
    assert_eq!(e.path, "");
    assert_eq!(e.expected, "object");
    assert_eq!(e.found, "string");
}

#[test]
fn market_and_image_and_project_decode() {
    let market = object(vec![
        ("name", text("Binance")),
        ("identifier", text("binance")),
        ("has_trading_incentive", JsonValue::Bool(false)),
        ("logo", JsonValue::Null),
    ]);
    let m = decode_market(&market, "").unwrap();
    assert_eq!(m.identifier, "binance");
    assert!(m.logo.is_none());

    let image = object(vec![("thumb", text("t.png")), ("large", JsonValue::Null)]);
    let i = decode_image_item(&image, "").unwrap();
    assert_eq!(i.thumb.as_deref(), Some("t.png"));
    assert!(i.small.is_none());
    assert!(i.large.is_none());

    let project = object(vec![
        ("id", text("tezos")),
        ("symbol", text("xtz")),
        ("name", text("Tezos")),
        ("type", text("coin")),
        ("image", object(vec![("small", text("s.png"))])),
    ]);
    let p = decode_project(&project, "").unwrap();
    assert_eq!(p.basic_info.name, "Tezos");
    assert_eq!(p.project_type, "coin");
    assert_eq!(p.image.small.as_deref(), Some("s.png"));
}

#[test]
fn links_item_decodes_and_reports_indexed_paths() {
    let links = object(vec![
        ("homepage", JsonValue::Array(vec![text("https://bitcoin.org"), JsonValue::Null])),
        ("blockchain_site", JsonValue::Array(vec![])),
        ("official_forum_url", JsonValue::Array(vec![])),
        ("chat_url", JsonValue::Array(vec![])),
        ("announcement_url", JsonValue::Array(vec![])),
        ("bitcointalk_thread_identifier", number("41")),
        (
            "repos_url",
            object(vec![
                ("github", JsonValue::Array(vec![text("https://github.com/bitcoin/bitcoin")])),
                ("bitbucket", JsonValue::Array(vec![])),
            ]),
        ),
    ]);
    let l = decode_links_item(&links, "").unwrap();
    assert_eq!(l.homepage.len(), 2);
    assert!(l.homepage[1].is_none());
    assert_eq!(l.bitcointalk_thread_identifier, Some(41));
    assert_eq!(l.repos_url.github.len(), 1);

    let bad = object(vec![(
        "homepage",
        JsonValue::Array(vec![text("ok"), number("3")]),
    )]);
    let e = decode_links_item(&bad, "").unwrap_err();
    assert_eq!(e.path, "homepage[1]");
    assert_eq!(e.expected, "string or null");
    assert_eq!(e.found, "number");
}

#[test]
fn candles_decode_from_five_integer_arrays() {
    let v = JsonValue::Array(vec![
        number("1"),
        number("2"),
        number("3"),
        number("4"),
        number("5"),
    ]);
    assert_eq!(
        decode_candle(&v, "").unwrap(),
        Candle { time: 1, open: 2, high: 3, low: 4, close: 5 }
    );
    let short = JsonValue::Array(vec![number("1")]);
    let e = decode_candle(&short, "").unwrap_err();
    assert_eq!(e.expected, "array of five numbers");

    let fractional = JsonValue::Array(vec![
        number("1"),
        number("2.5"),
        number("3"),
        number("4"),
        number("5"),
    ]);
    let e = decode_candle(&fractional, "").unwrap_err();
    assert_eq!(e.path, "[1]");
    assert_eq!(e.expected, "integer");
    assert_eq!(e.found, "number");
}

#[test]
fn asset_platform_decodes_nullable_chain_identifier() {
    let p = object(vec![
        ("id", text("ethereum")),
        ("chain_identifier", number("1")),
        ("name", text("Ethereum")),
        ("shortname", text("eth")),
    ]);
    let a = decode_asset_platform(&p, "").unwrap();
    assert_eq!(a.chain_identifier, Some(1));

    let p = object(vec![
        ("id", text("solana")),
        ("chain_identifier", JsonValue::Null),
        ("name", text("Solana")),
        ("shortname", text("sol")),
    ]);
    assert!(decode_asset_platform(&p, "").unwrap().chain_identifier.is_none());
}

#[test]
fn full_responses_parse_real_json() {
    // These go through the real parser, so a wrapper that handed its
    // argument back unchanged would fail them.
    let r = supported_currencies_response(200, String::from("[\"usd\",\"eur\"]")).unwrap();
    assert_eq!(r, vec![String::from("usd"), String::from("eur")]);

    let body = "[{\"id\":\"bitcoin\",\"symbol\":\"btc\",\"name\":\"Bitcoin\",\"platforms\":null}]";
    let listings = coins_list_response(200, String::from(body)).unwrap();
    assert_eq!(listings.len(), 1);
    assert_eq!(listings[0].id, "bitcoin");
    assert!(listings[0].platforms.is_none());

    let candles = ohlc_response(200, String::from("[[1,2,3,4,5],[6,7,8,9,10]]")).unwrap();
    assert_eq!(candles.len(), 2);
    assert_eq!(candles[1].close, 10);

    let body = "[{\"id\":\"ethereum\",\"chain_identifier\":1,\"name\":\"Ethereum\",\"shortname\":\"eth\"}]";
    let platforms = asset_platforms_response(200, String::from(body)).unwrap();
    assert_eq!(platforms[0].chain_identifier, Some(1));

    // A field of the wrong kind inside an array names its indexed path.
    let body = "[{\"id\":7,\"symbol\":\"btc\",\"name\":\"Bitcoin\"}]";
    match coins_list_response(200, String::from(body)) {
        Err(GeckoError::Decode { error }) => {
            assert_eq!(error.path, "[0].id");
            assert_eq!(error.expected, "string");
            assert_eq!(error.found, "number");
        }
        _ => panic!("a mismatched element must fail with its indexed path"),
    }
}

#[test]
fn error_descriptions_are_one_line() {
    let e = decode_ping(&text("pong"), "").unwrap_err();
    assert_eq!(e.get_string(), ": expected object, found string");

    let r = process_response(429, String::from("slow down"));
    let msg = r.unwrap_err().get_string();
    assert_eq!(msg, "http status 429: slow down");
}

#[test]
fn required_scalar_field_decoders() {
    let entries = vec![
        (String::from("flag"), JsonValue::Bool(true)),
        (String::from("rank"), number("12")),
        (String::from("label"), text("x")),
    ];
    assert!(req_bool(&entries, "flag", "").unwrap());
    assert_eq!(req_i64(&entries, "rank", "").unwrap(), 12);
    assert_eq!(req_string(&entries, "label", "").unwrap(), "x");
    let e = req_i64(&entries, "label", "").unwrap_err();
    assert_eq!(e.path, "label");
    assert_eq!(e.expected, "integer");
    assert_eq!(e.found, "string");
    let e = req_bool(&entries, "absent", "").unwrap_err();
    assert_eq!(e.found, "missing");
}

#[test]
fn price_table_decodes_quotes_per_asset_and_currency() {
    let body = "{\"bitcoin\":{\"usd\":50000,\"eur\":42000.5},\"ethereum\":{\"usd\":4000}}";
    let table = price_table_response(200, String::from(body)).unwrap();
    assert_eq!(table.len(), 2);
    assert_eq!(table[0].0, "bitcoin");
    assert_eq!(table[0].1[0], (String::from("eur"), String::from("42000.5")));
    assert_eq!(table[0].1[1], (String::from("usd"), String::from("50000")));
    assert_eq!(table[1].0, "ethereum");

    // A non-number quote names its asset and currency in the path.
    let body = "{\"bitcoin\":{\"usd\":\"fifty\"}}";
    match price_table_response(200, String::from(body)) {
        Err(GeckoError::Decode { error }) => {
            assert_eq!(error.path, "bitcoin.usd");
            assert_eq!(error.expected, "number");
            assert_eq!(error.found, "string");
        }
        _ => panic!("a non-number quote must fail with its path"),
    }
}
