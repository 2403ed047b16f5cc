use rustgecko::date::Date;
use rustgecko::digits::{parse_i64, parse_u64, render_i64, render_u64};
use rustgecko::encode::{join_comma, render_bool};
use rustgecko::queryparams::{
    CompaniesCoinId, DerivativesIncludeTickers, MarketOrder, OhlcDays, PriceChange,
    PriceChangePercentage, TickerOrder, TrustOrder, TrustOrders,
};

#[test]
fn market_order_tokens_are_fixed() {
    assert_eq!(MarketOrder::MarketCapDesc.get_string(), "market_cap_desc");
    assert_eq!(MarketOrder::MarketCapAsc.get_string(), "market_cap_asc");
    assert_eq!(MarketOrder::GeckoDesc.get_string(), "gecko_desc");
    assert_eq!(MarketOrder::GeckoAsc.get_string(), "gecko_asc");
    assert_eq!(MarketOrder::VolumeAsc.get_string(), "volume_asc");
    assert_eq!(MarketOrder::VolumeDesc.get_string(), "volume_desc");
    assert_eq!(MarketOrder::IdAsc.get_string(), "id_asc");
    assert_eq!(MarketOrder::IdDesc.get_string(), "id_desc");
}

#[test]
fn market_order_reencoding_is_stable() {
    let first = MarketOrder::VolumeAsc.get_string();
    let second = MarketOrder::VolumeAsc.get_string();
    assert_eq!(first, second);
}

#[test]
fn price_change_tokens_are_fixed() {
    assert_eq!(PriceChange::Hours1.get_string(), "1h");
    assert_eq!(PriceChange::Hours24.get_string(), "24h");
    assert_eq!(PriceChange::Days7.get_string(), "7d");
    assert_eq!(PriceChange::Days14.get_string(), "14d");
    assert_eq!(PriceChange::Days30.get_string(), "30d");
    assert_eq!(PriceChange::Days200.get_string(), "200d");
    assert_eq!(PriceChange::Years1.get_string(), "1y");
}

#[test]
fn other_enum_tokens_are_fixed() {
    assert_eq!(TrustOrder::TrustScoreDesc.get_string(), "trust_score_desc");
    assert_eq!(TrustOrder::TrustScoreAsc.get_string(), "trust_score_asc");
    assert_eq!(TrustOrder::VolumeDesc.get_string(), "volume_desc");
    assert_eq!(TrustOrders::TrustScoreDesc.get_string(), "trust_score_desc");
    assert_eq!(TickerOrder::TrustScoreAsc.get_string(), "trust_score_asc");
    assert_eq!(CompaniesCoinId::Bitcoin.get_string(), "bitcoin");
    assert_eq!(CompaniesCoinId::Ethereum.get_string(), "etherum");
    assert_eq!(DerivativesIncludeTickers::All.get_string(), "all");
    assert_eq!(DerivativesIncludeTickers::Unexpired.get_string(), "unexpired");
    assert_eq!(PriceChangePercentage::OneHour.get_string(), "1h");
    assert_eq!(PriceChangePercentage::OneYear.get_string(), "1y");
    assert_eq!(OhlcDays::OneDay.get_string(), "1");
    assert_eq!(OhlcDays::ThreeHundredSixtyFiveDays.get_string(), "365");
}

#[test]
fn bool_tokens() {
    assert_eq!(render_bool(true), "true");
    assert_eq!(render_bool(false), "false");
}

#[test]
fn join_uses_one_comma_between_neighbours() {
    let three = vec![
        String::from("bitcoin"),
        String::from("ethereum"),
        String::from("tezos"),
    ];
    let joined = join_comma(&three);
    assert_eq!(joined, "bitcoin,ethereum,tezos");
    // N values carry exactly N - 1 separators, none at either end.
    assert_eq!(joined.matches(',').count(), 2);
    assert!(!joined.starts_with(','));
    assert!(!joined.ends_with(','));
}

#[test]
fn join_of_one_value_has_no_separator() {
    let one = vec![String::from("usd")];
    assert_eq!(join_comma(&one), "usd");
    let none: Vec<String> = vec![];
    assert_eq!(join_comma(&none), "");
}

#[test]
fn decimal_rendering_has_no_leading_zeros() {
    assert_eq!(render_u64(0), "0");
    assert_eq!(render_u64(7), "7");
    assert_eq!(render_u64(1000), "1000");
    assert_eq!(render_u64(u64::MAX), "18446744073709551615");
    assert_eq!(render_i64(1), "1");
    assert_eq!(render_i64(-42), "-42");
    assert_eq!(render_i64(i64::MIN), "-9223372036854775808");
}

#[test]
fn numeral_parsing_round_trips() {
    assert_eq!(parse_u64("123"), Some(123));
    assert_eq!(parse_u64("0"), Some(0));
    assert_eq!(parse_u64(""), None);
    assert_eq!(parse_u64("12.5"), None);
    assert_eq!(parse_u64("18446744073709551615"), Some(u64::MAX));
    assert_eq!(parse_u64("18446744073709551616"), None);
    assert_eq!(parse_i64("-42"), Some(-42));
    assert_eq!(parse_i64("-9223372036854775808"), Some(i64::MIN));
    assert_eq!(parse_i64("-9223372036854775809"), None);
    assert_eq!(parse_i64("9223372036854775807"), Some(i64::MAX));
    assert_eq!(parse_i64("9223372036854775808"), None);
    assert_eq!(parse_i64("-"), None);
    assert_eq!(parse_i64("+5"), None);
}

#[test]
fn date_encodes_day_month_year_zero_padded() {
    let d = Date::new(2022, 10, 1).unwrap();
    assert_eq!(d.get_string(), "01-10-2022");
    let d = Date::new(2017, 12, 30).unwrap();
    assert_eq!(d.get_string(), "30-12-2017");
}

#[test]
fn date_validity_follows_the_calendar() {
    assert!(Date::new(2021, 2, 29).is_none());
    assert!(Date::new(2020, 2, 29).is_some());
    assert!(Date::new(1900, 2, 29).is_none());
    assert!(Date::new(2000, 2, 29).is_some());
    assert!(Date::new(2022, 4, 31).is_none());
    assert!(Date::new(2022, 0, 1).is_none());
    assert!(Date::new(2022, 13, 1).is_none());
    assert!(Date::new(0, 1, 1).is_none());
}
