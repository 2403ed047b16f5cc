//! Enumerated query-parameter values and their wire tokens.
//!
//! Every enumeration here is closed: its token mapping is total, fixed,
//! and stable, so encoding can never fail at run time.

use vstd::prelude::*;
use vstd::string::*;

verus! {

/// Ordering modes for ticker listings by trust score or volume.
pub enum TrustOrder {
    TrustScoreDesc,
    TrustScoreAsc,
    VolumeDesc,
}

/// The fixed wire token of a trust ordering mode.
pub open spec fn trust_order_token(o: TrustOrder) -> Seq<char> {
    match o {
        TrustOrder::TrustScoreDesc => "trust_score_desc"@,
        TrustOrder::TrustScoreAsc => "trust_score_asc"@,
        TrustOrder::VolumeDesc => "volume_desc"@,
    }
}

impl TrustOrder {
    /// The wire token for this ordering mode.
    pub fn get_string(&self) -> (r: &'static str)
        ensures
            r@ == trust_order_token(*self),
    {
        match self {
            TrustOrder::TrustScoreDesc => "trust_score_desc",
            TrustOrder::TrustScoreAsc => "trust_score_asc",
            TrustOrder::VolumeDesc => "volume_desc",
        }
    }
}

/// Ordering modes for the market snapshot listing.
pub enum MarketOrder {
    MarketCapDesc,
    MarketCapAsc,
    GeckoDesc,
    GeckoAsc,
    VolumeAsc,
    VolumeDesc,
    IdAsc,
    IdDesc,
}

/// The fixed wire token of a market ordering mode: one of the eight
/// documented ordering tokens.
pub open spec fn market_order_token(o: MarketOrder) -> Seq<char> {
    match o {
        MarketOrder::MarketCapDesc => "market_cap_desc"@,
        MarketOrder::MarketCapAsc => "market_cap_asc"@,
        MarketOrder::GeckoDesc => "gecko_desc"@,
        MarketOrder::GeckoAsc => "gecko_asc"@,
        MarketOrder::VolumeAsc => "volume_asc"@,
        MarketOrder::VolumeDesc => "volume_desc"@,
        MarketOrder::IdAsc => "id_asc"@,
        MarketOrder::IdDesc => "id_desc"@,
    }
}

impl MarketOrder {
    /// The wire token for this ordering mode.
    pub fn get_string(&self) -> (r: &'static str)
        ensures
            r@ == market_order_token(*self),
    {
        match self {
            MarketOrder::MarketCapDesc => "market_cap_desc",
            MarketOrder::MarketCapAsc => "market_cap_asc",
            MarketOrder::GeckoDesc => "gecko_desc",
            MarketOrder::GeckoAsc => "gecko_asc",
            MarketOrder::VolumeAsc => "volume_asc",
            MarketOrder::VolumeDesc => "volume_desc",
            MarketOrder::IdAsc => "id_asc",
            MarketOrder::IdDesc => "id_desc",
        }
    }
}

/// Time-window selectors restricting price-change reporting to a fixed
/// horizon.
pub enum PriceChange {
    Hours1,
    Hours24,
    Days7,
    Days14,
    Days30,
    Days200,
    Years1,
}

/// The fixed wire token of a time-window selector: one of the seven
/// documented window tokens.
pub open spec fn price_change_token(w: PriceChange) -> Seq<char> {
    match w {
        PriceChange::Hours1 => "1h"@,
        PriceChange::Hours24 => "24h"@,
        PriceChange::Days7 => "7d"@,
        PriceChange::Days14 => "14d"@,
        PriceChange::Days30 => "30d"@,
        PriceChange::Days200 => "200d"@,
        PriceChange::Years1 => "1y"@,
    }
}

impl PriceChange {
    /// The wire token for this time window.
    pub fn get_string(&self) -> (r: &'static str)
        ensures
            r@ == price_change_token(*self),
    {
        match self {
            PriceChange::Hours1 => "1h",
            PriceChange::Hours24 => "24h",
            PriceChange::Days7 => "7d",
            PriceChange::Days14 => "14d",
            PriceChange::Days30 => "30d",
            PriceChange::Days200 => "200d",
            PriceChange::Years1 => "1y",
        }
    }
}

/// Coin selectors for the public-treasury endpoint.
pub enum CompaniesCoinId {
    Bitcoin,
    Ethereum,
}

/// The fixed wire token of a treasury coin selector.
pub open spec fn companies_coin_id_token(c: CompaniesCoinId) -> Seq<char> {
    match c {
        CompaniesCoinId::Bitcoin => "bitcoin"@,
        CompaniesCoinId::Ethereum => "etherum"@,
    }
}

impl CompaniesCoinId {
    /// The wire token for this coin selector.
    pub fn get_string(&self) -> (r: &'static str)
        ensures
            r@ == companies_coin_id_token(*self),
    {
        match self {
            CompaniesCoinId::Bitcoin => "bitcoin",
            CompaniesCoinId::Ethereum => "etherum",
        }
    }
}

/// Whether a derivatives listing includes all tickers or unexpired ones
/// only.
pub enum DerivativesIncludeTickers {
    All,
    Unexpired,
}

/// The fixed wire token of a derivatives ticker filter.
pub open spec fn derivatives_include_tickers_token(d: DerivativesIncludeTickers) -> Seq<char> {
    match d {
        DerivativesIncludeTickers::All => "all"@,
        DerivativesIncludeTickers::Unexpired => "unexpired"@,
    }
}

impl DerivativesIncludeTickers {
    /// The wire token for this ticker filter.
    pub fn get_string(&self) -> (r: &'static str)
        ensures
            r@ == derivatives_include_tickers_token(*self),
    {
        match self {
            DerivativesIncludeTickers::All => "all",
            DerivativesIncludeTickers::Unexpired => "unexpired",
        }
    }
}

/// Price-change horizons named in full.
pub enum PriceChangePercentage {
    OneHour,
    TwentyFourHours,
    SevenDays,
    FourteenDays,
    ThirtyDays,
    TwoHundredDays,
    OneYear,
}

/// The fixed wire token of a price-change horizon.
pub open spec fn price_change_percentage_token(w: PriceChangePercentage) -> Seq<char> {
    match w {
        PriceChangePercentage::OneHour => "1h"@,
        PriceChangePercentage::TwentyFourHours => "24h"@,
        PriceChangePercentage::SevenDays => "7d"@,
        PriceChangePercentage::FourteenDays => "14d"@,
        PriceChangePercentage::ThirtyDays => "30d"@,
        PriceChangePercentage::TwoHundredDays => "200d"@,
        PriceChangePercentage::OneYear => "1y"@,
    }
}

impl PriceChangePercentage {
    /// The wire token for this horizon.
    pub fn get_string(&self) -> (r: &'static str)
        ensures
            r@ == price_change_percentage_token(*self),
    {
        match self {
            PriceChangePercentage::OneHour => "1h",
            PriceChangePercentage::TwentyFourHours => "24h",
            PriceChangePercentage::SevenDays => "7d",
            PriceChangePercentage::FourteenDays => "14d",
            PriceChangePercentage::ThirtyDays => "30d",
            PriceChangePercentage::TwoHundredDays => "200d",
            PriceChangePercentage::OneYear => "1y",
        }
    }
}

/// Ordering modes for ticker listings.
pub enum TickerOrder {
    TrustScoreAsc,
    TrustScoreDesc,
    VolumeDesc,
}

/// The fixed wire token of a ticker ordering mode.
pub open spec fn ticker_order_token(o: TickerOrder) -> Seq<char> {
    match o {
        TickerOrder::TrustScoreAsc => "trust_score_asc"@,
        TickerOrder::TrustScoreDesc => "trust_score_desc"@,
        TickerOrder::VolumeDesc => "volume_desc"@,
    }
}

impl TickerOrder {
    /// The wire token for this ordering mode.
    pub fn get_string(&self) -> (r: &'static str)
        ensures
            r@ == ticker_order_token(*self),
    {
        match self {
            TickerOrder::TrustScoreAsc => "trust_score_asc",
            TickerOrder::TrustScoreDesc => "trust_score_desc",
            TickerOrder::VolumeDesc => "volume_desc",
        }
    }
}

/// Day ranges accepted by the candle endpoint.
pub enum OhlcDays {
    OneDay,
    SevenDays,
    FourteenDays,
    ThirtyDays,
    NinetyDays,
    OneHundredEightyDays,
    ThreeHundredSixtyFiveDays,
}

/// The fixed wire token of a candle day range.
pub open spec fn ohlc_days_token(d: OhlcDays) -> Seq<char> {
    match d {
        OhlcDays::OneDay => "1"@,
        OhlcDays::SevenDays => "7"@,
        OhlcDays::FourteenDays => "14"@,
        OhlcDays::ThirtyDays => "30"@,
        OhlcDays::NinetyDays => "90"@,
        OhlcDays::OneHundredEightyDays => "180"@,
        OhlcDays::ThreeHundredSixtyFiveDays => "365"@,
    }
}

impl OhlcDays {
    /// The wire token for this day range.
    pub fn get_string(&self) -> (r: &'static str)
        ensures
            r@ == ohlc_days_token(*self),
    {
        match self {
            OhlcDays::OneDay => "1",
            OhlcDays::SevenDays => "7",
            OhlcDays::FourteenDays => "14",
            OhlcDays::ThirtyDays => "30",
            OhlcDays::NinetyDays => "90",
            OhlcDays::OneHundredEightyDays => "180",
            OhlcDays::ThreeHundredSixtyFiveDays => "365",
        }
    }
}

/// Ordering modes for exchange ticker listings by trust score or volume.
pub enum TrustOrders {
    TrustScoreDesc,
    TrustScoreAsc,
    VolumeDesc,
}

/// The fixed wire token of an exchange-ticker trust ordering mode.
pub open spec fn trust_orders_token(o: TrustOrders) -> Seq<char> {
    match o {
        TrustOrders::TrustScoreDesc => "trust_score_desc"@,
        TrustOrders::TrustScoreAsc => "trust_score_asc"@,
        TrustOrders::VolumeDesc => "volume_desc"@,
    }
}

impl TrustOrders {
    /// The wire token for this ordering mode.
    pub fn get_string(&self) -> (r: String)
        ensures
            r@ == trust_orders_token(*self),
    {
        match self {
            TrustOrders::TrustScoreDesc => String::from_str("trust_score_desc"),
            TrustOrders::TrustScoreAsc => String::from_str("trust_score_asc"),
            TrustOrders::VolumeDesc => String::from_str("volume_desc"),
        }
    }
}

/// Token encoding is stable: equal ordering-mode values always carry the
/// same wire token, so re-encoding a value can never change the request.
pub proof fn lemma_market_order_token_stable(a: MarketOrder, b: MarketOrder)
    ensures
        a == b ==> market_order_token(a) == market_order_token(b),
{
}

/// Token encoding is stable for time-window selectors as well.
pub proof fn lemma_price_change_token_stable(a: PriceChange, b: PriceChange)
    ensures
        a == b ==> price_change_token(a) == price_change_token(b),
{
}

} // verus!
