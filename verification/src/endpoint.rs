//! Request-target composition.
//!
//! The client configuration stores the base location with its trailing
//! slash normalized away once, at construction; every request path then
//! starts with a separator, and building a target is plain concatenation.

use vstd::prelude::*;
use vstd::string::*;

verus! {

/// A base location with one trailing slash removed, where one was given.
pub open spec fn normalized_base(s: Seq<char>) -> Seq<char> {
    if s.len() >= 1 && s.last() == '/' {
        s.drop_last()
    } else {
        s
    }
}

/// The immutable per-client configuration: the base location every
/// request target starts with. The transport itself lives with the
/// caller; this core only composes targets.
pub struct ClientConfig {
    /// Base location, stored without a trailing slash.
    pub api_url: String,
}

impl ClientConfig {
    /// Builds a configuration, dropping one trailing slash from the base
    /// location when one is given.
    pub fn new(api_url: String) -> (r: ClientConfig)
        ensures
            r.api_url@ == normalized_base(api_url@),
    {
        let n = api_url.as_str().unicode_len();
        if n >= 1 && api_url.as_str().get_char(n - 1) == '/' {
            let trimmed = api_url.as_str().substring_char(0, n - 1).to_owned();
            proof {
                assert(trimmed@ =~= normalized_base(api_url@));
            }
            ClientConfig { api_url: trimmed }
        } else {
            ClientConfig { api_url }
        }
    }

    /// The complete request target for an endpoint path: base location
    /// followed by the path, with no separator inserted or removed. The
    /// path must already start with its own separator; the builder never
    /// adds or deduplicates one.
    pub fn build_url(&self, endpoint: &str) -> (r: String)
        requires
            endpoint@.len() >= 1 && endpoint@[0] == '/',
        ensures
            r@ == self.api_url@ + endpoint@,
    {
        let mut s = self.api_url.clone();
        s.append(endpoint);
        s
    }
}

/// The detail path for one coin.
pub fn coins_path(id: &str) -> (r: String)
    ensures
        r@ == "/coins/"@ + id@,
{
    let mut s = String::from_str("/coins/");
    s.append(id);
    s
}

/// The ticker-listing path for one coin.
pub fn coins_tickers_path(id: &str) -> (r: String)
    ensures
        r@ == "/coins/"@ + id@ + "/tickers"@,
{
    let mut s = coins_path(id);
    s.append("/tickers");
    s
}

/// The historical-snapshot path for one coin.
pub fn coins_history_path(id: &str) -> (r: String)
    ensures
        r@ == "/coins/"@ + id@ + "/history"@,
{
    let mut s = coins_path(id);
    s.append("/history");
    s
}

/// The market-chart path for one coin.
pub fn coins_marketchart_path(id: &str) -> (r: String)
    ensures
        r@ == "/coins/"@ + id@ + "/market_chart"@,
{
    let mut s = coins_path(id);
    s.append("/market_chart");
    s
}

/// The ranged market-chart path for one coin.
pub fn coins_marketchart_range_path(id: &str) -> (r: String)
    ensures
        r@ == "/coins/"@ + id@ + "/market_chart/range"@,
{
    let mut s = coins_path(id);
    s.append("/market_chart/range");
    s
}

/// The candle path for one coin.
pub fn coins_ohlc_path(id: &str) -> (r: String)
    ensures
        r@ == "/coins/"@ + id@ + "/ohlc"@,
{
    let mut s = coins_path(id);
    s.append("/ohlc");
    s
}

/// The token-price path for one platform.
pub fn simple_token_price_path(id: &str) -> (r: String)
    ensures
        r@ == "/simple/token_price/"@ + id@,
{
    let mut s = String::from_str("/simple/token_price/");
    s.append(id);
    s
}

} // verus!
