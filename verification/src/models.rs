//! Response data models and their schema decoders.
//!
//! Each model is decoded from the plain JSON document model against its
//! target schema; a mismatch names the exact field path that failed.
//! Fields whose upstream type is unstable stay optional, and a JSON
//! null on an optional field decodes as absence.

use crate::collections::{
    nullable_string_entries, nullable_string_list, number_entries, spec_nullable_string_entries,
    spec_nullable_string_list, spec_number_entries, spec_string_entries, string_entries,
};
use crate::decode::{
    field_err, make_field_err, make_shape_err, opt_i64, opt_string, opt_view, path_field,
    path_index, req_bool, req_string, res_view, seq_view, shape_err, spec_opt_i64,
    spec_opt_string, spec_req_bool, spec_req_string, DecodeError, DecodeErrorV, child_field,
    child_index, number_i64,
};
use crate::digits::parse_i64;
use crate::json::{find_field, kind_name, kind_token, lookup_entries, JsonValue};
use vstd::prelude::*;
use vstd::string::*;

verus! {

/// The server's liveness greeting.
#[derive(Debug, Clone, PartialEq)]
pub struct Ping {
    /// The greeting text.
    pub gecko_says: String,
}

/// The mathematical content of a `Ping`.
#[verifier::ext_equal]
pub ghost struct PingV {
    /// The greeting text.
    pub gecko_says: Seq<char>,
}

impl View for Ping {
    type V = PingV;

    open spec fn view(&self) -> PingV {
        PingV { gecko_says: self.gecko_says@ }
    }
}

/// What decoding a liveness greeting yields: an object with a required
/// string field `gecko_says`, or the precise failure.
pub open spec fn spec_ping(v: JsonValue, path: Seq<char>) -> Result<PingV, DecodeErrorV> {
    match v {
        JsonValue::Object(es) => match spec_req_string(es@, "gecko_says"@, path) {
            Ok(s) => Ok(PingV { gecko_says: s }),
            Err(e) => Err(e),
        },
        _ => Err(shape_err(path, "object"@, v)),
    }
}

/// Decodes a liveness greeting.
pub fn decode_ping(v: &JsonValue, path: &str) -> (r: Result<Ping, DecodeError>)
    ensures
        res_view(r) == spec_ping(*v, path@),
{
    match v {
        JsonValue::Object(es) => match req_string(es, "gecko_says", path) {
            Ok(s) => Ok(Ping { gecko_says: s }),
            Err(e) => Err(e),
        },
        _ => Err(make_shape_err(path, "object", v)),
    }
}

/// The identifying core carried by several coin-shaped responses.
#[derive(Debug, Clone, PartialEq)]
pub struct BasicCoinInfo {
    /// Unique API identifier.
    pub id: String,
    /// Lowercase trading symbol.
    pub symbol: String,
    /// Human-readable name.
    pub name: String,
}

/// The mathematical content of a `BasicCoinInfo`.
#[verifier::ext_equal]
pub ghost struct BasicCoinInfoV {
    /// Unique API identifier.
    pub id: Seq<char>,
    /// Lowercase trading symbol.
    pub symbol: Seq<char>,
    /// Human-readable name.
    pub name: Seq<char>,
}

impl View for BasicCoinInfo {
    type V = BasicCoinInfoV;

    open spec fn view(&self) -> BasicCoinInfoV {
        BasicCoinInfoV { id: self.id@, symbol: self.symbol@, name: self.name@ }
    }
}

/// What decoding the identifying core from an object's entries yields:
/// the three required string fields `id`, `symbol` and `name`, checked
/// in that order.
pub open spec fn spec_basic_coin_info(es: Seq<(String, JsonValue)>, path: Seq<char>) -> Result<
    BasicCoinInfoV,
    DecodeErrorV,
> {
    match spec_req_string(es, "id"@, path) {
        Err(e) => Err(e),
        Ok(id) => match spec_req_string(es, "symbol"@, path) {
            Err(e) => Err(e),
            Ok(symbol) => match spec_req_string(es, "name"@, path) {
                Err(e) => Err(e),
                Ok(name) => Ok(BasicCoinInfoV { id, symbol, name }),
            },
        },
    }
}

/// Decodes the identifying core from an object's entries (the upstream
/// schema flattens these fields into the surrounding object).
pub fn decode_basic_coin_info(es: &Vec<(String, JsonValue)>, path: &str) -> (r: Result<
    BasicCoinInfo,
    DecodeError,
>)
    ensures
        res_view(r) == spec_basic_coin_info(es@, path@),
{
    let id = match req_string(es, "id", path) {
        Ok(s) => s,
        Err(e) => {
            return Err(e);
        },
    };
    let symbol = match req_string(es, "symbol", path) {
        Ok(s) => s,
        Err(e) => {
            return Err(e);
        },
    };
    let name = match req_string(es, "name", path) {
        Ok(s) => s,
        Err(e) => {
            return Err(e);
        },
    };
    Ok(BasicCoinInfo { id, symbol, name })
}

/// Icon locations at the three served sizes; each may be absent.
#[derive(Debug, Clone, PartialEq)]
pub struct ImageItem {
    /// Thumbnail-size location.
    pub thumb: Option<String>,
    /// Small-size location.
    pub small: Option<String>,
    /// Large-size location.
    pub large: Option<String>,
}

/// The mathematical content of an `ImageItem`.
#[verifier::ext_equal]
pub ghost struct ImageItemV {
    /// Thumbnail-size location.
    pub thumb: Option<Seq<char>>,
    /// Small-size location.
    pub small: Option<Seq<char>>,
    /// Large-size location.
    pub large: Option<Seq<char>>,
}

impl View for ImageItem {
    type V = ImageItemV;

    open spec fn view(&self) -> ImageItemV {
        ImageItemV { thumb: opt_view(self.thumb), small: opt_view(self.small), large: opt_view(self.large) }
    }
}

/// What decoding an icon set yields: an object with three optional
/// string fields, where null means absent.
pub open spec fn spec_image_item(v: JsonValue, path: Seq<char>) -> Result<
    ImageItemV,
    DecodeErrorV,
> {
    match v {
        JsonValue::Object(es) => match spec_opt_string(es@, "thumb"@, path) {
            Err(e) => Err(e),
            Ok(thumb) => match spec_opt_string(es@, "small"@, path) {
                Err(e) => Err(e),
                Ok(small) => match spec_opt_string(es@, "large"@, path) {
                    Err(e) => Err(e),
                    Ok(large) => Ok(ImageItemV { thumb, small, large }),
                },
            },
        },
        _ => Err(shape_err(path, "object"@, v)),
    }
}

/// Decodes an icon set.
pub fn decode_image_item(v: &JsonValue, path: &str) -> (r: Result<ImageItem, DecodeError>)
    ensures
        res_view(r) == spec_image_item(*v, path@),
{
    match v {
        JsonValue::Object(es) => {
            let thumb = match opt_string(es, "thumb", path) {
                Ok(s) => s,
                Err(e) => {
                    return Err(e);
                },
            };
            let small = match opt_string(es, "small", path) {
                Ok(s) => s,
                Err(e) => {
                    return Err(e);
                },
            };
            let large = match opt_string(es, "large", path) {
                Ok(s) => s,
                Err(e) => {
                    return Err(e);
                },
            };
            Ok(ImageItem { thumb, small, large })
        },
        _ => Err(make_shape_err(path, "object", v)),
    }
}

/// The venue a ticker was observed on.
#[derive(Debug, Clone, PartialEq)]
pub struct Market {
    /// Venue name.
    pub name: String,
    /// Venue identifier.
    pub identifier: String,
    /// Whether the venue runs trading incentives.
    pub has_trading_incentive: bool,
    /// Venue logo location, when served.
    pub logo: Option<String>,
}

/// The mathematical content of a `Market`.
#[verifier::ext_equal]
pub ghost struct MarketV {
    /// Venue name.
    pub name: Seq<char>,
    /// Venue identifier.
    pub identifier: Seq<char>,
    /// Whether the venue runs trading incentives.
    pub has_trading_incentive: bool,
    /// Venue logo location, when served.
    pub logo: Option<Seq<char>>,
}

impl View for Market {
    type V = MarketV;

    open spec fn view(&self) -> MarketV {
        MarketV {
            name: self.name@,
            identifier: self.identifier@,
            has_trading_incentive: self.has_trading_incentive,
            logo: opt_view(self.logo),
        }
    }
}

/// What decoding a venue yields: required `name`, `identifier` and
/// `has_trading_incentive`, and an optional `logo`.
pub open spec fn spec_market(v: JsonValue, path: Seq<char>) -> Result<MarketV, DecodeErrorV> {
    match v {
        JsonValue::Object(es) => match spec_req_string(es@, "name"@, path) {
            Err(e) => Err(e),
            Ok(name) => match spec_req_string(es@, "identifier"@, path) {
                Err(e) => Err(e),
                Ok(identifier) => match spec_req_bool(es@, "has_trading_incentive"@, path) {
                    Err(e) => Err(e),
                    Ok(hti) => match spec_opt_string(es@, "logo"@, path) {
                        Err(e) => Err(e),
                        Ok(logo) => Ok(
                            MarketV { name, identifier, has_trading_incentive: hti, logo },
                        ),
                    },
                },
            },
        },
        _ => Err(shape_err(path, "object"@, v)),
    }
}

/// Decodes a venue.
pub fn decode_market(v: &JsonValue, path: &str) -> (r: Result<Market, DecodeError>)
    ensures
        res_view(r) == spec_market(*v, path@),
{
    match v {
        JsonValue::Object(es) => {
            let name = match req_string(es, "name", path) {
                Ok(s) => s,
                Err(e) => {
                    return Err(e);
                },
            };
            let identifier = match req_string(es, "identifier", path) {
                Ok(s) => s,
                Err(e) => {
                    return Err(e);
                },
            };
            let has_trading_incentive = match req_bool(es, "has_trading_incentive", path) {
                Ok(b) => b,
                Err(e) => {
                    return Err(e);
                },
            };
            let logo = match opt_string(es, "logo", path) {
                Ok(s) => s,
                Err(e) => {
                    return Err(e);
                },
            };
            Ok(Market { name, identifier, has_trading_incentive, logo })
        },
        _ => Err(make_shape_err(path, "object", v)),
    }
}

/// One entry of the coin catalogue. The symbol is served in lowercase.
#[derive(Debug, Clone, PartialEq, Eq)]
pub struct CoinListing {
    /// Unique API identifier.
    pub id: String,
    /// Lowercase trading symbol.
    pub symbol: String,
    /// Human-readable name.
    pub name: String,
    /// Contract platforms and their nullable addresses; absent when the
    /// listing carries none.
    pub platforms: Option<Vec<(String, Option<String>)>>,
}

/// The mathematical content of a `CoinListing`.
#[verifier::ext_equal]
pub ghost struct CoinListingV {
    /// Unique API identifier.
    pub id: Seq<char>,
    /// Lowercase trading symbol.
    pub symbol: Seq<char>,
    /// Human-readable name.
    pub name: Seq<char>,
    /// Contract platforms and their nullable addresses.
    pub platforms: Option<Seq<(Seq<char>, Option<Seq<char>>)>>,
}

impl View for CoinListing {
    type V = CoinListingV;

    open spec fn view(&self) -> CoinListingV {
        CoinListingV {
            id: self.id@,
            symbol: self.symbol@,
            name: self.name@,
            platforms: match self.platforms {
                Some(ref m) => Some(m.deep_view()),
                None => None,
            },
        }
    }
}

/// What decoding a catalogue entry yields: the three required string
/// fields, then an optional `platforms` object of nullable strings; a
/// `platforms` served as JSON null decodes as absent.
pub open spec fn spec_coin_listing(v: JsonValue, path: Seq<char>) -> Result<
    CoinListingV,
    DecodeErrorV,
> {
    match v {
        JsonValue::Object(es) => match spec_basic_coin_info(es@, path) {
            Err(e) => Err(e),
            Ok(basic) => match lookup_entries(es@, "platforms"@) {
                None => Ok(
                    CoinListingV { id: basic.id, symbol: basic.symbol, name: basic.name, platforms: None },
                ),
                Some(JsonValue::Null) => Ok(
                    CoinListingV { id: basic.id, symbol: basic.symbol, name: basic.name, platforms: None },
                ),
                Some(JsonValue::Object(pes)) => match spec_nullable_string_entries(
                    pes@,
                    path_field(path, "platforms"@),
                ) {
                    Err(e) => Err(e),
                    Ok(m) => Ok(
                        CoinListingV {
                            id: basic.id,
                            symbol: basic.symbol,
                            name: basic.name,
                            platforms: Some(m),
                        },
                    ),
                },
                o => Err(field_err(path, "platforms"@, "object or null"@, o)),
            },
        },
        _ => Err(shape_err(path, "object"@, v)),
    }
}

/// Decodes a catalogue entry.
pub fn decode_coin_listing(v: &JsonValue, path: &str) -> (r: Result<CoinListing, DecodeError>)
    ensures
        res_view(r) == spec_coin_listing(*v, path@),
{
    match v {
        JsonValue::Object(es) => {
            let basic = match decode_basic_coin_info(es, path) {
                Ok(b) => b,
                Err(e) => {
                    return Err(e);
                },
            };
            let platforms = match find_field(es, "platforms") {
                None => None,
                Some(JsonValue::Null) => None,
                Some(JsonValue::Object(pes)) => {
                    let child = child_field(path, "platforms");
                    match nullable_string_entries(pes, child.as_str()) {
                        Ok(m) => Some(m),
                        Err(e) => {
                            return Err(e);
                        },
                    }
                },
                o => {
                    return Err(make_field_err(path, "platforms", "object or null", o));
                },
            };
            Ok(CoinListing { id: basic.id, symbol: basic.symbol, name: basic.name, platforms })
        },
        _ => Err(make_shape_err(path, "object", v)),
    }
}

/// One candle: timestamp, then open, high, low and close quotes.
#[derive(Debug, Clone, Copy, PartialEq, Eq, Structural)]
pub struct Candle {
    /// Unix timestamp in milliseconds.
    pub time: i64,
    /// Opening quote.
    pub open: i64,
    /// Highest quote.
    pub high: i64,
    /// Lowest quote.
    pub low: i64,
    /// Closing quote.
    pub close: i64,
}

/// What the array element at `i` yields as an integer: the number's
/// value exactly when it is a JSON number with an integer numeral in
/// range.
pub open spec fn spec_elem_i64(a: Seq<JsonValue>, i: int, path: Seq<char>) -> Result<
    int,
    DecodeErrorV,
> {
    match a[i] {
        JsonValue::Number(s) => match number_i64(s@) {
            Some(x) => Ok(x),
            None => Err(
                DecodeErrorV {
                    path: path_index(path, i as nat),
                    expected: "integer"@,
                    found: "number"@,
                },
            ),
        },
        w => Err(
            DecodeErrorV {
                path: path_index(path, i as nat),
                expected: "integer"@,
                found: kind_name(w),
            },
        ),
    }
}

fn array_elem_i64(a: &Vec<JsonValue>, i: usize, path: &str) -> (r: Result<i64, DecodeError>)
    requires
        i < a@.len(),
    ensures
        r matches Ok(x) ==> spec_elem_i64(a@, i as int, path@) == Ok::<int, DecodeErrorV>(x as int),
        r matches Err(e) ==> spec_elem_i64(a@, i as int, path@) == Err::<int, DecodeErrorV>(e@),
{
    match &a[i] {
        JsonValue::Number(s) => {
            match parse_i64(s.as_str()) {
                Some(x) => Ok(x),
                None => Err(
                    DecodeError {
                        path: child_index(path, i),
                        expected: String::from_str("integer"),
                        found: String::from_str("number"),
                    },
                ),
            }
        },
        w => Err(
            DecodeError {
                path: child_index(path, i),
                expected: String::from_str("integer"),
                found: kind_token(w).to_owned(),
            },
        ),
    }
}

/// What decoding a candle yields: an array of exactly five integer
/// numbers, read in order as time, open, high, low and close.
pub open spec fn spec_candle(v: JsonValue, path: Seq<char>) -> Result<Candle, DecodeErrorV> {
    match v {
        JsonValue::Array(a) => if a@.len() != 5 {
            Err(shape_err(path, "array of five numbers"@, v))
        } else {
            match spec_elem_i64(a@, 0, path) {
                Err(e) => Err(e),
                Ok(time) => match spec_elem_i64(a@, 1, path) {
                    Err(e) => Err(e),
                    Ok(open_q) => match spec_elem_i64(a@, 2, path) {
                        Err(e) => Err(e),
                        Ok(high) => match spec_elem_i64(a@, 3, path) {
                            Err(e) => Err(e),
                            Ok(low) => match spec_elem_i64(a@, 4, path) {
                                Err(e) => Err(e),
                                Ok(close) => Ok(
                                    Candle {
                                        time: time as i64,
                                        open: open_q as i64,
                                        high: high as i64,
                                        low: low as i64,
                                        close: close as i64,
                                    },
                                ),
                            },
                        },
                    },
                },
            }
        },
        _ => Err(shape_err(path, "array of five numbers"@, v)),
    }
}

/// Decodes a candle.
pub fn decode_candle(v: &JsonValue, path: &str) -> (r: Result<Candle, DecodeError>)
    ensures
        r matches Ok(c) ==> spec_candle(*v, path@) == Ok::<Candle, DecodeErrorV>(c),
        r matches Err(e) ==> spec_candle(*v, path@) == Err::<Candle, DecodeErrorV>(e@),
{
    match v {
        JsonValue::Array(a) => {
            if a.len() != 5 {
                return Err(make_shape_err(path, "array of five numbers", v));
            }
            let time = match array_elem_i64(a, 0, path) {
                Ok(x) => x,
                Err(e) => {
                    return Err(e);
                },
            };
            let open = match array_elem_i64(a, 1, path) {
                Ok(x) => x,
                Err(e) => {
                    return Err(e);
                },
            };
            let high = match array_elem_i64(a, 2, path) {
                Ok(x) => x,
                Err(e) => {
                    return Err(e);
                },
            };
            let low = match array_elem_i64(a, 3, path) {
                Ok(x) => x,
                Err(e) => {
                    return Err(e);
                },
            };
            let close = match array_elem_i64(a, 4, path) {
                Ok(x) => x,
                Err(e) => {
                    return Err(e);
                },
            };
            Ok(Candle { time, open, high, low, close })
        },
        _ => Err(make_shape_err(path, "array of five numbers", v)),
    }
}

/// One asset platform (a contract chain).
#[derive(Debug, Clone, PartialEq, Eq)]
pub struct AssetPlatform {
    /// Unique API identifier.
    pub id: String,
    /// Numeric chain identifier, where the platform has one.
    pub chain_identifier: Option<i64>,
    /// Human-readable name.
    pub name: String,
    /// Short display name.
    pub shortname: String,
}

/// The mathematical content of an `AssetPlatform`.
#[verifier::ext_equal]
pub ghost struct AssetPlatformV {
    /// Unique API identifier.
    pub id: Seq<char>,
    /// Numeric chain identifier, where the platform has one.
    pub chain_identifier: Option<int>,
    /// Human-readable name.
    pub name: Seq<char>,
    /// Short display name.
    pub shortname: Seq<char>,
}

impl View for AssetPlatform {
    type V = AssetPlatformV;

    open spec fn view(&self) -> AssetPlatformV {
        AssetPlatformV {
            id: self.id@,
            chain_identifier: match self.chain_identifier {
                Some(x) => Some(x as int),
                None => None,
            },
            name: self.name@,
            shortname: self.shortname@,
        }
    }
}

/// What decoding an asset platform yields: required `id`, `name` and
/// `shortname` strings and an optional integer `chain_identifier`.
pub open spec fn spec_asset_platform(v: JsonValue, path: Seq<char>) -> Result<
    AssetPlatformV,
    DecodeErrorV,
> {
    match v {
        JsonValue::Object(es) => match spec_req_string(es@, "id"@, path) {
            Err(e) => Err(e),
            Ok(id) => match spec_opt_i64(es@, "chain_identifier"@, path) {
                Err(e) => Err(e),
                Ok(chain) => match spec_req_string(es@, "name"@, path) {
                    Err(e) => Err(e),
                    Ok(name) => match spec_req_string(es@, "shortname"@, path) {
                        Err(e) => Err(e),
                        Ok(shortname) => Ok(
                            AssetPlatformV { id, chain_identifier: chain, name, shortname },
                        ),
                    },
                },
            },
        },
        _ => Err(shape_err(path, "object"@, v)),
    }
}

/// Decodes an asset platform.
pub fn decode_asset_platform(v: &JsonValue, path: &str) -> (r: Result<AssetPlatform, DecodeError>)
    ensures
        res_view(r) == spec_asset_platform(*v, path@),
{
    match v {
        JsonValue::Object(es) => {
            let id = match req_string(es, "id", path) {
                Ok(s) => s,
                Err(e) => {
                    return Err(e);
                },
            };
            let chain_identifier = match opt_i64(es, "chain_identifier", path) {
                Ok(x) => x,
                Err(e) => {
                    return Err(e);
                },
            };
            let name = match req_string(es, "name", path) {
                Ok(s) => s,
                Err(e) => {
                    return Err(e);
                },
            };
            let shortname = match req_string(es, "shortname", path) {
                Ok(s) => s,
                Err(e) => {
                    return Err(e);
                },
            };
            Ok(AssetPlatform { id, chain_identifier, name, shortname })
        },
        _ => Err(make_shape_err(path, "object", v)),
    }
}

/// What decoding a required array field of nullable strings yields.
pub open spec fn spec_req_nullable_string_array(
    es: Seq<(String, JsonValue)>,
    key: Seq<char>,
    path: Seq<char>,
) -> Result<Seq<Option<Seq<char>>>, DecodeErrorV> {
    match lookup_entries(es, key) {
        Some(JsonValue::Array(a)) => spec_nullable_string_list(a@, path_field(path, key)),
        o => Err(field_err(path, key, "array"@, o)),
    }
}

/// Decodes a required array field whose elements are strings or nulls.
pub fn req_nullable_string_array(es: &Vec<(String, JsonValue)>, key: &str, path: &str) -> (r:
    Result<Vec<Option<String>>, DecodeError>)
    ensures
        r matches Ok(v) ==> spec_req_nullable_string_array(es@, key@, path@) == Ok::<
            Seq<Option<Seq<char>>>,
            DecodeErrorV,
        >(v.deep_view()),
        r matches Err(e) ==> spec_req_nullable_string_array(es@, key@, path@) == Err::<
            Seq<Option<Seq<char>>>,
            DecodeErrorV,
        >(e@),
{
    match find_field(es, key) {
        Some(JsonValue::Array(a)) => {
            let child = child_field(path, key);
            nullable_string_list(a, child.as_str())
        },
        o => Err(make_field_err(path, key, "array", o)),
    }
}

/// Source-repository locations by host; entries may be null.
#[derive(Debug, Clone, PartialEq)]
pub struct ReposUrl {
    /// Repository locations on the first host.
    pub github: Vec<Option<String>>,
    /// Repository locations on the second host.
    pub bitbucket: Vec<Option<String>>,
}

/// The mathematical content of a `ReposUrl`.
#[verifier::ext_equal]
pub ghost struct ReposUrlV {
    /// Repository locations on the first host.
    pub github: Seq<Option<Seq<char>>>,
    /// Repository locations on the second host.
    pub bitbucket: Seq<Option<Seq<char>>>,
}

impl View for ReposUrl {
    type V = ReposUrlV;

    open spec fn view(&self) -> ReposUrlV {
        ReposUrlV { github: self.github.deep_view(), bitbucket: self.bitbucket.deep_view() }
    }
}

/// What decoding the repository block yields: two required arrays of
/// nullable strings.
pub open spec fn spec_repos_url(v: JsonValue, path: Seq<char>) -> Result<ReposUrlV, DecodeErrorV> {
    match v {
        JsonValue::Object(es) => match spec_req_nullable_string_array(es@, "github"@, path) {
            Err(e) => Err(e),
            Ok(github) => match spec_req_nullable_string_array(es@, "bitbucket"@, path) {
                Err(e) => Err(e),
                Ok(bitbucket) => Ok(ReposUrlV { github, bitbucket }),
            },
        },
        _ => Err(shape_err(path, "object"@, v)),
    }
}

/// Decodes the repository block.
pub fn decode_repos_url(v: &JsonValue, path: &str) -> (r: Result<ReposUrl, DecodeError>)
    ensures
        res_view(r) == spec_repos_url(*v, path@),
{
    match v {
        JsonValue::Object(es) => {
            let github = match req_nullable_string_array(es, "github", path) {
                Ok(x) => x,
                Err(e) => {
                    return Err(e);
                },
            };
            let bitbucket = match req_nullable_string_array(es, "bitbucket", path) {
                Ok(x) => x,
                Err(e) => {
                    return Err(e);
                },
            };
            Ok(ReposUrl { github, bitbucket })
        },
        _ => Err(make_shape_err(path, "object", v)),
    }
}

/// The link block of a coin detail: site lists, social handles and the
/// repository block.
#[derive(Debug, Clone, PartialEq)]
pub struct LinksItem {
    /// Project homepages; entries may be null.
    pub homepage: Vec<Option<String>>,
    /// Chain explorer sites; entries may be null.
    pub blockchain_site: Vec<Option<String>>,
    /// Official forum sites; entries may be null.
    pub official_forum_url: Vec<Option<String>>,
    /// Chat rooms; entries may be null.
    pub chat_url: Vec<Option<String>>,
    /// Announcement pages; entries may be null.
    pub announcement_url: Vec<Option<String>>,
    /// Social handle, where served.
    pub twitter_screen_name: Option<String>,
    /// Social handle, where served.
    pub facebook_username: Option<String>,
    /// Forum thread number, where served.
    pub bitcointalk_thread_identifier: Option<i64>,
    /// Channel identifier, where served.
    pub telegram_channel_identifier: Option<String>,
    /// Forum site, where served.
    pub subreddit_url: Option<String>,
    /// The repository block.
    pub repos_url: ReposUrl,
}

/// The mathematical content of a `LinksItem`.
#[verifier::ext_equal]
pub ghost struct LinksItemV {
    /// Project homepages.
    pub homepage: Seq<Option<Seq<char>>>,
    /// Chain explorer sites.
    pub blockchain_site: Seq<Option<Seq<char>>>,
    /// Official forum sites.
    pub official_forum_url: Seq<Option<Seq<char>>>,
    /// Chat rooms.
    pub chat_url: Seq<Option<Seq<char>>>,
    /// Announcement pages.
    pub announcement_url: Seq<Option<Seq<char>>>,
    /// Social handle.
    pub twitter_screen_name: Option<Seq<char>>,
    /// Social handle.
    pub facebook_username: Option<Seq<char>>,
    /// Forum thread number.
    pub bitcointalk_thread_identifier: Option<int>,
    /// Channel identifier.
    pub telegram_channel_identifier: Option<Seq<char>>,
    /// Forum site.
    pub subreddit_url: Option<Seq<char>>,
    /// The repository block.
    pub repos_url: ReposUrlV,
}

impl View for LinksItem {
    type V = LinksItemV;

    open spec fn view(&self) -> LinksItemV {
        LinksItemV {
            homepage: self.homepage.deep_view(),
            blockchain_site: self.blockchain_site.deep_view(),
            official_forum_url: self.official_forum_url.deep_view(),
            chat_url: self.chat_url.deep_view(),
            announcement_url: self.announcement_url.deep_view(),
            twitter_screen_name: opt_view(self.twitter_screen_name),
            facebook_username: opt_view(self.facebook_username),
            bitcointalk_thread_identifier: match self.bitcointalk_thread_identifier {
                Some(x) => Some(x as int),
                None => None,
            },
            telegram_channel_identifier: opt_view(self.telegram_channel_identifier),
            subreddit_url: opt_view(self.subreddit_url),
            repos_url: self.repos_url@,
        }
    }
}

/// What decoding the link block yields: five required arrays of nullable
/// strings, five optional scalars, and the required repository block
/// under `repos_url`, checked in that order.
pub open spec fn spec_links_item(v: JsonValue, path: Seq<char>) -> Result<
    LinksItemV,
    DecodeErrorV,
> {
    match v {
        JsonValue::Object(es) => match spec_req_nullable_string_array(es@, "homepage"@, path) {
            Err(e) => Err(e),
            Ok(homepage) => match spec_req_nullable_string_array(es@, "blockchain_site"@, path) {
                Err(e) => Err(e),
                Ok(blockchain_site) => match spec_req_nullable_string_array(
                    es@,
                    "official_forum_url"@,
                    path,
                ) {
                    Err(e) => Err(e),
                    Ok(official_forum_url) => match spec_req_nullable_string_array(
                        es@,
                        "chat_url"@,
                        path,
                    ) {
                        Err(e) => Err(e),
                        Ok(chat_url) => match spec_req_nullable_string_array(
                            es@,
                            "announcement_url"@,
                            path,
                        ) {
                            Err(e) => Err(e),
                            Ok(announcement_url) => match spec_opt_string(
                                es@,
                                "twitter_screen_name"@,
                                path,
                            ) {
                                Err(e) => Err(e),
                                Ok(twitter_screen_name) => match spec_opt_string(
                                    es@,
                                    "facebook_username"@,
                                    path,
                                ) {
                                    Err(e) => Err(e),
                                    Ok(facebook_username) => match spec_opt_i64(
                                        es@,
                                        "bitcointalk_thread_identifier"@,
                                        path,
                                    ) {
                                        Err(e) => Err(e),
                                        Ok(bitcointalk) => match spec_opt_string(
                                            es@,
                                            "telegram_channel_identifier"@,
                                            path,
                                        ) {
                                            Err(e) => Err(e),
                                            Ok(telegram) => match spec_opt_string(
                                                es@,
                                                "subreddit_url"@,
                                                path,
                                            ) {
                                                Err(e) => Err(e),
                                                Ok(subreddit_url) => match lookup_entries(
                                                    es@,
                                                    "repos_url"@,
                                                ) {
                                                    None => Err(
                                                        field_err(
                                                            path,
                                                            "repos_url"@,
                                                            "object"@,
                                                            None,
                                                        ),
                                                    ),
                                                    Some(w) => match spec_repos_url(
                                                        w,
                                                        path_field(path, "repos_url"@),
                                                    ) {
                                                        Err(e) => Err(e),
                                                        Ok(repos_url) => Ok(
                                                            LinksItemV {
                                                                homepage,
                                                                blockchain_site,
                                                                official_forum_url,
                                                                chat_url,
                                                                announcement_url,
                                                                twitter_screen_name,
                                                                facebook_username,
                                                                bitcointalk_thread_identifier:
                                                                    bitcointalk,
                                                                telegram_channel_identifier:
                                                                    telegram,
                                                                subreddit_url,
                                                                repos_url,
                                                            },
                                                        ),
                                                    },
                                                },
                                            },
                                        },
                                    },
                                },
                            },
                        },
                    },
                },
            },
        },
        _ => Err(shape_err(path, "object"@, v)),
    }
}

/// Decodes the link block.
pub fn decode_links_item(v: &JsonValue, path: &str) -> (r: Result<LinksItem, DecodeError>)
    ensures
        res_view(r) == spec_links_item(*v, path@),
{
    match v {
        JsonValue::Object(es) => {
            let homepage = match req_nullable_string_array(es, "homepage", path) {
                Ok(x) => x,
                Err(e) => {
                    return Err(e);
                },
            };
            let blockchain_site = match req_nullable_string_array(es, "blockchain_site", path) {
                Ok(x) => x,
                Err(e) => {
                    return Err(e);
                },
            };
            let official_forum_url = match req_nullable_string_array(
                es,
                "official_forum_url",
                path,
            ) {
                Ok(x) => x,
                Err(e) => {
                    return Err(e);
                },
            };
            let chat_url = match req_nullable_string_array(es, "chat_url", path) {
                Ok(x) => x,
                Err(e) => {
                    return Err(e);
                },
            };
            let announcement_url = match req_nullable_string_array(es, "announcement_url", path) {
                Ok(x) => x,
                Err(e) => {
                    return Err(e);
                },
            };
            let twitter_screen_name = match opt_string(es, "twitter_screen_name", path) {
                Ok(x) => x,
                Err(e) => {
                    return Err(e);
                },
            };
            let facebook_username = match opt_string(es, "facebook_username", path) {
                Ok(x) => x,
                Err(e) => {
                    return Err(e);
                },
            };
            let bitcointalk_thread_identifier = match opt_i64(
                es,
                "bitcointalk_thread_identifier",
                path,
            ) {
                Ok(x) => x,
                Err(e) => {
                    return Err(e);
                },
            };
            let telegram_channel_identifier = match opt_string(
                es,
                "telegram_channel_identifier",
                path,
            ) {
                Ok(x) => x,
                Err(e) => {
                    return Err(e);
                },
            };
            let subreddit_url = match opt_string(es, "subreddit_url", path) {
                Ok(x) => x,
                Err(e) => {
                    return Err(e);
                },
            };
            let repos_url = match find_field(es, "repos_url") {
                None => {
                    return Err(make_field_err(path, "repos_url", "object", None));
                },
                Some(w) => {
                    let child = child_field(path, "repos_url");
                    match decode_repos_url(w, child.as_str()) {
                        Ok(x) => x,
                        Err(e) => {
                            return Err(e);
                        },
                    }
                },
            };
            Ok(
                LinksItem {
                    homepage,
                    blockchain_site,
                    official_forum_url,
                    chat_url,
                    announcement_url,
                    twitter_screen_name,
                    facebook_username,
                    bitcointalk_thread_identifier,
                    telegram_channel_identifier,
                    subreddit_url,
                    repos_url,
                },
            )
        },
        _ => Err(make_shape_err(path, "object", v)),
    }
}

/// The all-time-high dates per currency.
#[derive(Debug, Clone, PartialEq)]
pub struct AthDate {
    /// Date text per currency code, in document order.
    pub ath_date: Vec<(String, String)>,
}

/// The mathematical content of an `AthDate`.
#[verifier::ext_equal]
pub ghost struct AthDateV {
    /// Date text per currency code, in document order.
    pub ath_date: Seq<(Seq<char>, Seq<char>)>,
}

impl View for AthDate {
    type V = AthDateV;

    open spec fn view(&self) -> AthDateV {
        AthDateV { ath_date: self.ath_date.deep_view() }
    }
}

/// What decoding the all-time-high dates yields: a required object field
/// `ath_date` whose values are all strings.
pub open spec fn spec_ath_date(v: JsonValue, path: Seq<char>) -> Result<AthDateV, DecodeErrorV> {
    match v {
        JsonValue::Object(es) => match lookup_entries(es@, "ath_date"@) {
            Some(JsonValue::Object(mes)) => match spec_string_entries(
                mes@,
                path_field(path, "ath_date"@),
            ) {
                Err(e) => Err(e),
                Ok(m) => Ok(AthDateV { ath_date: m }),
            },
            o => Err(field_err(path, "ath_date"@, "object"@, o)),
        },
        _ => Err(shape_err(path, "object"@, v)),
    }
}

/// Decodes the all-time-high dates.
pub fn decode_ath_date(v: &JsonValue, path: &str) -> (r: Result<AthDate, DecodeError>)
    ensures
        res_view(r) == spec_ath_date(*v, path@),
{
    match v {
        JsonValue::Object(es) => match find_field(es, "ath_date") {
            Some(JsonValue::Object(mes)) => {
                let child = child_field(path, "ath_date");
                match string_entries(mes, child.as_str()) {
                    Ok(m) => Ok(AthDate { ath_date: m }),
                    Err(e) => Err(e),
                }
            },
            o => Err(make_field_err(path, "ath_date", "object", o)),
        },
        _ => Err(make_shape_err(path, "object", v)),
    }
}

/// The all-time-low dates per currency.
#[derive(Debug, Clone, PartialEq)]
pub struct AtlDate {
    /// Date text per currency code, in document order.
    pub atl_date: Vec<(String, String)>,
}

/// The mathematical content of an `AtlDate`.
#[verifier::ext_equal]
pub ghost struct AtlDateV {
    /// Date text per currency code, in document order.
    pub atl_date: Seq<(Seq<char>, Seq<char>)>,
}

impl View for AtlDate {
    type V = AtlDateV;

    open spec fn view(&self) -> AtlDateV {
        AtlDateV { atl_date: self.atl_date.deep_view() }
    }
}

/// What decoding the all-time-low dates yields: a required object field
/// `atl_date` whose values are all strings.
pub open spec fn spec_atl_date(v: JsonValue, path: Seq<char>) -> Result<AtlDateV, DecodeErrorV> {
    match v {
        JsonValue::Object(es) => match lookup_entries(es@, "atl_date"@) {
            Some(JsonValue::Object(mes)) => match spec_string_entries(
                mes@,
                path_field(path, "atl_date"@),
            ) {
                Err(e) => Err(e),
                Ok(m) => Ok(AtlDateV { atl_date: m }),
            },
            o => Err(field_err(path, "atl_date"@, "object"@, o)),
        },
        _ => Err(shape_err(path, "object"@, v)),
    }
}

/// Decodes the all-time-low dates.
pub fn decode_atl_date(v: &JsonValue, path: &str) -> (r: Result<AtlDate, DecodeError>)
    ensures
        res_view(r) == spec_atl_date(*v, path@),
{
    match v {
        JsonValue::Object(es) => match find_field(es, "atl_date") {
            Some(JsonValue::Object(mes)) => {
                let child = child_field(path, "atl_date");
                match string_entries(mes, child.as_str()) {
                    Ok(m) => Ok(AtlDate { atl_date: m }),
                    Err(e) => Err(e),
                }
            },
            o => Err(make_field_err(path, "atl_date", "object", o)),
        },
        _ => Err(make_shape_err(path, "object", v)),
    }
}

/// The project a status update speaks of: the identifying core is
/// flattened into the update's object, plus a kind tag and an icon set.
#[derive(Debug, Clone, PartialEq)]
pub struct Project {
    /// The identifying core, flattened in the document.
    pub basic_info: BasicCoinInfo,
    /// The project kind, served under the key `type`.
    pub project_type: String,
    /// The project's icon set.
    pub image: ImageItem,
}

/// The mathematical content of a `Project`.
#[verifier::ext_equal]
pub ghost struct ProjectV {
    /// The identifying core.
    pub basic_info: BasicCoinInfoV,
    /// The project kind.
    pub project_type: Seq<char>,
    /// The project's icon set.
    pub image: ImageItemV,
}

impl View for Project {
    type V = ProjectV;

    open spec fn view(&self) -> ProjectV {
        ProjectV {
            basic_info: self.basic_info@,
            project_type: self.project_type@,
            image: self.image@,
        }
    }
}

/// What decoding a project yields: the flattened identifying core, the
/// required string field `type`, and the required object field `image`.
pub open spec fn spec_project(v: JsonValue, path: Seq<char>) -> Result<ProjectV, DecodeErrorV> {
    match v {
        JsonValue::Object(es) => match spec_basic_coin_info(es@, path) {
            Err(e) => Err(e),
            Ok(basic) => match spec_req_string(es@, "type"@, path) {
                Err(e) => Err(e),
                Ok(ty) => match lookup_entries(es@, "image"@) {
                    None => Err(field_err(path, "image"@, "object"@, None)),
                    Some(w) => match spec_image_item(w, path_field(path, "image"@)) {
                        Err(e) => Err(e),
                        Ok(image) => Ok(ProjectV { basic_info: basic, project_type: ty, image }),
                    },
                },
            },
        },
        _ => Err(shape_err(path, "object"@, v)),
    }
}

/// Decodes a project.
pub fn decode_project(v: &JsonValue, path: &str) -> (r: Result<Project, DecodeError>)
    ensures
        res_view(r) == spec_project(*v, path@),
{
    match v {
        JsonValue::Object(es) => {
            let basic_info = match decode_basic_coin_info(es, path) {
                Ok(b) => b,
                Err(e) => {
                    return Err(e);
                },
            };
            let project_type = match req_string(es, "type", path) {
                Ok(s) => s,
                Err(e) => {
                    return Err(e);
                },
            };
            let image = match find_field(es, "image") {
                None => {
                    return Err(make_field_err(path, "image", "object", None));
                },
                Some(w) => {
                    let child = child_field(path, "image");
                    match decode_image_item(w, child.as_str()) {
                        Ok(x) => x,
                        Err(e) => {
                            return Err(e);
                        },
                    }
                },
            };
            Ok(Project { basic_info, project_type, image })
        },
        _ => Err(make_shape_err(path, "object", v)),
    }
}

/// One status update published for a project.
#[derive(Debug, Clone, PartialEq)]
pub struct StatusUpdateItem {
    /// Update text, where served.
    pub description: Option<String>,
    /// Update category, where served.
    pub category: Option<String>,
    /// Publication time text, where served.
    pub created_at: Option<String>,
    /// Publishing user, where served.
    pub user: Option<String>,
    /// Publishing user's title, where served.
    pub user_title: Option<String>,
    /// Whether the update is pinned.
    pub pin: bool,
    /// The project the update speaks of.
    pub project: Project,
}

/// The mathematical content of a `StatusUpdateItem`.
#[verifier::ext_equal]
pub ghost struct StatusUpdateItemV {
    /// Update text.
    pub description: Option<Seq<char>>,
    /// Update category.
    pub category: Option<Seq<char>>,
    /// Publication time text.
    pub created_at: Option<Seq<char>>,
    /// Publishing user.
    pub user: Option<Seq<char>>,
    /// Publishing user's title.
    pub user_title: Option<Seq<char>>,
    /// Whether the update is pinned.
    pub pin: bool,
    /// The project the update speaks of.
    pub project: ProjectV,
}

impl View for StatusUpdateItem {
    type V = StatusUpdateItemV;

    open spec fn view(&self) -> StatusUpdateItemV {
        StatusUpdateItemV {
            description: opt_view(self.description),
            category: opt_view(self.category),
            created_at: opt_view(self.created_at),
            user: opt_view(self.user),
            user_title: opt_view(self.user_title),
            pin: self.pin,
            project: self.project@,
        }
    }
}

/// What decoding a status update yields: five optional strings, the
/// required boolean `pin`, and the required nested object `project`.
pub open spec fn spec_status_update_item(v: JsonValue, path: Seq<char>) -> Result<
    StatusUpdateItemV,
    DecodeErrorV,
> {
    match v {
        JsonValue::Object(es) => match spec_opt_string(es@, "description"@, path) {
            Err(e) => Err(e),
            Ok(description) => match spec_opt_string(es@, "category"@, path) {
                Err(e) => Err(e),
                Ok(category) => match spec_opt_string(es@, "created_at"@, path) {
                    Err(e) => Err(e),
                    Ok(created_at) => match spec_opt_string(es@, "user"@, path) {
                        Err(e) => Err(e),
                        Ok(user) => match spec_opt_string(es@, "user_title"@, path) {
                            Err(e) => Err(e),
                            Ok(user_title) => match spec_req_bool(es@, "pin"@, path) {
                                Err(e) => Err(e),
                                Ok(pin) => match lookup_entries(es@, "project"@) {
                                    None => Err(field_err(path, "project"@, "object"@, None)),
                                    Some(w) => match spec_project(
                                        w,
                                        path_field(path, "project"@),
                                    ) {
                                        Err(e) => Err(e),
                                        Ok(project) => Ok(
                                            StatusUpdateItemV {
                                                description,
                                                category,
                                                created_at,
                                                user,
                                                user_title,
                                                pin,
                                                project,
                                            },
                                        ),
                                    },
                                },
                            },
                        },
                    },
                },
            },
        },
        _ => Err(shape_err(path, "object"@, v)),
    }
}

/// Decodes a status update.
pub fn decode_status_update_item(v: &JsonValue, path: &str) -> (r: Result<
    StatusUpdateItem,
    DecodeError,
>)
    ensures
        res_view(r) == spec_status_update_item(*v, path@),
{
    match v {
        JsonValue::Object(es) => {
            let description = match opt_string(es, "description", path) {
                Ok(x) => x,
                Err(e) => {
                    return Err(e);
                },
            };
            let category = match opt_string(es, "category", path) {
                Ok(x) => x,
                Err(e) => {
                    return Err(e);
                },
            };
            let created_at = match opt_string(es, "created_at", path) {
                Ok(x) => x,
                Err(e) => {
                    return Err(e);
                },
            };
            let user = match opt_string(es, "user", path) {
                Ok(x) => x,
                Err(e) => {
                    return Err(e);
                },
            };
            let user_title = match opt_string(es, "user_title", path) {
                Ok(x) => x,
                Err(e) => {
                    return Err(e);
                },
            };
            let pin = match req_bool(es, "pin", path) {
                Ok(x) => x,
                Err(e) => {
                    return Err(e);
                },
            };
            let project = match find_field(es, "project") {
                None => {
                    return Err(make_field_err(path, "project", "object", None));
                },
                Some(w) => {
                    let child = child_field(path, "project");
                    match decode_project(w, child.as_str()) {
                        Ok(x) => x,
                        Err(e) => {
                            return Err(e);
                        },
                    }
                },
            };
            Ok(
                StatusUpdateItem {
                    description,
                    category,
                    created_at,
                    user,
                    user_title,
                    pin,
                    project,
                },
            )
        },
        _ => Err(make_shape_err(path, "object", v)),
    }
}

/// What decoding the entries of a price table yields: each entry's value
/// must be an object of numbers — the quotes per currency code, kept as
/// raw numeral text since the upstream emits them at varying precision.
pub open spec fn spec_price_table_entries(es: Seq<(String, JsonValue)>, path: Seq<char>) -> Result<
    Seq<(Seq<char>, Seq<(Seq<char>, Seq<char>)>)>,
    DecodeErrorV,
>
    decreases es.len(),
{
    if es.len() == 0 {
        Ok(Seq::empty())
    } else {
        match spec_price_table_entries(es.drop_last(), path) {
            Err(e) => Err(e),
            Ok(prefix) => match es.last().1 {
                JsonValue::Object(mes) => match spec_number_entries(
                    mes@,
                    path_field(path, es.last().0@),
                ) {
                    Err(e) => Err(e),
                    Ok(m) => Ok(prefix.push((es.last().0@, m))),
                },
                v => Err(
                    DecodeErrorV {
                        path: path_field(path, es.last().0@),
                        expected: "object"@,
                        found: kind_name(v),
                    },
                ),
            },
        }
    }
}

/// What decoding a price table yields: an object mapping each looked-up
/// asset to its per-currency quotes.
pub open spec fn spec_price_table(v: JsonValue, path: Seq<char>) -> Result<
    Seq<(Seq<char>, Seq<(Seq<char>, Seq<char>)>)>,
    DecodeErrorV,
> {
    match v {
        JsonValue::Object(es) => spec_price_table_entries(es@, path),
        _ => Err(shape_err(path, "object"@, v)),
    }
}

proof fn lemma_price_table_entries_err(es: Seq<(String, JsonValue)>, path: Seq<char>, j: int)
    requires
        0 <= j <= es.len(),
        spec_price_table_entries(es.take(j), path) is Err,
    ensures
        spec_price_table_entries(es, path) == spec_price_table_entries(es.take(j), path),
    decreases es.len() - j,
{
    if j < es.len() {
        assert(es.take(j + 1).drop_last() =~= es.take(j));
        lemma_price_table_entries_err(es, path, j + 1);
    } else {
        assert(es.take(j) =~= es);
    }
}

/// Decodes a price table: asset by asset, the quotes per currency code,
/// numerals kept as text.
pub fn decode_price_table(v: &JsonValue, path: &str) -> (r: Result<
    Vec<(String, Vec<(String, String)>)>,
    DecodeError,
>)
    ensures
        r matches Ok(t) ==> spec_price_table(*v, path@) == Ok::<
            Seq<(Seq<char>, Seq<(Seq<char>, Seq<char>)>)>,
            DecodeErrorV,
        >(t.deep_view()),
        r matches Err(e) ==> spec_price_table(*v, path@) == Err::<
            Seq<(Seq<char>, Seq<(Seq<char>, Seq<char>)>)>,
            DecodeErrorV,
        >(e@),
{
    match v {
        JsonValue::Object(es) => {
            let mut out: Vec<(String, Vec<(String, String)>)> = Vec::new();
            let n = es.len();
            let mut i: usize = 0;
            proof {
                assert(es@.take(0) =~= Seq::<(String, JsonValue)>::empty());
                assert(out.deep_view() =~= Seq::<
                    (Seq<char>, Seq<(Seq<char>, Seq<char>)>),
                >::empty());
            }
            while i < n
                invariant
                    0 <= i <= n,
                    n == es@.len(),
                    *v == JsonValue::Object(*es),
                    spec_price_table_entries(es@.take(i as int), path@) == Ok::<
                        Seq<(Seq<char>, Seq<(Seq<char>, Seq<char>)>)>,
                        DecodeErrorV,
                    >(out.deep_view()),
                decreases n - i,
            {
                proof {
                    assert(es@.take(i + 1).drop_last() =~= es@.take(i as int));
                    assert(es@.take(i + 1).last() == es@[i as int]);
                }
                match &es[i].1 {
                    JsonValue::Object(mes) => {
                        let child = child_field(path, es[i].0.as_str());
                        match number_entries(mes, child.as_str()) {
                            Ok(m) => {
                                let ghost prev = out.deep_view();
                                let ghost mv = m.deep_view();
                                out.push((es[i].0.clone(), m));
                                proof {
                                    assert(out.deep_view() =~= prev.push(
                                        (es@[i as int].0@, mv),
                                    ));
                                }
                            },
                            Err(e) => {
                                proof {
                                    assert(spec_price_table_entries(es@.take(i + 1), path@)
                                        == Err::<
                                        Seq<(Seq<char>, Seq<(Seq<char>, Seq<char>)>)>,
                                        DecodeErrorV,
                                    >(e@));
                                    lemma_price_table_entries_err(es@, path@, i + 1);
                                }
                                return Err(e);
                            },
                        }
                    },
                    w => {
                        proof {
                            lemma_price_table_entries_err(es@, path@, i + 1);
                        }
                        return Err(make_field_err(path, es[i].0.as_str(), "object", Some(w)));
                    },
                }
                i = i + 1;
            }
            proof {
                assert(es@.take(n as int) =~= es@);
            }
            Ok(out)
        },
        _ => Err(make_shape_err(path, "object", v)),
    }
}

/// What decoding the elements of a catalogue array yields: every element
/// decoded in order, the first failure winning, each under its index.
pub open spec fn spec_coin_listing_elems(a: Seq<JsonValue>, path: Seq<char>) -> Result<
    Seq<CoinListingV>,
    DecodeErrorV,
>
    decreases a.len(),
{
    if a.len() == 0 {
        Ok(Seq::empty())
    } else {
        match spec_coin_listing_elems(a.drop_last(), path) {
            Err(e) => Err(e),
            Ok(prefix) => match spec_coin_listing(
                a.last(),
                path_index(path, (a.len() - 1) as nat),
            ) {
                Err(e) => Err(e),
                Ok(c) => Ok(prefix.push(c)),
            },
        }
    }
}

/// What decoding a catalogue response yields: an array of catalogue
/// entries.
pub open spec fn spec_coin_listing_list(v: JsonValue, path: Seq<char>) -> Result<
    Seq<CoinListingV>,
    DecodeErrorV,
> {
    match v {
        JsonValue::Array(a) => spec_coin_listing_elems(a@, path),
        _ => Err(shape_err(path, "array"@, v)),
    }
}

proof fn lemma_coin_listing_elems_err(a: Seq<JsonValue>, path: Seq<char>, j: int)
    requires
        0 <= j <= a.len(),
        spec_coin_listing_elems(a.take(j), path) is Err,
    ensures
        spec_coin_listing_elems(a, path) == spec_coin_listing_elems(a.take(j), path),
    decreases a.len() - j,
{
    if j < a.len() {
        assert(a.take(j + 1).drop_last() =~= a.take(j));
        lemma_coin_listing_elems_err(a, path, j + 1);
    } else {
        assert(a.take(j) =~= a);
    }
}

/// Decodes a catalogue response: an array of catalogue entries.
pub fn decode_coin_listing_list(v: &JsonValue, path: &str) -> (r: Result<
    Vec<CoinListing>,
    DecodeError,
>)
    ensures
        r matches Ok(list) ==> spec_coin_listing_list(*v, path@) == Ok::<
            Seq<CoinListingV>,
            DecodeErrorV,
        >(seq_view(list@)),
        r matches Err(e) ==> spec_coin_listing_list(*v, path@) == Err::<
            Seq<CoinListingV>,
            DecodeErrorV,
        >(e@),
{
    match v {
        JsonValue::Array(a) => {
            let mut out: Vec<CoinListing> = Vec::new();
            let n = a.len();
            let mut i: usize = 0;
            proof {
                assert(a@.take(0) =~= Seq::<JsonValue>::empty());
                assert(seq_view(out@) =~= Seq::<CoinListingV>::empty());
            }
            while i < n
                invariant
                    0 <= i <= n,
                    n == a@.len(),
                    *v == JsonValue::Array(*a),
                    spec_coin_listing_elems(a@.take(i as int), path@) == Ok::<
                        Seq<CoinListingV>,
                        DecodeErrorV,
                    >(seq_view(out@)),
                decreases n - i,
            {
                proof {
                    assert(a@.take(i + 1).drop_last() =~= a@.take(i as int));
                    assert(a@.take(i + 1).last() == a@[i as int]);
                }
                let child = child_index(path, i);
                match decode_coin_listing(&a[i], child.as_str()) {
                    Ok(c) => {
                        let ghost prev = seq_view(out@);
                        let ghost cv = c@;
                        out.push(c);
                        proof {
                            assert(seq_view(out@) =~= prev.push(cv));
                        }
                    },
                    Err(e) => {
                        proof {
                            assert(spec_coin_listing_elems(a@.take(i + 1), path@) == Err::<
                                Seq<CoinListingV>,
                                DecodeErrorV,
                            >(e@));
                            lemma_coin_listing_elems_err(a@, path@, i + 1);
                        }
                        return Err(e);
                    },
                }
                i = i + 1;
            }
            proof {
                assert(a@.take(n as int) =~= a@);
            }
            Ok(out)
        },
        _ => Err(make_shape_err(path, "array", v)),
    }
}

/// What decoding the elements of a candle array yields.
pub open spec fn spec_candle_elems(a: Seq<JsonValue>, path: Seq<char>) -> Result<
    Seq<Candle>,
    DecodeErrorV,
>
    decreases a.len(),
{
    if a.len() == 0 {
        Ok(Seq::empty())
    } else {
        match spec_candle_elems(a.drop_last(), path) {
            Err(e) => Err(e),
            Ok(prefix) => match spec_candle(a.last(), path_index(path, (a.len() - 1) as nat)) {
                Err(e) => Err(e),
                Ok(c) => Ok(prefix.push(c)),
            },
        }
    }
}

/// What decoding a candle response yields: an array of candles.
pub open spec fn spec_candle_list(v: JsonValue, path: Seq<char>) -> Result<
    Seq<Candle>,
    DecodeErrorV,
> {
    match v {
        JsonValue::Array(a) => spec_candle_elems(a@, path),
        _ => Err(shape_err(path, "array"@, v)),
    }
}

proof fn lemma_candle_elems_err(a: Seq<JsonValue>, path: Seq<char>, j: int)
    requires
        0 <= j <= a.len(),
        spec_candle_elems(a.take(j), path) is Err,
    ensures
        spec_candle_elems(a, path) == spec_candle_elems(a.take(j), path),
    decreases a.len() - j,
{
    if j < a.len() {
        assert(a.take(j + 1).drop_last() =~= a.take(j));
        lemma_candle_elems_err(a, path, j + 1);
    } else {
        assert(a.take(j) =~= a);
    }
}

/// Decodes a candle response: an array of candles.
pub fn decode_candle_list(v: &JsonValue, path: &str) -> (r: Result<Vec<Candle>, DecodeError>)
    ensures
        r matches Ok(list) ==> spec_candle_list(*v, path@) == Ok::<Seq<Candle>, DecodeErrorV>(
            list@,
        ),
        r matches Err(e) ==> spec_candle_list(*v, path@) == Err::<Seq<Candle>, DecodeErrorV>(e@),
{
    match v {
        JsonValue::Array(a) => {
            let mut out: Vec<Candle> = Vec::new();
            let n = a.len();
            let mut i: usize = 0;
            proof {
                assert(a@.take(0) =~= Seq::<JsonValue>::empty());
                assert(out@ =~= Seq::<Candle>::empty());
            }
            while i < n
                invariant
                    0 <= i <= n,
                    n == a@.len(),
                    *v == JsonValue::Array(*a),
                    spec_candle_elems(a@.take(i as int), path@) == Ok::<
                        Seq<Candle>,
                        DecodeErrorV,
                    >(out@),
                decreases n - i,
            {
                proof {
                    assert(a@.take(i + 1).drop_last() =~= a@.take(i as int));
                    assert(a@.take(i + 1).last() == a@[i as int]);
                }
                let child = child_index(path, i);
                match decode_candle(&a[i], child.as_str()) {
                    Ok(c) => {
                        out.push(c);
                    },
                    Err(e) => {
                        proof {
                            assert(spec_candle_elems(a@.take(i + 1), path@) == Err::<
                                Seq<Candle>,
                                DecodeErrorV,
                            >(e@));
                            lemma_candle_elems_err(a@, path@, i + 1);
                        }
                        return Err(e);
                    },
                }
                i = i + 1;
            }
            proof {
                assert(a@.take(n as int) =~= a@);
            }
            Ok(out)
        },
        _ => Err(make_shape_err(path, "array", v)),
    }
}

/// What decoding the elements of an asset-platform array yields.
pub open spec fn spec_asset_platform_elems(a: Seq<JsonValue>, path: Seq<char>) -> Result<
    Seq<AssetPlatformV>,
    DecodeErrorV,
>
    decreases a.len(),
{
    if a.len() == 0 {
        Ok(Seq::empty())
    } else {
        match spec_asset_platform_elems(a.drop_last(), path) {
            Err(e) => Err(e),
            Ok(prefix) => match spec_asset_platform(
                a.last(),
                path_index(path, (a.len() - 1) as nat),
            ) {
                Err(e) => Err(e),
                Ok(c) => Ok(prefix.push(c)),
            },
        }
    }
}

/// What decoding an asset-platform response yields: an array of
/// platforms.
pub open spec fn spec_asset_platform_list(v: JsonValue, path: Seq<char>) -> Result<
    Seq<AssetPlatformV>,
    DecodeErrorV,
> {
    match v {
        JsonValue::Array(a) => spec_asset_platform_elems(a@, path),
        _ => Err(shape_err(path, "array"@, v)),
    }
}

proof fn lemma_asset_platform_elems_err(a: Seq<JsonValue>, path: Seq<char>, j: int)
    requires
        0 <= j <= a.len(),
        spec_asset_platform_elems(a.take(j), path) is Err,
    ensures
        spec_asset_platform_elems(a, path) == spec_asset_platform_elems(a.take(j), path),
    decreases a.len() - j,
{
    if j < a.len() {
        assert(a.take(j + 1).drop_last() =~= a.take(j));
        lemma_asset_platform_elems_err(a, path, j + 1);
    } else {
        assert(a.take(j) =~= a);
    }
}

/// Decodes an asset-platform response: an array of platforms.
pub fn decode_asset_platform_list(v: &JsonValue, path: &str) -> (r: Result<
    Vec<AssetPlatform>,
    DecodeError,
>)
    ensures
        r matches Ok(list) ==> spec_asset_platform_list(*v, path@) == Ok::<
            Seq<AssetPlatformV>,
            DecodeErrorV,
        >(seq_view(list@)),
        r matches Err(e) ==> spec_asset_platform_list(*v, path@) == Err::<
            Seq<AssetPlatformV>,
            DecodeErrorV,
        >(e@),
{
    match v {
        JsonValue::Array(a) => {
            let mut out: Vec<AssetPlatform> = Vec::new();
            let n = a.len();
            let mut i: usize = 0;
            proof {
                assert(a@.take(0) =~= Seq::<JsonValue>::empty());
                assert(seq_view(out@) =~= Seq::<AssetPlatformV>::empty());
            }
            while i < n
                invariant
                    0 <= i <= n,
                    n == a@.len(),
                    *v == JsonValue::Array(*a),
                    spec_asset_platform_elems(a@.take(i as int), path@) == Ok::<
                        Seq<AssetPlatformV>,
                        DecodeErrorV,
                    >(seq_view(out@)),
                decreases n - i,
            {
                proof {
                    assert(a@.take(i + 1).drop_last() =~= a@.take(i as int));
                    assert(a@.take(i + 1).last() == a@[i as int]);
                }
                let child = child_index(path, i);
                match decode_asset_platform(&a[i], child.as_str()) {
                    Ok(c) => {
                        let ghost prev = seq_view(out@);
                        let ghost cv = c@;
                        out.push(c);
                        proof {
                            assert(seq_view(out@) =~= prev.push(cv));
                        }
                    },
                    Err(e) => {
                        proof {
                            assert(spec_asset_platform_elems(a@.take(i + 1), path@) == Err::<
                                Seq<AssetPlatformV>,
                                DecodeErrorV,
                            >(e@));
                            lemma_asset_platform_elems_err(a@, path@, i + 1);
                        }
                        return Err(e);
                    },
                }
                i = i + 1;
            }
            proof {
                assert(a@.take(n as int) =~= a@);
            }
            Ok(out)
        },
        _ => Err(make_shape_err(path, "array", v)),
    }
}

} // verus!




