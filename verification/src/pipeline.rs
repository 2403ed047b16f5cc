//! Response classification and the decode pipeline.
//!
//! A call has exactly three failure exits — transport, rejected status,
//! structural mismatch — and the status is classified before any parse:
//! error bodies have unpredictable shapes, and decoding one against the
//! success schema would report a misleading mismatch instead of the true
//! cause. Nothing is retried and nothing is coerced to a default.

use crate::collections::{decode_string_array, spec_string_array};
use crate::decode::{DecodeError, DecodeErrorV};
use crate::digits::{dec_chars, render_u64};
use crate::json::{json_doc_of, parse_json, JsonValue};
use crate::models::{
    decode_asset_platform_list, decode_candle_list, decode_coin_listing_list, decode_ping,
    decode_price_table, spec_asset_platform_list, spec_candle_list, spec_coin_listing_list,
    spec_ping, spec_price_table, AssetPlatform, AssetPlatformV, Candle, CoinListing, CoinListingV,
    Ping, PingV,
};
use vstd::prelude::*;
use vstd::string::*;

verus! {

/// Whether a status code is rejected: the client- and server-error range.
pub open spec fn is_error_status(status: u16) -> bool {
    400 <= status < 600
}

/// The mathematical content of a pipeline failure.
#[verifier::ext_equal]
pub ghost enum GeckoErrorV {
    /// Connectivity, timeout or protocol failure before any status
    /// arrived.
    Transport { message: Seq<char> },
    /// The server rejected the request; the raw body is kept for
    /// diagnosis and is never decoded against the success schema.
    HttpStatus { status: u16, body: Seq<char> },
    /// The body did not match the target schema.
    Decode { error: DecodeErrorV },
}

/// A pipeline failure: one of the three exits of a call. The core never
/// recovers from any of them and never substitutes default data.
#[derive(Debug, Clone, PartialEq, Eq)]
pub enum GeckoError {
    /// Connectivity, timeout or protocol failure before any status
    /// arrived.
    Transport {
        /// The transport's own description of the failure.
        message: String,
    },
    /// The server rejected the request.
    HttpStatus {
        /// The rejected status code.
        status: u16,
        /// The raw response body, kept for diagnosis.
        body: String,
    },
    /// The body did not match the target schema.
    Decode {
        /// The structural mismatch, with its exact field path.
        error: DecodeError,
    },
}

impl View for GeckoError {
    type V = GeckoErrorV;

    open spec fn view(&self) -> GeckoErrorV {
        match self {
            GeckoError::Transport { message } => GeckoErrorV::Transport { message: message@ },
            GeckoError::HttpStatus { status, body } => GeckoErrorV::HttpStatus {
                status: *status,
                body: body@,
            },
            GeckoError::Decode { error } => GeckoErrorV::Decode { error: error@ },
        }
    }
}

impl GeckoError {
    /// A one-line description of the failure.
    pub fn get_string(&self) -> (r: String)
        ensures
            r@ == match self@ {
                GeckoErrorV::Transport { message } => "transport error: "@ + message,
                GeckoErrorV::HttpStatus { status, body } => "http status "@ + dec_chars(
                    status as nat,
                ) + ": "@ + body,
                GeckoErrorV::Decode { error } => "decode error: "@ + error.path + ": expected "@
                    + error.expected + ", found "@ + error.found,
            },
    {
        match self {
            GeckoError::Transport { message } => {
                let mut s = String::from_str("transport error: ");
                s.append(message.as_str());
                s
            },
            GeckoError::HttpStatus { status, body } => {
                let mut s = String::from_str("http status ");
                let d = render_u64(*status as u64);
                s.append(d.as_str());
                s.append(": ");
                s.append(body.as_str());
                s
            },
            GeckoError::Decode { error } => {
                let mut s = String::from_str("decode error: ");
                let d = error.get_string();
                s.append(d.as_str());
                s
            },
        }
    }
}

/// The failure reported for a body that is not JSON at all.
pub open spec fn malformed_body_err() -> DecodeErrorV {
    DecodeErrorV { path: Seq::empty(), expected: "json document"@, found: "malformed text"@ }
}

/// Classifies a raw response and parses the body of an accepted one.
/// A status in the error range is reported as it stands, with its raw
/// body and without ever consulting the decoder; only an accepted
/// status has its body parsed.
pub fn process_response(status: u16, body: String) -> (r: Result<JsonValue, GeckoError>)
    ensures
        is_error_status(status) ==> (r matches Err(e) && e@ == (GeckoErrorV::HttpStatus {
            status,
            body: body@,
        })),
        !is_error_status(status) ==> match json_doc_of(body@) {
            Some(doc) => r matches Ok(d) && d == doc,
            None => r matches Err(e) && e@ == (GeckoErrorV::Decode {
                error: malformed_body_err(),
            }),
        },
{
    if status >= 400 && status < 600 {
        return Err(GeckoError::HttpStatus { status, body });
    }
    match parse_json(body.as_str()) {
        Some(doc) => Ok(doc),
        None => {
            let error = DecodeError {
                path: String::new(),
                expected: String::from_str("json document"),
                found: String::from_str("malformed text"),
            };
            proof {
                assert(error@ =~= malformed_body_err());
            }
            Err(GeckoError::Decode { error })
        },
    }
}

/// What a full liveness call yields from a raw response: the classified
/// status, then the parsed body decoded against the greeting schema.
pub open spec fn ping_response_of(status: u16, body: Seq<char>) -> Result<PingV, GeckoErrorV> {
    if is_error_status(status) {
        Err(GeckoErrorV::HttpStatus { status, body })
    } else {
        match json_doc_of(body) {
            None => Err(GeckoErrorV::Decode { error: malformed_body_err() }),
            Some(doc) => match spec_ping(doc, Seq::empty()) {
                Ok(p) => Ok(p),
                Err(e) => Err(GeckoErrorV::Decode { error: e }),
            },
        }
    }
}

/// Decodes a raw liveness response into the greeting.
pub fn ping_response(status: u16, body: String) -> (r: Result<Ping, GeckoError>)
    ensures
        r matches Ok(p) ==> ping_response_of(status, body@) == Ok::<PingV, GeckoErrorV>(p@),
        r matches Err(e) ==> ping_response_of(status, body@) == Err::<PingV, GeckoErrorV>(e@),
{
    let doc = match process_response(status, body) {
        Ok(d) => d,
        Err(e) => {
            return Err(e);
        },
    };
    proof {
        reveal_strlit("");
        assert(""@ =~= Seq::<char>::empty());
    }
    match decode_ping(&doc, "") {
        Ok(p) => Ok(p),
        Err(error) => Err(GeckoError::Decode { error }),
    }
}

/// What a full currency-catalogue call yields: the classified status,
/// then the body decoded as an array of currency codes.
pub open spec fn supported_currencies_response_of(status: u16, body: Seq<char>) -> Result<
    Seq<Seq<char>>,
    GeckoErrorV,
> {
    if is_error_status(status) {
        Err(GeckoErrorV::HttpStatus { status, body })
    } else {
        match json_doc_of(body) {
            None => Err(GeckoErrorV::Decode { error: malformed_body_err() }),
            Some(doc) => match spec_string_array(doc, Seq::empty()) {
                Ok(l) => Ok(l),
                Err(e) => Err(GeckoErrorV::Decode { error: e }),
            },
        }
    }
}

/// Decodes a raw supported-currencies response.
pub fn supported_currencies_response(status: u16, body: String) -> (r: Result<
    Vec<String>,
    GeckoError,
>)
    ensures
        r matches Ok(l) ==> supported_currencies_response_of(status, body@) == Ok::<
            Seq<Seq<char>>,
            GeckoErrorV,
        >(l.deep_view()),
        r matches Err(e) ==> supported_currencies_response_of(status, body@) == Err::<
            Seq<Seq<char>>,
            GeckoErrorV,
        >(e@),
{
    let doc = match process_response(status, body) {
        Ok(d) => d,
        Err(e) => {
            return Err(e);
        },
    };
    proof {
        reveal_strlit("");
        assert(""@ =~= Seq::<char>::empty());
    }
    match decode_string_array(&doc, "") {
        Ok(l) => Ok(l),
        Err(error) => Err(GeckoError::Decode { error }),
    }
}

/// What a full catalogue call yields: the classified status, then the
/// body decoded as an array of catalogue entries.
pub open spec fn coins_list_response_of(status: u16, body: Seq<char>) -> Result<
    Seq<CoinListingV>,
    GeckoErrorV,
> {
    if is_error_status(status) {
        Err(GeckoErrorV::HttpStatus { status, body })
    } else {
        match json_doc_of(body) {
            None => Err(GeckoErrorV::Decode { error: malformed_body_err() }),
            Some(doc) => match spec_coin_listing_list(doc, Seq::empty()) {
                Ok(l) => Ok(l),
                Err(e) => Err(GeckoErrorV::Decode { error: e }),
            },
        }
    }
}

/// Decodes a raw coin-catalogue response.
pub fn coins_list_response(status: u16, body: String) -> (r: Result<Vec<CoinListing>, GeckoError>)
    ensures
        r matches Ok(l) ==> coins_list_response_of(status, body@) == Ok::<
            Seq<CoinListingV>,
            GeckoErrorV,
        >(crate::decode::seq_view(l@)),
        r matches Err(e) ==> coins_list_response_of(status, body@) == Err::<
            Seq<CoinListingV>,
            GeckoErrorV,
        >(e@),
{
    let doc = match process_response(status, body) {
        Ok(d) => d,
        Err(e) => {
            return Err(e);
        },
    };
    proof {
        reveal_strlit("");
        assert(""@ =~= Seq::<char>::empty());
    }
    match decode_coin_listing_list(&doc, "") {
        Ok(l) => Ok(l),
        Err(error) => Err(GeckoError::Decode { error }),
    }
}

/// What a full price lookup yields: the classified status, then the
/// body decoded as a price table.
pub open spec fn price_table_response_of(status: u16, body: Seq<char>) -> Result<
    Seq<(Seq<char>, Seq<(Seq<char>, Seq<char>)>)>,
    GeckoErrorV,
> {
    if is_error_status(status) {
        Err(GeckoErrorV::HttpStatus { status, body })
    } else {
        match json_doc_of(body) {
            None => Err(GeckoErrorV::Decode { error: malformed_body_err() }),
            Some(doc) => match spec_price_table(doc, Seq::empty()) {
                Ok(t) => Ok(t),
                Err(e) => Err(GeckoErrorV::Decode { error: e }),
            },
        }
    }
}

/// Decodes a raw price-lookup response into the per-asset quote table.
pub fn price_table_response(status: u16, body: String) -> (r: Result<
    Vec<(String, Vec<(String, String)>)>,
    GeckoError,
>)
    ensures
        r matches Ok(t) ==> price_table_response_of(status, body@) == Ok::<
            Seq<(Seq<char>, Seq<(Seq<char>, Seq<char>)>)>,
            GeckoErrorV,
        >(t.deep_view()),
        r matches Err(e) ==> price_table_response_of(status, body@) == Err::<
            Seq<(Seq<char>, Seq<(Seq<char>, Seq<char>)>)>,
            GeckoErrorV,
        >(e@),
{
    let doc = match process_response(status, body) {
        Ok(d) => d,
        Err(e) => {
            return Err(e);
        },
    };
    proof {
        reveal_strlit("");
        assert(""@ =~= Seq::<char>::empty());
    }
    match decode_price_table(&doc, "") {
        Ok(t) => Ok(t),
        Err(error) => Err(GeckoError::Decode { error }),
    }
}

/// What a full candle call yields: the classified status, then the body
/// decoded as an array of candles.
pub open spec fn ohlc_response_of(status: u16, body: Seq<char>) -> Result<Seq<Candle>, GeckoErrorV> {
    if is_error_status(status) {
        Err(GeckoErrorV::HttpStatus { status, body })
    } else {
        match json_doc_of(body) {
            None => Err(GeckoErrorV::Decode { error: malformed_body_err() }),
            Some(doc) => match spec_candle_list(doc, Seq::empty()) {
                Ok(l) => Ok(l),
                Err(e) => Err(GeckoErrorV::Decode { error: e }),
            },
        }
    }
}

/// Decodes a raw candle response.
pub fn ohlc_response(status: u16, body: String) -> (r: Result<Vec<Candle>, GeckoError>)
    ensures
        r matches Ok(l) ==> ohlc_response_of(status, body@) == Ok::<Seq<Candle>, GeckoErrorV>(l@),
        r matches Err(e) ==> ohlc_response_of(status, body@) == Err::<Seq<Candle>, GeckoErrorV>(
            e@,
        ),
{
    let doc = match process_response(status, body) {
        Ok(d) => d,
        Err(e) => {
            return Err(e);
        },
    };
    proof {
        reveal_strlit("");
        assert(""@ =~= Seq::<char>::empty());
    }
    match decode_candle_list(&doc, "") {
        Ok(l) => Ok(l),
        Err(error) => Err(GeckoError::Decode { error }),
    }
}

/// What a full asset-platform call yields: the classified status, then
/// the body decoded as an array of platforms.
pub open spec fn asset_platforms_response_of(status: u16, body: Seq<char>) -> Result<
    Seq<AssetPlatformV>,
    GeckoErrorV,
> {
    if is_error_status(status) {
        Err(GeckoErrorV::HttpStatus { status, body })
    } else {
        match json_doc_of(body) {
            None => Err(GeckoErrorV::Decode { error: malformed_body_err() }),
            Some(doc) => match spec_asset_platform_list(doc, Seq::empty()) {
                Ok(l) => Ok(l),
                Err(e) => Err(GeckoErrorV::Decode { error: e }),
            },
        }
    }
}

/// Decodes a raw asset-platform response.
pub fn asset_platforms_response(status: u16, body: String) -> (r: Result<
    Vec<AssetPlatform>,
    GeckoError,
>)
    ensures
        r matches Ok(l) ==> asset_platforms_response_of(status, body@) == Ok::<
            Seq<AssetPlatformV>,
            GeckoErrorV,
        >(crate::decode::seq_view(l@)),
        r matches Err(e) ==> asset_platforms_response_of(status, body@) == Err::<
            Seq<AssetPlatformV>,
            GeckoErrorV,
        >(e@),
{
    let doc = match process_response(status, body) {
        Ok(d) => d,
        Err(e) => {
            return Err(e);
        },
    };
    proof {
        reveal_strlit("");
        assert(""@ =~= Seq::<char>::empty());
    }
    match decode_asset_platform_list(&doc, "") {
        Ok(l) => Ok(l),
        Err(error) => Err(GeckoError::Decode { error }),
    }
}

} // verus!
