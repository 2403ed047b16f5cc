//! Per-operation query-parameter builders.
//!
//! Each builder encodes one remote operation's typed arguments into an
//! ordered parameter list. A present optional argument contributes
//! exactly one pair; an absent one contributes none.

use crate::date::Date;
use crate::digits::{int_chars, render_i64};
use crate::encode::{bool_token, join_comma, joined, render_bool, CallParameters};
use crate::queryparams::{market_order_token, price_change_token, trust_order_token, MarketOrder, PriceChange, TrustOrder};
use vstd::prelude::*;
use vstd::string::*;

verus! {

/// The wire tokens of a list of time-window selectors, in order.
pub open spec fn price_change_tokens(ws: Seq<PriceChange>) -> Seq<Seq<char>> {
    ws.map_values(|w: PriceChange| price_change_token(w))
}

/// Renders a list of time-window selectors as their wire tokens.
pub fn price_change_strings(ws: &Vec<PriceChange>) -> (r: Vec<String>)
    ensures
        r.deep_view() == price_change_tokens(ws@),
{
    let mut out: Vec<String> = Vec::new();
    let mut i: usize = 0;
    while i < ws.len()
        invariant
            0 <= i <= ws.len(),
            out.deep_view() =~= price_change_tokens(ws@.take(i as int)),
        decreases ws.len() - i,
    {
        let ghost prev = out.deep_view();
        out.push(ws[i].get_string().to_owned());
        proof {
            assert(out.deep_view() =~= prev.push(price_change_token(ws@[i as int])));
            assert(price_change_tokens(ws@.take(i + 1)) =~= price_change_tokens(
                ws@.take(i as int),
            ).push(price_change_token(ws@[i as int])));
        }
        i = i + 1;
    }
    proof {
        assert(ws@.take(ws@.len() as int) =~= ws@);
        assert(out.deep_view() =~= price_change_tokens(ws@));
    }
    out
}

/// The encoded parameters of a market snapshot request: the required
/// currency, ordering token and sparkline flag, then — only where
/// present — the joined coin ids, the page numeral, and the joined
/// time-window tokens, in that order.
pub open spec fn markets_entries(
    vs: Seq<char>,
    ids: Option<Seq<Seq<char>>>,
    order: MarketOrder,
    pc: Option<Seq<PriceChange>>,
    sparkline: bool,
    page: Option<int>,
) -> Seq<(Seq<char>, Seq<char>)> {
    let base = seq![
        ("vs_currency"@, vs),
        ("order"@, market_order_token(order)),
        ("sparkline"@, bool_token(sparkline)),
    ];
    let with_ids = match ids {
        Some(l) => base.push(("ids"@, joined(l))),
        None => base,
    };
    let with_page = match page {
        Some(p) => with_ids.push(("page"@, int_chars(p))),
        None => with_ids,
    };
    match pc {
        Some(ws) => with_page.push(("price_change"@, joined(price_change_tokens(ws)))),
        None => with_page,
    }
}

/// Encodes a market snapshot request.
pub fn coins_markets_query(
    vs_currency: &str,
    ids: Option<&Vec<String>>,
    ordering: &MarketOrder,
    price_change_percentage: Option<&Vec<PriceChange>>,
    sparkline: bool,
    page: Option<i64>,
) -> (r: CallParameters)
    ensures
        r@ == markets_entries(
            vs_currency@,
            match ids {
                Some(l) => Some(l.deep_view()),
                None => None,
            },
            *ordering,
            match price_change_percentage {
                Some(ws) => Some(ws@),
                None => None,
            },
            sparkline,
            match page {
                Some(p) => Some(p as int),
                None => None,
            },
        ),
{
    let mut params = CallParameters::new();
    params.add("vs_currency", vs_currency.to_owned());
    params.add("order", ordering.get_string().to_owned());
    params.add("sparkline", render_bool(sparkline).to_owned());
    if let Some(l) = ids {
        params.add("ids", join_comma(l));
    }
    if let Some(p) = page {
        params.add("page", render_i64(p));
    }
    if let Some(ws) = price_change_percentage {
        let tokens = price_change_strings(ws);
        params.add("price_change", join_comma(&tokens));
    }
    proof {
        assert(params@ =~= markets_entries(
            vs_currency@,
            match ids {
                Some(l) => Some(l.deep_view()),
                None => None,
            },
            *ordering,
            match price_change_percentage {
                Some(ws) => Some(ws@),
                None => None,
            },
            sparkline,
            match page {
                Some(p) => Some(p as int),
                None => None,
            },
        ));
    }
    params
}

/// The encoded parameters of a simple price lookup.
pub open spec fn simple_price_entries(
    ids: Seq<Seq<char>>,
    vs: Seq<Seq<char>>,
    market_cap: bool,
    vol: bool,
    change: bool,
    last_updated: bool,
    precision: Seq<char>,
) -> Seq<(Seq<char>, Seq<char>)> {
    seq![
        ("ids"@, joined(ids)),
        ("vs_currencies"@, joined(vs)),
        ("include_market_cap"@, bool_token(market_cap)),
        ("include_24hr_change"@, bool_token(change)),
        ("include_24hr_vol"@, bool_token(vol)),
        ("include_last_updated_at"@, bool_token(last_updated)),
        ("precision"@, precision),
    ]
}

/// Encodes a simple price lookup.
pub fn simple_price_query(
    ids: &Vec<String>,
    vs_currencies: &Vec<String>,
    include_market_cap: bool,
    include_24hr_vol: bool,
    include_24hr_change: bool,
    include_last_updated_at: bool,
    precision: &str,
) -> (r: CallParameters)
    ensures
        r@ == simple_price_entries(
            ids.deep_view(),
            vs_currencies.deep_view(),
            include_market_cap,
            include_24hr_vol,
            include_24hr_change,
            include_last_updated_at,
            precision@,
        ),
{
    let mut params = CallParameters::new();
    params.add("ids", join_comma(ids));
    params.add("vs_currencies", join_comma(vs_currencies));
    params.add("include_market_cap", render_bool(include_market_cap).to_owned());
    params.add("include_24hr_change", render_bool(include_24hr_change).to_owned());
    params.add("include_24hr_vol", render_bool(include_24hr_vol).to_owned());
    params.add("include_last_updated_at", render_bool(include_last_updated_at).to_owned());
    params.add("precision", precision.to_owned());
    proof {
        assert(params@ =~= simple_price_entries(
            ids.deep_view(),
            vs_currencies.deep_view(),
            include_market_cap,
            include_24hr_vol,
            include_24hr_change,
            include_last_updated_at,
            precision@,
        ));
    }
    params
}

/// The encoded parameters of a contract-scoped simple price lookup.
pub open spec fn simple_price_id_entries(
    ids: Seq<Seq<char>>,
    vs: Seq<Seq<char>>,
    contracts: Seq<Seq<char>>,
    market_cap: bool,
    vol: bool,
    change: bool,
    last_updated: bool,
    precision: Seq<char>,
) -> Seq<(Seq<char>, Seq<char>)> {
    seq![
        ("ids"@, joined(ids)),
        ("contract_addresses"@, joined(contracts)),
        ("vs_currencies"@, joined(vs)),
        ("include_market_cap"@, bool_token(market_cap)),
        ("include_24hr_change"@, bool_token(change)),
        ("include_24hr_vol"@, bool_token(vol)),
        ("include_last_updated_at"@, bool_token(last_updated)),
        ("precision"@, precision),
    ]
}

/// Encodes a contract-scoped simple price lookup.
pub fn simple_price_id_query(
    ids: &Vec<String>,
    vs_currencies: &Vec<String>,
    contract_addresses: &Vec<String>,
    include_market_cap: bool,
    include_24hr_vol: bool,
    include_24hr_change: bool,
    include_last_updated_at: bool,
    precision: &str,
) -> (r: CallParameters)
    ensures
        r@ == simple_price_id_entries(
            ids.deep_view(),
            vs_currencies.deep_view(),
            contract_addresses.deep_view(),
            include_market_cap,
            include_24hr_vol,
            include_24hr_change,
            include_last_updated_at,
            precision@,
        ),
{
    let mut params = CallParameters::new();
    params.add("ids", join_comma(ids));
    params.add("contract_addresses", join_comma(contract_addresses));
    params.add("vs_currencies", join_comma(vs_currencies));
    params.add("include_market_cap", render_bool(include_market_cap).to_owned());
    params.add("include_24hr_change", render_bool(include_24hr_change).to_owned());
    params.add("include_24hr_vol", render_bool(include_24hr_vol).to_owned());
    params.add("include_last_updated_at", render_bool(include_last_updated_at).to_owned());
    params.add("precision", precision.to_owned());
    proof {
        assert(params@ =~= simple_price_id_entries(
            ids.deep_view(),
            vs_currencies.deep_view(),
            contract_addresses.deep_view(),
            include_market_cap,
            include_24hr_vol,
            include_24hr_change,
            include_last_updated_at,
            precision@,
        ));
    }
    params
}

/// The encoded parameters of a token price lookup.
pub open spec fn simple_token_price_entries(
    vs: Seq<Seq<char>>,
    market_cap: bool,
    vol: bool,
    change: bool,
    last_updated: bool,
    precision: Seq<char>,
    contracts: Seq<Seq<char>>,
) -> Seq<(Seq<char>, Seq<char>)> {
    seq![
        ("vs_currencies"@, joined(vs)),
        ("include_market_cap"@, bool_token(market_cap)),
        ("include_24hr_change"@, bool_token(change)),
        ("include_24hr_vol"@, bool_token(vol)),
        ("include_last_updated_at"@, bool_token(last_updated)),
        ("precision"@, precision),
        ("contract_addresses"@, joined(contracts)),
    ]
}

/// Encodes a token price lookup.
pub fn simple_token_price_query(
    vs_currencies: &Vec<String>,
    contract_addresses: &Vec<String>,
    include_market_cap: bool,
    include_24hr_vol: bool,
    include_24hr_change: bool,
    include_last_updated_at: bool,
    precision: &str,
) -> (r: CallParameters)
    ensures
        r@ == simple_token_price_entries(
            vs_currencies.deep_view(),
            include_market_cap,
            include_24hr_vol,
            include_24hr_change,
            include_last_updated_at,
            precision@,
            contract_addresses.deep_view(),
        ),
{
    let mut params = CallParameters::new();
    params.add("vs_currencies", join_comma(vs_currencies));
    params.add("include_market_cap", render_bool(include_market_cap).to_owned());
    params.add("include_24hr_change", render_bool(include_24hr_change).to_owned());
    params.add("include_24hr_vol", render_bool(include_24hr_vol).to_owned());
    params.add("include_last_updated_at", render_bool(include_last_updated_at).to_owned());
    params.add("precision", precision.to_owned());
    params.add("contract_addresses", join_comma(contract_addresses));
    proof {
        assert(params@ =~= simple_token_price_entries(
            vs_currencies.deep_view(),
            include_market_cap,
            include_24hr_vol,
            include_24hr_change,
            include_last_updated_at,
            precision@,
            contract_addresses.deep_view(),
        ));
    }
    params
}

/// The encoded parameters of a coin catalogue request: platform data is
/// always asked for.
pub open spec fn coins_list_entries() -> Seq<(Seq<char>, Seq<char>)> {
    seq![("include_platform"@, "true"@)]
}

/// Encodes a coin catalogue request.
pub fn coins_list_query() -> (r: CallParameters)
    ensures
        r@ == coins_list_entries(),
{
    let mut params = CallParameters::new();
    params.add("include_platform", render_bool(true).to_owned());
    proof {
        assert(params@ =~= coins_list_entries());
    }
    params
}

/// The encoded parameters of a coin detail request: the six feature
/// toggles, in the documented order.
pub open spec fn coins_entries(
    localization: bool,
    tickers: bool,
    market_data: bool,
    community_data: bool,
    developer_data: bool,
    sparkline: bool,
) -> Seq<(Seq<char>, Seq<char>)> {
    seq![
        ("localization"@, bool_token(localization)),
        ("tickers"@, bool_token(tickers)),
        ("market_data"@, bool_token(market_data)),
        ("community_data"@, bool_token(community_data)),
        ("developer_data"@, bool_token(developer_data)),
        ("sparkline"@, bool_token(sparkline)),
    ]
}

/// Encodes a coin detail request.
pub fn coins_query(
    localization: bool,
    tickers: bool,
    market_data: bool,
    community_data: bool,
    developer_data: bool,
    sparkline: bool,
) -> (r: CallParameters)
    ensures
        r@ == coins_entries(
            localization,
            tickers,
            market_data,
            community_data,
            developer_data,
            sparkline,
        ),
{
    let mut params = CallParameters::new();
    params.add("localization", render_bool(localization).to_owned());
    params.add("tickers", render_bool(tickers).to_owned());
    params.add("market_data", render_bool(market_data).to_owned());
    params.add("community_data", render_bool(community_data).to_owned());
    params.add("developer_data", render_bool(developer_data).to_owned());
    params.add("sparkline", render_bool(sparkline).to_owned());
    proof {
        assert(params@ =~= coins_entries(
            localization,
            tickers,
            market_data,
            community_data,
            developer_data,
            sparkline,
        ));
    }
    params
}

/// The encoded parameters of a ticker listing request.
pub open spec fn coins_tickers_entries(
    exchange_ids: Option<Seq<Seq<char>>>,
    include_exchange_logo: bool,
    page: int,
    order: TrustOrder,
) -> Seq<(Seq<char>, Seq<char>)> {
    let base = seq![
        ("include_exchange_logo"@, bool_token(include_exchange_logo)),
        ("page"@, int_chars(page)),
        ("order"@, trust_order_token(order)),
    ];
    match exchange_ids {
        Some(l) => base.push(("exchange_ids"@, joined(l))),
        None => base,
    }
}

/// Encodes a ticker listing request.
pub fn coins_tickers_query(
    exchange_ids: Option<&Vec<String>>,
    include_exchange_logo: bool,
    page: i64,
    order: &TrustOrder,
) -> (r: CallParameters)
    ensures
        r@ == coins_tickers_entries(
            match exchange_ids {
                Some(l) => Some(l.deep_view()),
                None => None,
            },
            include_exchange_logo,
            page as int,
            *order,
        ),
{
    let mut params = CallParameters::new();
    params.add("include_exchange_logo", render_bool(include_exchange_logo).to_owned());
    params.add("page", render_i64(page));
    params.add("order", order.get_string().to_owned());
    if let Some(l) = exchange_ids {
        params.add("exchange_ids", join_comma(l));
    }
    proof {
        assert(params@ =~= coins_tickers_entries(
            match exchange_ids {
                Some(l) => Some(l.deep_view()),
                None => None,
            },
            include_exchange_logo,
            page as int,
            *order,
        ));
    }
    params
}

/// The encoded parameters of a historical snapshot request: the encoded
/// date, then the localization filter where given.
pub open spec fn coins_history_entries(
    date: Date,
    localization: Option<Seq<char>>,
) -> Seq<(Seq<char>, Seq<char>)> {
    let base = seq![("date"@, date.token())];
    match localization {
        Some(l) => base.push(("localization"@, l)),
        None => base,
    }
}

/// Encodes a historical snapshot request.
pub fn coins_history_query(date: &Date, localization: Option<&str>) -> (r: CallParameters)
    requires
        date.wf(),
    ensures
        r@ == coins_history_entries(
            *date,
            match localization {
                Some(l) => Some(l@),
                None => None,
            },
        ),
{
    let mut params = CallParameters::new();
    params.add("date", date.get_string());
    if let Some(l) = localization {
        params.add("localization", l.to_owned());
    }
    proof {
        assert(params@ =~= coins_history_entries(
            *date,
            match localization {
                Some(l) => Some(l@),
                None => None,
            },
        ));
    }
    params
}

/// The encoded parameters of a market-chart request.
pub open spec fn marketchart_entries(
    vs: Seq<char>,
    days: Seq<char>,
    interval: Option<Seq<char>>,
) -> Seq<(Seq<char>, Seq<char>)> {
    let base = seq![("vs_currency"@, vs), ("days"@, days)];
    match interval {
        Some(i) => base.push(("interval"@, i)),
        None => base,
    }
}

/// Encodes a market-chart request.
pub fn coins_marketchart_query(vs_currency: &str, days: &str, interval: Option<&str>) -> (r:
    CallParameters)
    ensures
        r@ == marketchart_entries(
            vs_currency@,
            days@,
            match interval {
                Some(i) => Some(i@),
                None => None,
            },
        ),
{
    let mut params = CallParameters::new();
    params.add("vs_currency", vs_currency.to_owned());
    params.add("days", days.to_owned());
    if let Some(i) = interval {
        params.add("interval", i.to_owned());
    }
    proof {
        assert(params@ =~= marketchart_entries(
            vs_currency@,
            days@,
            match interval {
                Some(i) => Some(i@),
                None => None,
            },
        ));
    }
    params
}

/// The encoded parameters of a ranged market-chart request.
pub open spec fn marketchart_range_entries(
    vs: Seq<char>,
    from: Seq<char>,
    to: Seq<char>,
) -> Seq<(Seq<char>, Seq<char>)> {
    seq![("vs_currency"@, vs), ("from"@, from), ("to"@, to)]
}

/// Encodes a ranged market-chart request.
pub fn coins_marketchart_range_query(vs_currency: &str, from: &str, to: &str) -> (r:
    CallParameters)
    ensures
        r@ == marketchart_range_entries(vs_currency@, from@, to@),
{
    let mut params = CallParameters::new();
    params.add("vs_currency", vs_currency.to_owned());
    params.add("from", from.to_owned());
    params.add("to", to.to_owned());
    proof {
        assert(params@ =~= marketchart_range_entries(vs_currency@, from@, to@));
    }
    params
}

/// The encoded parameters of a candle request.
pub open spec fn ohlc_entries(vs: Seq<char>, days: Seq<char>) -> Seq<(Seq<char>, Seq<char>)> {
    seq![("vs_currency"@, vs), ("days"@, days)]
}

/// Encodes a candle request.
pub fn coins_ohlc_query(vs_currency: &str, days: &str) -> (r: CallParameters)
    ensures
        r@ == ohlc_entries(vs_currency@, days@),
{
    let mut params = CallParameters::new();
    params.add("vs_currency", vs_currency.to_owned());
    params.add("days", days.to_owned());
    proof {
        assert(params@ =~= ohlc_entries(vs_currency@, days@));
    }
    params
}

/// The encoded parameters of an asset-platform listing: the filter where
/// given, else nothing at all.
pub open spec fn assetplatforms_entries(filter: Option<Seq<char>>) -> Seq<(Seq<char>, Seq<char>)> {
    match filter {
        Some(f) => seq![("filter"@, f)],
        None => Seq::empty(),
    }
}

/// Encodes an asset-platform listing request.
pub fn assetplatforms_query(filter: Option<&str>) -> (r: CallParameters)
    ensures
        r@ == assetplatforms_entries(
            match filter {
                Some(f) => Some(f@),
                None => None,
            },
        ),
{
    let mut params = CallParameters::new();
    if let Some(f) = filter {
        params.add("filter", f.to_owned());
    }
    proof {
        assert(params@ =~= assetplatforms_entries(
            match filter {
                Some(f) => Some(f@),
                None => None,
            },
        ));
    }
    params
}

/// The encoder emits no pair for an absent localization filter and one
/// pair for a present one; the encoded date is always exactly one pair.
pub proof fn lemma_history_entries_presence(date: Date, localization: Option<Seq<char>>)
    ensures
        key_count(coins_history_entries(date, localization), "date"@) == 1,
        key_count(coins_history_entries(date, localization), "localization"@) == (
        if localization is Some {
            1int
        } else {
            0int
        }),
{
    reveal_strlit("date");
    reveal_strlit("localization");
    assert("date"@.len() == 4);
    assert("localization"@.len() == 12);
    let base = seq![("date"@, date.token())];
    assert(base.drop_last() =~= Seq::<(Seq<char>, Seq<char>)>::empty());
    assert(key_count(Seq::<(Seq<char>, Seq<char>)>::empty(), "date"@) == 0);
    assert(key_count(Seq::<(Seq<char>, Seq<char>)>::empty(), "localization"@) == 0);
    assert(base.len() == 1 && base.last().0 == "date"@);
    assert(key_count(base, "date"@) == 1);
    assert(key_count(base, "localization"@) == 0);
    match localization {
        Some(l) => {
            lemma_key_count_push(base, ("localization"@, l), "date"@);
            lemma_key_count_push(base, ("localization"@, l), "localization"@);
        },
        None => (),
    }
}

/// How often a key occurs in an encoded parameter list.
pub open spec fn key_count(es: Seq<(Seq<char>, Seq<char>)>, key: Seq<char>) -> int
    decreases es.len(),
{
    if es.len() == 0 {
        0
    } else {
        key_count(es.drop_last(), key) + if es.last().0 == key {
            1int
        } else {
            0int
        }
    }
}

proof fn lemma_key_count_push(es: Seq<(Seq<char>, Seq<char>)>, p: (Seq<char>, Seq<char>), key: Seq<char>)
    ensures
        key_count(es.push(p), key) == key_count(es, key) + if p.0 == key {
            1int
        } else {
            0int
        },
{
    assert(es.push(p).drop_last() =~= es);
    assert(es.push(p).last() == p);
}

/// The encoder emits no pair for an absent optional argument and exactly
/// one pair for each present argument: in a market snapshot request,
/// each required key occurs once, and each optional key occurs exactly
/// as often as its argument is present.
pub proof fn lemma_markets_entries_presence(
    vs: Seq<char>,
    ids: Option<Seq<Seq<char>>>,
    order: MarketOrder,
    pc: Option<Seq<PriceChange>>,
    sparkline: bool,
    page: Option<int>,
)
    ensures
        key_count(markets_entries(vs, ids, order, pc, sparkline, page), "vs_currency"@) == 1,
        key_count(markets_entries(vs, ids, order, pc, sparkline, page), "order"@) == 1,
        key_count(markets_entries(vs, ids, order, pc, sparkline, page), "sparkline"@) == 1,
        key_count(markets_entries(vs, ids, order, pc, sparkline, page), "ids"@) == (
        if ids is Some {
            1int
        } else {
            0int
        }),
        key_count(markets_entries(vs, ids, order, pc, sparkline, page), "page"@) == (
        if page is Some {
            1int
        } else {
            0int
        }),
        key_count(markets_entries(vs, ids, order, pc, sparkline, page), "price_change"@) == (
        if pc is Some {
            1int
        } else {
            0int
        }),
{
    reveal_strlit("vs_currency");
    reveal_strlit("order");
    reveal_strlit("sparkline");
    reveal_strlit("ids");
    reveal_strlit("page");
    reveal_strlit("price_change");
    let base = seq![
        ("vs_currency"@, vs),
        ("order"@, market_order_token(order)),
        ("sparkline"@, bool_token(sparkline)),
    ];
    let keys = seq!["vs_currency"@, "order"@, "sparkline"@, "ids"@, "page"@, "price_change"@];
    assert forall|ki: int, kj: int|
        0 <= ki < 6 && 0 <= kj < 6 && ki != kj implies keys[ki] != keys[kj] by {
        assert(keys[0].len() == 11);
        assert(keys[1].len() == 5);
        assert(keys[2].len() == 9);
        assert(keys[3].len() == 3);
        assert(keys[4].len() == 4);
        assert(keys[5].len() == 12);
    }
    let b2 = seq![("vs_currency"@, vs), ("order"@, market_order_token(order))];
    let b1 = seq![("vs_currency"@, vs)];
    let b0 = Seq::<(Seq<char>, Seq<char>)>::empty();
    assert(base.drop_last() =~= b2);
    assert(b2.drop_last() =~= b1);
    assert(b1.drop_last() =~= b0);
    assert forall|k: int| 0 <= k < 6 implies key_count(base, keys[k]) == (
    if k < 3 {
        1int
    } else {
        0int
    }) by {
        assert(key_count(b0, keys[k]) == 0);
        assert(key_count(b1, keys[k]) == key_count(b0, keys[k]) + (
        if b1.last().0 == keys[k] {
            1int
        } else {
            0int
        }));
        assert(key_count(b2, keys[k]) == key_count(b1, keys[k]) + (
        if b2.last().0 == keys[k] {
            1int
        } else {
            0int
        }));
        assert(key_count(base, keys[k]) == key_count(b2, keys[k]) + (
        if base.last().0 == keys[k] {
            1int
        } else {
            0int
        }));
        assert(b1.last().0 == keys[0]);
        assert(b2.last().0 == keys[1]);
        assert(base.last().0 == keys[2]);
    }
    let with_ids = match ids {
        Some(l) => base.push(("ids"@, joined(l))),
        None => base,
    };
    let with_page = match page {
        Some(p) => with_ids.push(("page"@, int_chars(p))),
        None => with_ids,
    };
    let full = match pc {
        Some(ws) => with_page.push(("price_change"@, joined(price_change_tokens(ws)))),
        None => with_page,
    };
    assert forall|k: int| 0 <= k < 6 implies {
        &&& key_count(with_ids, keys[k]) == key_count(base, keys[k]) + (
        if ids is Some && keys[k] == "ids"@ {
            1int
        } else {
            0int
        })
        &&& key_count(with_page, keys[k]) == key_count(with_ids, keys[k]) + (
        if page is Some && keys[k] == "page"@ {
            1int
        } else {
            0int
        })
        &&& key_count(full, keys[k]) == key_count(with_page, keys[k]) + (
        if pc is Some && keys[k] == "price_change"@ {
            1int
        } else {
            0int
        })
    } by {
        match ids {
            Some(l) => lemma_key_count_push(base, ("ids"@, joined(l)), keys[k]),
            None => (),
        }
        match page {
            Some(p) => lemma_key_count_push(with_ids, ("page"@, int_chars(p)), keys[k]),
            None => (),
        }
        match pc {
            Some(ws) => lemma_key_count_push(
                with_page,
                ("price_change"@, joined(price_change_tokens(ws))),
                keys[k],
            ),
            None => (),
        }
    }
    assert(markets_entries(vs, ids, order, pc, sparkline, page) == full);
}

} // verus!
