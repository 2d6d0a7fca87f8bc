//! Builders for the subscription channel names: the symbol is lowercased and
//! the channel suffix appended.

use vstd::prelude::*;
use vstd::string::*;

use crate::text::{lower_of, to_lowercase};

verus! {

pub fn stream_name_trade(symbol: &str) -> (r: String)
    ensures
        r@ == lower_of(symbol@) + "@trade"@,
{
    let mut s = to_lowercase(symbol);
    s.append("@trade");
    s
}

pub fn stream_name_aggtrade(symbol: &str) -> (r: String)
    ensures
        r@ == lower_of(symbol@) + "@aggTrade"@,
{
    let mut s = to_lowercase(symbol);
    s.append("@aggTrade");
    s
}

pub fn stream_name_kline(symbol: &str, interval: &str) -> (r: String)
    ensures
        r@ == lower_of(symbol@) + "@kline_"@ + interval@,
{
    let mut s = to_lowercase(symbol);
    s.append("@kline_");
    s.append(interval);
    proof {
        assert(s@ =~= lower_of(symbol@) + "@kline_"@ + interval@);
    }
    s
}

pub fn stream_name_liquidation(symbol: &str) -> (r: String)
    ensures
        r@ == lower_of(symbol@) + "@forceOrder"@,
{
    let mut s = to_lowercase(symbol);
    s.append("@forceOrder");
    s
}

pub fn stream_name_ticker(symbol: &str) -> (r: String)
    ensures
        r@ == lower_of(symbol@) + "@ticker"@,
{
    let mut s = to_lowercase(symbol);
    s.append("@ticker");
    s
}

} // verus!
