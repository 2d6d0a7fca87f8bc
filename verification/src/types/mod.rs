//! Request datatypes shared by both markets.

use vstd::prelude::*;

use crate::text::{spec_u64_dec, u64_to_dec};

pub mod interval;

verus! {

/// A cancel-order request, valid for both markets: the order is named either
/// by the exchange's order id or by the client's own id.
#[derive(Debug, Clone)]
pub struct CancelOrder {
    pub symbol: String,
    pub order_id: Option<u64>,
    pub client_order_id: Option<String>,
}

/// The form fields a cancel request serializes to, in declaration order,
/// absent fields skipped.
pub open spec fn spec_cancel_pairs(c: CancelOrder) -> Seq<(Seq<char>, Seq<char>)> {
    let base = seq![("symbol"@, c.symbol@)];
    let with_order = match c.order_id {
        Some(id) => base.push(("orderId"@, spec_u64_dec(id as nat))),
        None => base,
    };
    match c.client_order_id {
        Some(cid) => with_order.push(("origClientOrderId"@, cid@)),
        None => with_order,
    }
}

impl CancelOrder {
    pub fn by_order_id(symbol: &str, order_id: u64) -> (r: Self)
        ensures
            r.symbol@ == symbol@,
            r.order_id == Some(order_id),
            r.client_order_id is None,
    {
        CancelOrder { symbol: symbol.to_owned(), order_id: Some(order_id), client_order_id: None }
    }

    pub fn by_client_order_id(symbol: &str, client_order_id: &str) -> (r: Self)
        ensures
            r.symbol@ == symbol@,
            r.order_id is None,
            (r.client_order_id matches Some(c) && c@ == client_order_id@),
    {
        CancelOrder {
            symbol: symbol.to_owned(),
            order_id: None,
            client_order_id: Some(client_order_id.to_owned()),
        }
    }

    /// The request's form fields, ready for encoding.
    pub fn form_pairs(&self) -> (r: Vec<(String, String)>)
        ensures
            crate::text::spec_pair_views(r@) == spec_cancel_pairs(*self),
    {
        let mut pairs: Vec<(String, String)> = Vec::new();
        pairs.push(("symbol".to_owned(), self.symbol.clone()));
        if let Some(id) = self.order_id {
            pairs.push(("orderId".to_owned(), u64_to_dec(id)));
        }
        if let Some(cid) = &self.client_order_id {
            pairs.push(("origClientOrderId".to_owned(), cid.clone()));
        }
        proof {
            assert(crate::text::spec_pair_views(pairs@) =~= spec_cancel_pairs(*self));
        }
        pairs
    }
}

/// How long an order stays working.
#[derive(Debug, Clone, PartialEq, Eq, Structural)]
pub enum TimeInForce {
    /// Good till cancel.
    GTC,
    /// Immediate or cancel.
    IOC,
    /// Fill or kill.
    FOK,
    /// Good till cross (post only).
    GTX,
}

impl TimeInForce {
    /// The wire name of the policy.
    pub fn as_str(&self) -> (r: &'static str)
        ensures
            *self is GTC ==> r@ == "GTC"@,
            *self is IOC ==> r@ == "IOC"@,
            *self is FOK ==> r@ == "FOK"@,
            *self is GTX ==> r@ == "GTX"@,
    {
        match self {
            TimeInForce::GTC => "GTC",
            TimeInForce::IOC => "IOC",
            TimeInForce::FOK => "FOK",
            TimeInForce::GTX => "GTX",
        }
    }
}

} // verus!
