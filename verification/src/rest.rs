//! Value types of the REST endpoints this layer models, and the rule that
//! turns the exchange's generic response shell into a result: a payload is
//! success, anything else is an application-level rejection, distinct from
//! a transport failure.

use vstd::prelude::*;
use crate::dec::Dec;
use crate::numfmt::{spec_u64_dec, u64_to_dec_string};
use crate::sign::pairs_view;

verus! {

broadcast use vstd::seq::group_seq_axioms;

/// Parameters of the order-book depth endpoint.
#[derive(Debug)]
pub struct DepthParams {
    pub symbol: String,
    /// Return number, default 100, largest 5000.
    pub limit: Option<u32>,
}

/// One order-book level of the depth endpoint.
#[derive(Debug, Clone, Copy, PartialEq, Eq, Structural)]
pub struct PriceAndQuantity {
    pub price: Dec,
    pub quantity: Dec,
}

/// The depth endpoint's payload.
#[derive(Debug)]
pub struct DepthOutput {
    pub last_update_id: u64,
    pub bids: Vec<PriceAndQuantity>,
    pub asks: Vec<PriceAndQuantity>,
}

/// Parameters of the recent-trades endpoint.
#[derive(Debug)]
pub struct TradesParams {
    pub symbol: String,
    /// Default 500, largest 1000.
    pub limit: Option<u32>,
}

/// Which book side a public trade hit.
#[derive(Debug, Clone, Copy, PartialEq, Eq, Structural)]
pub enum TradeType {
    Bid,
    Ask,
}

/// One public trade of the recent-trades endpoint. The identifier is
/// optional and, as the exchange sends it today, always absent.
#[derive(Debug)]
pub struct Trade {
    pub id: Option<String>,
    pub price: Dec,
    pub quantity: Dec,
    pub quote_quantity: Dec,
    /// Trade time, epoch seconds (this endpoint's unit).
    pub time_seconds: i64,
    pub is_buyer_maker: bool,
    pub is_best_match: bool,
    pub trade_type: TradeType,
}

/// The recent-trades endpoint's payload.
#[derive(Debug)]
pub struct TradesOutput {
    pub trades: Vec<Trade>,
}

/// An application-level rejection the exchange reported in a response.
#[derive(Debug)]
pub struct ApiError {
    pub code: i32,
    pub message: String,
}

/// The exchange's generic response shell: either a payload, or a code and
/// message.
#[derive(Debug)]
pub struct ApiResponse<T> {
    pub code: Option<i32>,
    pub msg: Option<String>,
    pub data: Option<T>,
}

impl<T> ApiResponse<T> {
    /// A payload is success; a shell without one is the reported error,
    /// code and message carried over (zero and empty when absent).
    pub fn into_api_result(self) -> (r: Result<T, ApiError>)
        ensures
            self.data matches Some(d) ==> (r matches Ok(x) && x == d),
            self.data is None ==> (r matches Err(e) && e.code == (match self.code {
                Some(c) => c,
                None => 0,
            }) && e.message@ == (match self.msg {
                Some(m) => m@,
                None => Seq::<char>::empty(),
            })),
    {
        match self.data {
            Some(d) => Ok(d),
            None => {
                let code = match self.code {
                    Some(c) => c,
                    None => 0,
                };
                let message = match self.msg {
                    Some(m) => m,
                    None => String::new(),
                };
                Err(ApiError { code, message })
            },
        }
    }
}

/// The ordered query pairs of the depth endpoint, as they are signed and
/// sent: the symbol, then the limit when one is given.
pub fn depth_query_pairs(params: &DepthParams) -> (r: Vec<(String, String)>)
    ensures
        pairs_view(r@) == (match params.limit {
            Some(l) => seq![("symbol"@, params.symbol@), ("limit"@, spec_u64_dec(l as nat))],
            None => seq![("symbol"@, params.symbol@)],
        }),
{
    let mut out: Vec<(String, String)> = Vec::new();
    out.push((String::from_str("symbol"), params.symbol.clone()));
    match params.limit {
        Some(l) => {
            out.push((String::from_str("limit"), u64_to_dec_string(l as u64)));
            proof {
                assert(pairs_view(out@) =~= seq![
                    ("symbol"@, params.symbol@),
                    ("limit"@, spec_u64_dec(l as nat)),
                ]);
            }
        },
        None => {
            proof {
                assert(pairs_view(out@) =~= seq![("symbol"@, params.symbol@)]);
            }
        },
    }
    out
}

/// The ordered query pairs of the recent-trades endpoint.
pub fn trades_query_pairs(params: &TradesParams) -> (r: Vec<(String, String)>)
    ensures
        pairs_view(r@) == (match params.limit {
            Some(l) => seq![("symbol"@, params.symbol@), ("limit"@, spec_u64_dec(l as nat))],
            None => seq![("symbol"@, params.symbol@)],
        }),
{
    let mut out: Vec<(String, String)> = Vec::new();
    out.push((String::from_str("symbol"), params.symbol.clone()));
    match params.limit {
        Some(l) => {
            out.push((String::from_str("limit"), u64_to_dec_string(l as u64)));
            proof {
                assert(pairs_view(out@) =~= seq![
                    ("symbol"@, params.symbol@),
                    ("limit"@, spec_u64_dec(l as nat)),
                ]);
            }
        },
        None => {
            proof {
                assert(pairs_view(out@) =~= seq![("symbol"@, params.symbol@)]);
            }
        },
    }
    out
}

} // verus!
