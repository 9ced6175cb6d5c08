//! Translators: each narrows the generic envelope into one exact domain
//! message, and rejects an envelope whose payload belongs to another
//! family rather than coerce it.

use vstd::prelude::*;
use crate::dec::Dec;
use crate::envelope::{
    RawChannelMessage, RawChannelMessageView, RawChannelMessageData, RawChannelMessageDataView,
    OrderBookData, OrderBookDataView, OrderBookEntry,
};

verus! {

broadcast use vstd::seq::group_seq_axioms;

/// The side of a trade, from the wire's integer code.
#[derive(Debug, Clone, Copy, PartialEq, Eq, Structural)]
pub enum OrderSide {
    Buy,
    Sell,
}

/// One of the caller's own fills, fully typed.
#[derive(Debug)]
pub struct AccountDealsMessage {
    pub asset: String,
    pub trade_type: OrderSide,
    pub trade_time_millis: i64,
    pub client_order_id: String,
    pub order_id: String,
    pub is_maker: bool,
    pub price: Dec,
    pub is_self_trade: bool,
    pub trade_id: String,
    pub quantity: Dec,
    pub deals_amount: Dec,
    pub commission_fee: Dec,
    pub commission_asset: String,
    pub event_time_millis: i64,
}

pub struct AccountDealsMessageView {
    pub asset: Seq<char>,
    pub trade_type: OrderSide,
    pub trade_time_millis: i64,
    pub client_order_id: Seq<char>,
    pub order_id: Seq<char>,
    pub is_maker: bool,
    pub price: Dec,
    pub is_self_trade: bool,
    pub trade_id: Seq<char>,
    pub quantity: Dec,
    pub deals_amount: Dec,
    pub commission_fee: Dec,
    pub commission_asset: Seq<char>,
    pub event_time_millis: i64,
}

impl View for AccountDealsMessage {
    type V = AccountDealsMessageView;

    open spec fn view(&self) -> AccountDealsMessageView {
        AccountDealsMessageView {
            asset: self.asset@,
            trade_type: self.trade_type,
            trade_time_millis: self.trade_time_millis,
            client_order_id: self.client_order_id@,
            order_id: self.order_id@,
            is_maker: self.is_maker,
            price: self.price,
            is_self_trade: self.is_self_trade,
            trade_id: self.trade_id@,
            quantity: self.quantity,
            deals_amount: self.deals_amount,
            commission_fee: self.commission_fee,
            commission_asset: self.commission_asset@,
            event_time_millis: self.event_time_millis,
        }
    }
}

#[derive(Debug, Clone, Copy, PartialEq, Eq, Structural)]
pub enum ChannelMessageToAccountDealsMessageError {
    InvalidChannelMessage,
}

/// What the account-deals translator yields: `Some` exactly when the
/// envelope carries an account-deals payload, a symbol, and a side code of
/// 1 (buy) or 2 (sell).
pub open spec fn spec_account_deals_message(env: RawChannelMessageView) -> Option<
    AccountDealsMessageView,
> {
    match env.data {
        RawChannelMessageDataView::AccountDeals(ad) => match env.symbol {
            Some(sym) => if ad.side == 1 || ad.side == 2 {
                Some(
                    AccountDealsMessageView {
                        asset: sym,
                        trade_type: if ad.side == 1 {
                            OrderSide::Buy
                        } else {
                            OrderSide::Sell
                        },
                        trade_time_millis: ad.trade_time_millis,
                        client_order_id: ad.client_order_id,
                        order_id: ad.order_id,
                        is_maker: ad.maker == 1,
                        price: ad.price,
                        is_self_trade: ad.self_trade == 1,
                        trade_id: ad.trade_id,
                        quantity: ad.quantity,
                        deals_amount: ad.deals_amount,
                        commission_fee: ad.commission_fee,
                        commission_asset: ad.commission_asset,
                        event_time_millis: env.timestamp_millis,
                    },
                )
            } else {
                None
            },
            None => None,
        },
        _ => None,
    }
}

/// Narrows an envelope to an account-deals message; any envelope of
/// another shape is rejected, never coerced.
pub fn channel_message_to_account_deals_message(message: &RawChannelMessage) -> (r: Result<
    AccountDealsMessage,
    ChannelMessageToAccountDealsMessageError,
>)
    ensures
        match spec_account_deals_message(message@) {
            Some(mv) => r matches Ok(m) && m@ == mv,
            None => r matches Err(e) && e
                == ChannelMessageToAccountDealsMessageError::InvalidChannelMessage,
        },
{
    let account_deals_data = match &message.data {
        RawChannelMessageData::AccountDeals(ad) => ad,
        _ => {
            return Err(ChannelMessageToAccountDealsMessageError::InvalidChannelMessage);
        },
    };
    let asset = match &message.symbol {
        Some(sym) => sym.clone(),
        None => {
            return Err(ChannelMessageToAccountDealsMessageError::InvalidChannelMessage);
        },
    };
    let trade_type = if account_deals_data.side == 1 {
        OrderSide::Buy
    } else if account_deals_data.side == 2 {
        OrderSide::Sell
    } else {
        return Err(ChannelMessageToAccountDealsMessageError::InvalidChannelMessage);
    };
    Ok(
        AccountDealsMessage {
            asset,
            trade_type,
            trade_time_millis: account_deals_data.trade_time_millis,
            client_order_id: account_deals_data.client_order_id.clone(),
            order_id: account_deals_data.order_id.clone(),
            is_maker: account_deals_data.maker == 1,
            price: account_deals_data.price,
            is_self_trade: account_deals_data.self_trade == 1,
            trade_id: account_deals_data.trade_id.clone(),
            quantity: account_deals_data.quantity,
            deals_amount: account_deals_data.deals_amount,
            commission_fee: account_deals_data.commission_fee,
            commission_asset: account_deals_data.commission_asset.clone(),
            event_time_millis: message.timestamp_millis,
        },
    )
}

/// An order-book snapshot or delta for one symbol.
#[derive(Debug)]
pub struct SpotDepthOrderbookMessage {
    pub symbol: String,
    pub orderbook: OrderBookData,
    pub timestamp_millis: i64,
}

pub struct SpotDepthOrderbookMessageView {
    pub symbol: Seq<char>,
    pub orderbook: OrderBookDataView,
    pub timestamp_millis: i64,
}

impl View for SpotDepthOrderbookMessage {
    type V = SpotDepthOrderbookMessageView;

    open spec fn view(&self) -> SpotDepthOrderbookMessageView {
        SpotDepthOrderbookMessageView {
            symbol: self.symbol@,
            orderbook: self.orderbook@,
            timestamp_millis: self.timestamp_millis,
        }
    }
}

#[derive(Debug, Clone, Copy, PartialEq, Eq, Structural)]
pub enum ChannelMessageToSpotDealsMessageError {
    NoDepthOrderbookMessage,
}

/// What the order-book translator yields: `Some` exactly when the envelope
/// carries an order-book payload and a symbol.
pub open spec fn spec_orderbook_message(env: RawChannelMessageView) -> Option<
    SpotDepthOrderbookMessageView,
> {
    match env.data {
        RawChannelMessageDataView::OrderBook(ob) => match env.symbol {
            Some(sym) => Some(
                SpotDepthOrderbookMessageView {
                    symbol: sym,
                    orderbook: ob,
                    timestamp_millis: env.timestamp_millis,
                },
            ),
            None => None,
        },
        _ => None,
    }
}

fn copy_entries(src: &Vec<OrderBookEntry>) -> (r: Vec<OrderBookEntry>)
    ensures
        r@ == src@,
{
    let n = src.len();
    let mut out: Vec<OrderBookEntry> = Vec::new();
    let mut i: usize = 0;
    while i < n
        invariant
            0 <= i <= n,
            n == src@.len(),
            out@ == src@.subrange(0, i as int),
        decreases n - i,
    {
        out.push(src[i]);
        proof {
            assert(out@ =~= src@.subrange(0, i + 1));
        }
        i = i + 1;
    }
    proof {
        assert(src@.subrange(0, n as int) =~= src@);
    }
    out
}

/// Narrows an envelope to an order-book message; any envelope of another
/// shape is rejected.
pub fn channel_message_to_orderbook_depth_message(channel_message: &RawChannelMessage) -> (r:
    Result<SpotDepthOrderbookMessage, ChannelMessageToSpotDealsMessageError>)
    ensures
        match spec_orderbook_message(channel_message@) {
            Some(mv) => r matches Ok(m) && m@ == mv,
            None => r matches Err(e) && e
                == ChannelMessageToSpotDealsMessageError::NoDepthOrderbookMessage,
        },
{
    let symbol = match &channel_message.symbol {
        Some(sym) => sym.clone(),
        None => {
            return Err(ChannelMessageToSpotDealsMessageError::NoDepthOrderbookMessage);
        },
    };
    let orderbook = match &channel_message.data {
        RawChannelMessageData::OrderBook(ob) => OrderBookData {
            asks: copy_entries(&ob.asks),
            bids: copy_entries(&ob.bids),
        },
        _ => {
            return Err(ChannelMessageToSpotDealsMessageError::NoDepthOrderbookMessage);
        },
    };
    Ok(
        SpotDepthOrderbookMessage {
            symbol,
            orderbook,
            timestamp_millis: channel_message.timestamp_millis,
        },
    )
}

} // verus!
