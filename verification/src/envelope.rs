//! Decoding of one inbound streaming frame into a generic envelope: a
//! channel tag, an optional symbol, a receive timestamp, and a payload
//! variant chosen by the tag's family. An unknown tag is not an error: the
//! payload is kept raw for the application to inspect.

use vstd::prelude::*;
use crate::dec::{Dec, spec_parse_dec};
use crate::json::{JsonValue, obj_get, json_parse, parse_json, get_field, take_field};

verus! {

broadcast use vstd::seq::group_seq_axioms;

/// `p` occurs contiguously somewhere in `t`.
pub open spec fn has_substring(t: Seq<char>, p: Seq<char>) -> bool {
    exists|k: int| 0 <= k <= t.len() - p.len() && #[trigger] t.subrange(k, k + p.len()) == p
}

fn match_at(t: &str, p: &str, k: usize) -> (r: bool)
    requires
        k + p@.len() <= t@.len(),
        t@.len() <= usize::MAX,
    ensures
        r == (t@.subrange(k as int, k as int + p@.len()) == p@),
{
    let pn = p.unicode_len();
    let mut j: usize = 0;
    while j < pn
        invariant
            0 <= j <= pn,
            pn == p@.len(),
            k + pn <= t@.len(),
            t@.len() <= usize::MAX,
            forall|j2: int| 0 <= j2 < j ==> t@[k + j2] == p@[j2],
        decreases pn - j,
    {
        if t.get_char(k + j) != p.get_char(j) {
            proof {
                assert(t@.subrange(k as int, k as int + p@.len())[j as int] == t@[k + j]);
            }
            return false;
        }
        j = j + 1;
    }
    proof {
        assert(t@.subrange(k as int, k as int + p@.len()) =~= p@);
    }
    true
}

/// Whether the pattern occurs in the tag.
pub fn str_contains(t: &str, p: &str) -> (r: bool)
    ensures
        r == has_substring(t@, p@),
{
    let tn = t.unicode_len();
    let pn = p.unicode_len();
    if pn > tn {
        return false;
    }
    if pn == 0 {
        proof {
            assert(p@ =~= Seq::<char>::empty());
            assert(t@.subrange(0, 0 + p@.len() as int) =~= p@);
        }
        return true;
    }
    let mut k: usize = 0;
    while k <= tn - pn
        invariant
            1 <= pn <= tn,
            tn == t@.len(),
            pn == p@.len(),
            0 <= k <= tn - pn + 1,
            forall|k2: int| 0 <= k2 < k ==> #[trigger] t@.subrange(k2, k2 + pn as int) != p@,
        decreases tn + 1 - pn - k,
    {
        if match_at(t, p, k) {
            return true;
        }
        k = k + 1;
    }
    false
}

/// The payload families a channel tag can name.
#[derive(Debug, Clone, Copy, PartialEq, Eq, Structural)]
pub enum MessageFamily {
    AccountDeals,
    AccountOrders,
    AccountBalance,
    PublicDeals,
    Kline,
    OrderBook,
}

/// Which family a channel tag names, by the fragments the wire strings use.
pub open spec fn spec_family_of(tag: Seq<char>) -> Option<MessageFamily> {
    if has_substring(tag, "private.deals"@) {
        Some(MessageFamily::AccountDeals)
    } else if has_substring(tag, "private.orders"@) {
        Some(MessageFamily::AccountOrders)
    } else if has_substring(tag, "private.account"@) {
        Some(MessageFamily::AccountBalance)
    } else if has_substring(tag, "public.deals"@) {
        Some(MessageFamily::PublicDeals)
    } else if has_substring(tag, "public.kline"@) {
        Some(MessageFamily::Kline)
    } else if has_substring(tag, "public.limit.depth"@) || has_substring(
        tag,
        "public.increase.depth"@,
    ) {
        Some(MessageFamily::OrderBook)
    } else {
        None
    }
}

pub fn family_of(tag: &str) -> (r: Option<MessageFamily>)
    ensures
        r == spec_family_of(tag@),
{
    if str_contains(tag, "private.deals") {
        Some(MessageFamily::AccountDeals)
    } else if str_contains(tag, "private.orders") {
        Some(MessageFamily::AccountOrders)
    } else if str_contains(tag, "private.account") {
        Some(MessageFamily::AccountBalance)
    } else if str_contains(tag, "public.deals") {
        Some(MessageFamily::PublicDeals)
    } else if str_contains(tag, "public.kline") {
        Some(MessageFamily::Kline)
    } else if str_contains(tag, "public.limit.depth") || str_contains(
        tag,
        "public.increase.depth",
    ) {
        Some(MessageFamily::OrderBook)
    } else {
        None
    }
}

// ---- field readers over the JSON model ----

pub open spec fn spec_str_of(j: JsonValue) -> Option<Seq<char>> {
    match j {
        JsonValue::Str(s) => Some(s@),
        _ => None,
    }
}

pub open spec fn spec_i64_of(j: JsonValue) -> Option<i64> {
    match j {
        JsonValue::Int(i) => Some(i),
        _ => None,
    }
}

pub open spec fn spec_u8_of(j: JsonValue) -> Option<u8> {
    match j {
        JsonValue::Int(i) => if 0 <= i <= 255 {
            Some(i as u8)
        } else {
            None
        },
        _ => None,
    }
}

/// A decimal field: a decimal string, or an integer taken at scale zero.
pub open spec fn spec_dec_of(j: JsonValue) -> Option<Dec> {
    match j {
        JsonValue::Str(s) => spec_parse_dec(s@),
        JsonValue::Int(i) => Some(Dec { mantissa: i as i128, scale: 0 }),
        _ => None,
    }
}

pub open spec fn fld_str(fs: Seq<(String, JsonValue)>, n: Seq<char>) -> Option<Seq<char>> {
    match obj_get(fs, n) {
        Some(j) => spec_str_of(j),
        None => None,
    }
}

pub open spec fn fld_i64(fs: Seq<(String, JsonValue)>, n: Seq<char>) -> Option<i64> {
    match obj_get(fs, n) {
        Some(j) => spec_i64_of(j),
        None => None,
    }
}

pub open spec fn fld_u8(fs: Seq<(String, JsonValue)>, n: Seq<char>) -> Option<u8> {
    match obj_get(fs, n) {
        Some(j) => spec_u8_of(j),
        None => None,
    }
}

pub open spec fn fld_dec(fs: Seq<(String, JsonValue)>, n: Seq<char>) -> Option<Dec> {
    match obj_get(fs, n) {
        Some(j) => spec_dec_of(j),
        None => None,
    }
}

fn as_string(j: &JsonValue) -> (r: Option<String>)
    ensures
        match r {
            Some(s) => spec_str_of(*j) == Some(s@),
            None => spec_str_of(*j) is None,
        },
{
    match j {
        JsonValue::Str(s) => Some(s.clone()),
        _ => None,
    }
}

fn as_i64(j: &JsonValue) -> (r: Option<i64>)
    ensures
        r == spec_i64_of(*j),
{
    match j {
        JsonValue::Int(i) => Some(*i),
        _ => None,
    }
}

fn as_u8(j: &JsonValue) -> (r: Option<u8>)
    ensures
        r == spec_u8_of(*j),
{
    match j {
        JsonValue::Int(i) => {
            let v = *i;
            if 0 <= v && v <= 255 {
                Some(v as u8)
            } else {
                None
            }
        },
        _ => None,
    }
}

fn as_dec(j: &JsonValue) -> (r: Option<Dec>)
    ensures
        r == spec_dec_of(*j),
{
    match j {
        JsonValue::Str(s) => Dec::parse(s.as_str()),
        JsonValue::Int(i) => Some(Dec { mantissa: *i as i128, scale: 0 }),
        _ => None,
    }
}

// ---- the account-deals payload ----

/// The raw account-deals payload, fields as the wire carries them:
/// `S` side code, `T` trade time (epoch millis), `c` client order id,
/// `i` order id, `m` maker flag, `p` price, `st` self-trade flag,
/// `t` trade id, `v` quantity, `a` amount, `n` fee, `N` fee asset.
#[derive(Debug)]
pub struct RawAccountDealsData {
    pub side: u8,
    pub trade_time_millis: i64,
    pub client_order_id: String,
    pub order_id: String,
    pub maker: u8,
    pub price: Dec,
    pub self_trade: u8,
    pub trade_id: String,
    pub quantity: Dec,
    pub deals_amount: Dec,
    pub commission_fee: Dec,
    pub commission_asset: String,
}

pub struct AccountDealsDataView {
    pub side: u8,
    pub trade_time_millis: i64,
    pub client_order_id: Seq<char>,
    pub order_id: Seq<char>,
    pub maker: u8,
    pub price: Dec,
    pub self_trade: u8,
    pub trade_id: Seq<char>,
    pub quantity: Dec,
    pub deals_amount: Dec,
    pub commission_fee: Dec,
    pub commission_asset: Seq<char>,
}

impl View for RawAccountDealsData {
    type V = AccountDealsDataView;

    open spec fn view(&self) -> AccountDealsDataView {
        AccountDealsDataView {
            side: self.side,
            trade_time_millis: self.trade_time_millis,
            client_order_id: self.client_order_id@,
            order_id: self.order_id@,
            maker: self.maker,
            price: self.price,
            self_trade: self.self_trade,
            trade_id: self.trade_id@,
            quantity: self.quantity,
            deals_amount: self.deals_amount,
            commission_fee: self.commission_fee,
            commission_asset: self.commission_asset@,
        }
    }
}

/// What an account-deals payload object must hold, field by field; `None`
/// when any required field is absent or mistyped.
pub open spec fn spec_account_deals_of(d: JsonValue) -> Option<AccountDealsDataView> {
    match d {
        JsonValue::Obj(fs) => {
            if fld_u8(fs@, "S"@) is Some && fld_i64(fs@, "T"@) is Some && fld_str(fs@, "c"@)
                is Some && fld_str(fs@, "i"@) is Some && fld_u8(fs@, "m"@) is Some && fld_dec(
                fs@,
                "p"@,
            ) is Some && fld_u8(fs@, "st"@) is Some && fld_str(fs@, "t"@) is Some && fld_dec(
                fs@,
                "v"@,
            ) is Some && fld_dec(fs@, "a"@) is Some && fld_dec(fs@, "n"@) is Some && fld_str(
                fs@,
                "N"@,
            ) is Some {
                Some(
                    AccountDealsDataView {
                        side: fld_u8(fs@, "S"@)->Some_0,
                        trade_time_millis: fld_i64(fs@, "T"@)->Some_0,
                        client_order_id: fld_str(fs@, "c"@)->Some_0,
                        order_id: fld_str(fs@, "i"@)->Some_0,
                        maker: fld_u8(fs@, "m"@)->Some_0,
                        price: fld_dec(fs@, "p"@)->Some_0,
                        self_trade: fld_u8(fs@, "st"@)->Some_0,
                        trade_id: fld_str(fs@, "t"@)->Some_0,
                        quantity: fld_dec(fs@, "v"@)->Some_0,
                        deals_amount: fld_dec(fs@, "a"@)->Some_0,
                        commission_fee: fld_dec(fs@, "n"@)->Some_0,
                        commission_asset: fld_str(fs@, "N"@)->Some_0,
                    },
                )
            } else {
                None
            }
        },
        _ => None,
    }
}

fn parse_account_deals(d: &JsonValue) -> (r: Option<RawAccountDealsData>)
    ensures
        match r {
            Some(x) => spec_account_deals_of(*d) == Some(x@),
            None => spec_account_deals_of(*d) is None,
        },
{
    let fields = match d {
        JsonValue::Obj(fs) => fs,
        _ => { return None },
    };
    let side = match get_field(fields, &String::from_str("S")) {
        Some(j) => match as_u8(j) {
            Some(x) => x,
            None => { return None },
        },
        None => { return None },
    };
    let trade_time_millis = match get_field(fields, &String::from_str("T")) {
        Some(j) => match as_i64(j) {
            Some(x) => x,
            None => { return None },
        },
        None => { return None },
    };
    let client_order_id = match get_field(fields, &String::from_str("c")) {
        Some(j) => match as_string(j) {
            Some(x) => x,
            None => { return None },
        },
        None => { return None },
    };
    let order_id = match get_field(fields, &String::from_str("i")) {
        Some(j) => match as_string(j) {
            Some(x) => x,
            None => { return None },
        },
        None => { return None },
    };
    let maker = match get_field(fields, &String::from_str("m")) {
        Some(j) => match as_u8(j) {
            Some(x) => x,
            None => { return None },
        },
        None => { return None },
    };
    let price = match get_field(fields, &String::from_str("p")) {
        Some(j) => match as_dec(j) {
            Some(x) => x,
            None => { return None },
        },
        None => { return None },
    };
    let self_trade = match get_field(fields, &String::from_str("st")) {
        Some(j) => match as_u8(j) {
            Some(x) => x,
            None => { return None },
        },
        None => { return None },
    };
    let trade_id = match get_field(fields, &String::from_str("t")) {
        Some(j) => match as_string(j) {
            Some(x) => x,
            None => { return None },
        },
        None => { return None },
    };
    let quantity = match get_field(fields, &String::from_str("v")) {
        Some(j) => match as_dec(j) {
            Some(x) => x,
            None => { return None },
        },
        None => { return None },
    };
    let deals_amount = match get_field(fields, &String::from_str("a")) {
        Some(j) => match as_dec(j) {
            Some(x) => x,
            None => { return None },
        },
        None => { return None },
    };
    let commission_fee = match get_field(fields, &String::from_str("n")) {
        Some(j) => match as_dec(j) {
            Some(x) => x,
            None => { return None },
        },
        None => { return None },
    };
    let commission_asset = match get_field(fields, &String::from_str("N")) {
        Some(j) => match as_string(j) {
            Some(x) => x,
            None => { return None },
        },
        None => { return None },
    };
    Some(
        RawAccountDealsData {
            side,
            trade_time_millis,
            client_order_id,
            order_id,
            maker,
            price,
            self_trade,
            trade_id,
            quantity,
            deals_amount,
            commission_fee,
            commission_asset,
        },
    )
}

// ---- the order-book payload ----

/// One price level: price `p` and volume `v`.
#[derive(Debug, Clone, Copy, PartialEq, Eq, Structural)]
pub struct OrderBookEntry {
    pub p: Dec,
    pub v: Dec,
}

#[derive(Debug)]
pub struct OrderBookData {
    pub asks: Vec<OrderBookEntry>,
    pub bids: Vec<OrderBookEntry>,
}

pub struct OrderBookDataView {
    pub asks: Seq<OrderBookEntry>,
    pub bids: Seq<OrderBookEntry>,
}

impl View for OrderBookData {
    type V = OrderBookDataView;

    open spec fn view(&self) -> OrderBookDataView {
        OrderBookDataView { asks: self.asks@, bids: self.bids@ }
    }
}

pub open spec fn spec_entry_of(j: JsonValue) -> Option<OrderBookEntry> {
    match j {
        JsonValue::Obj(fs) => {
            if fld_dec(fs@, "p"@) is Some && fld_dec(fs@, "v"@) is Some {
                Some(
                    OrderBookEntry { p: fld_dec(fs@, "p"@)->Some_0, v: fld_dec(fs@, "v"@)->Some_0 },
                )
            } else {
                None
            }
        },
        _ => None,
    }
}

pub open spec fn spec_entries_of(items: Seq<JsonValue>) -> Option<Seq<OrderBookEntry>>
    decreases items.len(),
{
    if items.len() == 0 {
        Some(Seq::empty())
    } else {
        match (spec_entries_of(items.drop_last()), spec_entry_of(items.last())) {
            (Some(rest), Some(e)) => Some(rest.push(e)),
            _ => None,
        }
    }
}

/// A failed level anywhere spoils the whole list.
proof fn lemma_entries_none(items: Seq<JsonValue>, i: int)
    requires
        0 <= i < items.len(),
        spec_entry_of(items[i]) is None,
    ensures
        spec_entries_of(items) is None,
    decreases items.len(),
{
    if i < items.len() - 1 {
        assert(items.drop_last()[i] == items[i]);
        lemma_entries_none(items.drop_last(), i);
    }
}

fn parse_entry(j: &JsonValue) -> (r: Option<OrderBookEntry>)
    ensures
        r == spec_entry_of(*j),
{
    let fields = match j {
        JsonValue::Obj(fs) => fs,
        _ => { return None },
    };
    let p = match get_field(fields, &String::from_str("p")) {
        Some(w) => match as_dec(w) {
            Some(x) => x,
            None => { return None },
        },
        None => { return None },
    };
    let v = match get_field(fields, &String::from_str("v")) {
        Some(w) => match as_dec(w) {
            Some(x) => x,
            None => { return None },
        },
        None => { return None },
    };
    Some(OrderBookEntry { p, v })
}

fn parse_entries(items: &Vec<JsonValue>) -> (r: Option<Vec<OrderBookEntry>>)
    ensures
        match r {
            Some(out) => spec_entries_of(items@) == Some(out@),
            None => spec_entries_of(items@) is None,
        },
{
    let n = items.len();
    let mut out: Vec<OrderBookEntry> = Vec::new();
    let mut i: usize = 0;
    proof {
        assert(items@.subrange(0, 0) =~= Seq::<JsonValue>::empty());
    }
    while i < n
        invariant
            0 <= i <= n,
            n == items@.len(),
            spec_entries_of(items@.subrange(0, i as int)) == Some(out@),
        decreases n - i,
    {
        proof {
            let pre = items@.subrange(0, i as int);
            let pushed = items@.subrange(0, i + 1);
            assert(pushed.drop_last() =~= pre);
            assert(pushed.last() == items@[i as int]);
        }
        match parse_entry(&items[i]) {
            Some(e) => {
                out.push(e);
            },
            None => {
                proof {
                    lemma_entries_none(items@, i as int);
                }
                return None;
            },
        }
        i = i + 1;
    }
    proof {
        assert(items@.subrange(0, n as int) =~= items@);
    }
    Some(out)
}

/// What an order-book payload object must hold: `asks` and `bids`, each an
/// array of well-formed levels.
pub open spec fn spec_orderbook_of(d: JsonValue) -> Option<OrderBookDataView> {
    match d {
        JsonValue::Obj(fs) => {
            let asks = match obj_get(fs@, "asks"@) {
                Some(JsonValue::Arr(items)) => spec_entries_of(items@),
                _ => None,
            };
            let bids = match obj_get(fs@, "bids"@) {
                Some(JsonValue::Arr(items)) => spec_entries_of(items@),
                _ => None,
            };
            if asks is Some && bids is Some {
                Some(OrderBookDataView { asks: asks->Some_0, bids: bids->Some_0 })
            } else {
                None
            }
        },
        _ => None,
    }
}

fn parse_orderbook(d: &JsonValue) -> (r: Option<OrderBookData>)
    ensures
        match r {
            Some(x) => spec_orderbook_of(*d) == Some(x@),
            None => spec_orderbook_of(*d) is None,
        },
{
    let fields = match d {
        JsonValue::Obj(fs) => fs,
        _ => { return None },
    };
    let asks = match get_field(fields, &String::from_str("asks")) {
        Some(j) => match j {
            JsonValue::Arr(items) => match parse_entries(items) {
                Some(x) => x,
                None => { return None },
            },
            _ => { return None },
        },
        None => { return None },
    };
    let bids = match get_field(fields, &String::from_str("bids")) {
        Some(j) => match j {
            JsonValue::Arr(items) => match parse_entries(items) {
                Some(x) => x,
                None => { return None },
            },
            _ => { return None },
        },
        None => { return None },
    };
    Some(OrderBookData { asks, bids })
}

// ---- the envelope ----

/// The generic decoded shape of one inbound frame.
#[derive(Debug)]
pub struct RawChannelMessage {
    pub channel: String,
    pub symbol: Option<String>,
    pub timestamp_millis: i64,
    pub data: RawChannelMessageData,
}

/// The payload, narrowed by the channel tag's family. Families whose exact
/// shape this layer does not model are carried raw.
#[derive(Debug)]
pub enum RawChannelMessageData {
    AccountDeals(RawAccountDealsData),
    AccountOrders(JsonValue),
    AccountBalance(JsonValue),
    PublicDeals(JsonValue),
    Kline(JsonValue),
    OrderBook(OrderBookData),
    Unrecognized(JsonValue),
}

pub enum RawChannelMessageDataView {
    AccountDeals(AccountDealsDataView),
    AccountOrders(JsonValue),
    AccountBalance(JsonValue),
    PublicDeals(JsonValue),
    Kline(JsonValue),
    OrderBook(OrderBookDataView),
    Unrecognized(JsonValue),
}

impl View for RawChannelMessageData {
    type V = RawChannelMessageDataView;

    open spec fn view(&self) -> RawChannelMessageDataView {
        match self {
            RawChannelMessageData::AccountDeals(d) => RawChannelMessageDataView::AccountDeals(d@),
            RawChannelMessageData::AccountOrders(j) => RawChannelMessageDataView::AccountOrders(*j),
            RawChannelMessageData::AccountBalance(j) => RawChannelMessageDataView::AccountBalance(
                *j,
            ),
            RawChannelMessageData::PublicDeals(j) => RawChannelMessageDataView::PublicDeals(*j),
            RawChannelMessageData::Kline(j) => RawChannelMessageDataView::Kline(*j),
            RawChannelMessageData::OrderBook(d) => RawChannelMessageDataView::OrderBook(d@),
            RawChannelMessageData::Unrecognized(j) => RawChannelMessageDataView::Unrecognized(*j),
        }
    }
}

pub open spec fn opt_str_view(o: Option<String>) -> Option<Seq<char>> {
    match o {
        Some(s) => Some(s@),
        None => None,
    }
}

pub struct RawChannelMessageView {
    pub channel: Seq<char>,
    pub symbol: Option<Seq<char>>,
    pub timestamp_millis: i64,
    pub data: RawChannelMessageDataView,
}

impl View for RawChannelMessage {
    type V = RawChannelMessageView;

    open spec fn view(&self) -> RawChannelMessageView {
        RawChannelMessageView {
            channel: self.channel@,
            symbol: opt_str_view(self.symbol),
            timestamp_millis: self.timestamp_millis,
            data: self.data@,
        }
    }
}

/// Why one frame failed to decode.
#[derive(Debug, Clone, Copy, PartialEq, Eq, Structural)]
pub enum DecodeError {
    /// The text is not well-formed JSON.
    InvalidJson,
    /// The frame is not a JSON object.
    NotAnObject,
    /// No string channel tag under `"c"`.
    MissingChannel,
    /// No integer timestamp under `"t"`.
    MissingTimestamp,
    /// The tag names this family but the payload does not fit its shape.
    MalformedPayload(MessageFamily),
}

/// What decoding one parsed frame yields, for every frame.
pub open spec fn spec_decode(v: JsonValue) -> Result<RawChannelMessageView, DecodeError> {
    match v {
        JsonValue::Obj(fs) => match obj_get(fs@, "c"@) {
            Some(JsonValue::Str(c)) => match obj_get(fs@, "t"@) {
                Some(JsonValue::Int(ts)) => {
                    let sym = match obj_get(fs@, "s"@) {
                        Some(JsonValue::Str(s)) => Some(s@),
                        _ => None,
                    };
                    let d = obj_get(fs@, "d"@);
                    match spec_family_of(c@) {
                        None => Ok(
                            RawChannelMessageView {
                                channel: c@,
                                symbol: sym,
                                timestamp_millis: ts,
                                data: RawChannelMessageDataView::Unrecognized(
                                    match d {
                                        Some(j) => j,
                                        None => JsonValue::Null,
                                    },
                                ),
                            },
                        ),
                        Some(MessageFamily::AccountDeals) => match d {
                            Some(dj) => match spec_account_deals_of(dj) {
                                Some(ad) => Ok(
                                    RawChannelMessageView {
                                        channel: c@,
                                        symbol: sym,
                                        timestamp_millis: ts,
                                        data: RawChannelMessageDataView::AccountDeals(ad),
                                    },
                                ),
                                None => Err(
                                    DecodeError::MalformedPayload(MessageFamily::AccountDeals),
                                ),
                            },
                            None => Err(DecodeError::MalformedPayload(MessageFamily::AccountDeals)),
                        },
                        Some(MessageFamily::OrderBook) => match d {
                            Some(dj) => match spec_orderbook_of(dj) {
                                Some(ob) => Ok(
                                    RawChannelMessageView {
                                        channel: c@,
                                        symbol: sym,
                                        timestamp_millis: ts,
                                        data: RawChannelMessageDataView::OrderBook(ob),
                                    },
                                ),
                                None => Err(DecodeError::MalformedPayload(MessageFamily::OrderBook)),
                            },
                            None => Err(DecodeError::MalformedPayload(MessageFamily::OrderBook)),
                        },
                        Some(fam) => match d {
                            Some(dj) => Ok(
                                RawChannelMessageView {
                                    channel: c@,
                                    symbol: sym,
                                    timestamp_millis: ts,
                                    data: match fam {
                                        MessageFamily::AccountOrders
                                            => RawChannelMessageDataView::AccountOrders(dj),
                                        MessageFamily::AccountBalance
                                            => RawChannelMessageDataView::AccountBalance(dj),
                                        MessageFamily::PublicDeals
                                            => RawChannelMessageDataView::PublicDeals(dj),
                                        _ => RawChannelMessageDataView::Kline(dj),
                                    },
                                },
                            ),
                            None => Err(DecodeError::MalformedPayload(fam)),
                        },
                    }
                },
                _ => Err(DecodeError::MissingTimestamp),
            },
            _ => Err(DecodeError::MissingChannel),
        },
        _ => Err(DecodeError::NotAnObject),
    }
}

pub open spec fn decode_result_view(r: Result<RawChannelMessage, DecodeError>) -> Result<
    RawChannelMessageView,
    DecodeError,
> {
    match r {
        Ok(m) => Ok(m@),
        Err(e) => Err(e),
    }
}

/// Decodes one parsed frame into the generic envelope.
pub fn decode_json(v: JsonValue) -> (r: Result<RawChannelMessage, DecodeError>)
    ensures
        decode_result_view(r) == spec_decode(v),
{
    let mut fields = match v {
        JsonValue::Obj(fs) => fs,
        _ => { return Err(DecodeError::NotAnObject) },
    };
    let channel: String = match get_field(&fields, &String::from_str("c")) {
        Some(j) => match j {
            JsonValue::Str(s) => s.clone(),
            _ => { return Err(DecodeError::MissingChannel) },
        },
        None => { return Err(DecodeError::MissingChannel) },
    };
    let timestamp_millis: i64 = match get_field(&fields, &String::from_str("t")) {
        Some(j) => match j {
            JsonValue::Int(ts) => *ts,
            _ => { return Err(DecodeError::MissingTimestamp) },
        },
        None => { return Err(DecodeError::MissingTimestamp) },
    };
    let symbol: Option<String> = match get_field(&fields, &String::from_str("s")) {
        Some(j) => match j {
            JsonValue::Str(s) => Some(s.clone()),
            _ => None,
        },
        None => None,
    };
    let family = family_of(channel.as_str());
    let d_opt = take_field(&mut fields, &String::from_str("d"));
    match family {
        None => Ok(
            RawChannelMessage {
                channel,
                symbol,
                timestamp_millis,
                data: RawChannelMessageData::Unrecognized(
                    match d_opt {
                        Some(j) => j,
                        None => JsonValue::Null,
                    },
                ),
            },
        ),
        Some(MessageFamily::AccountDeals) => match d_opt {
            Some(dj) => match parse_account_deals(&dj) {
                Some(ad) => Ok(
                    RawChannelMessage {
                        channel,
                        symbol,
                        timestamp_millis,
                        data: RawChannelMessageData::AccountDeals(ad),
                    },
                ),
                None => Err(DecodeError::MalformedPayload(MessageFamily::AccountDeals)),
            },
            None => Err(DecodeError::MalformedPayload(MessageFamily::AccountDeals)),
        },
        Some(MessageFamily::OrderBook) => match d_opt {
            Some(dj) => match parse_orderbook(&dj) {
                Some(ob) => Ok(
                    RawChannelMessage {
                        channel,
                        symbol,
                        timestamp_millis,
                        data: RawChannelMessageData::OrderBook(ob),
                    },
                ),
                None => Err(DecodeError::MalformedPayload(MessageFamily::OrderBook)),
            },
            None => Err(DecodeError::MalformedPayload(MessageFamily::OrderBook)),
        },
        Some(MessageFamily::AccountOrders) => match d_opt {
            Some(dj) => Ok(
                RawChannelMessage {
                    channel,
                    symbol,
                    timestamp_millis,
                    data: RawChannelMessageData::AccountOrders(dj),
                },
            ),
            None => Err(DecodeError::MalformedPayload(MessageFamily::AccountOrders)),
        },
        Some(MessageFamily::AccountBalance) => match d_opt {
            Some(dj) => Ok(
                RawChannelMessage {
                    channel,
                    symbol,
                    timestamp_millis,
                    data: RawChannelMessageData::AccountBalance(dj),
                },
            ),
            None => Err(DecodeError::MalformedPayload(MessageFamily::AccountBalance)),
        },
        Some(MessageFamily::PublicDeals) => match d_opt {
            Some(dj) => Ok(
                RawChannelMessage {
                    channel,
                    symbol,
                    timestamp_millis,
                    data: RawChannelMessageData::PublicDeals(dj),
                },
            ),
            None => Err(DecodeError::MalformedPayload(MessageFamily::PublicDeals)),
        },
        Some(MessageFamily::Kline) => match d_opt {
            Some(dj) => Ok(
                RawChannelMessage {
                    channel,
                    symbol,
                    timestamp_millis,
                    data: RawChannelMessageData::Kline(dj),
                },
            ),
            None => Err(DecodeError::MalformedPayload(MessageFamily::Kline)),
        },
    }
}

/// What decoding one frame of raw text yields.
pub open spec fn spec_decode_frame(text: Seq<char>) -> Result<RawChannelMessageView, DecodeError> {
    match json_parse(text) {
        None => Err(DecodeError::InvalidJson),
        Some(v) => spec_decode(v),
    }
}

/// Decodes one inbound frame from its raw text.
pub fn decode_frame(text: &str) -> (r: Result<RawChannelMessage, DecodeError>)
    ensures
        decode_result_view(r) == spec_decode_frame(text@),
{
    match parse_json(text) {
        Some(v) => decode_json(v),
        None => Err(DecodeError::InvalidJson),
    }
}

/// An unknown channel tag is not an error: a frame shaped as an object
/// with a string tag of no known family and an integer timestamp decodes
/// to an envelope with the payload kept raw.
pub proof fn lemma_unknown_tag_decodes(v: JsonValue)
    requires
        v matches JsonValue::Obj(fs),
        v matches JsonValue::Obj(fs) ==> obj_get(fs@, "c"@) matches Some(JsonValue::Str(c))
            && spec_family_of(c@) is None && obj_get(fs@, "t"@) matches Some(JsonValue::Int(ts)),
    ensures
        spec_decode(v) is Ok,
        spec_decode(v)->Ok_0.data is Unrecognized,
{
}

} // verus!
