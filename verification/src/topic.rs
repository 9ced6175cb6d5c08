//! Subscribable channels of the streaming interface and their canonical
//! wire subscription strings.

use vstd::prelude::*;
use crate::numfmt::{spec_u64_dec, u64_to_dec_string, lemma_u64_dec_digits};

verus! {

broadcast use vstd::seq::group_seq_axioms;

/// A fixed candle interval of the k-line channel.
#[derive(Debug, Clone, Copy, Hash, PartialEq, Eq, Structural)]
pub enum KlineIntervalTopic {
    Min1,
    Min5,
    Min15,
    Min30,
    Min60,
    Hour4,
    Hour8,
    Day1,
    Week1,
    Month1,
}

impl KlineIntervalTopic {
    /// The wire name of the interval.
    pub open spec fn spec_str(self) -> Seq<char> {
        match self {
            KlineIntervalTopic::Min1 => "Min1"@,
            KlineIntervalTopic::Min5 => "Min5"@,
            KlineIntervalTopic::Min15 => "Min15"@,
            KlineIntervalTopic::Min30 => "Min30"@,
            KlineIntervalTopic::Min60 => "Min60"@,
            KlineIntervalTopic::Hour4 => "Hour4"@,
            KlineIntervalTopic::Hour8 => "Hour8"@,
            KlineIntervalTopic::Day1 => "Day1"@,
            KlineIntervalTopic::Week1 => "Week1"@,
            KlineIntervalTopic::Month1 => "Month1"@,
        }
    }

    pub fn interval_str(&self) -> (r: &'static str)
        ensures
            r@ == self.spec_str(),
    {
        match self {
            KlineIntervalTopic::Min1 => "Min1",
            KlineIntervalTopic::Min5 => "Min5",
            KlineIntervalTopic::Min15 => "Min15",
            KlineIntervalTopic::Min30 => "Min30",
            KlineIntervalTopic::Min60 => "Min60",
            KlineIntervalTopic::Hour4 => "Hour4",
            KlineIntervalTopic::Hour8 => "Hour8",
            KlineIntervalTopic::Day1 => "Day1",
            KlineIntervalTopic::Week1 => "Week1",
            KlineIntervalTopic::Month1 => "Month1",
        }
    }

    /// No interval name contains the separator of subscription strings.
    pub proof fn lemma_no_separator(self)
        ensures
            forall|i: int| 0 <= i < self.spec_str().len() ==> #[trigger] self.spec_str()[i] != '@',
    {
        reveal_strlit("Min1");
        reveal_strlit("Min5");
        reveal_strlit("Min15");
        reveal_strlit("Min30");
        reveal_strlit("Min60");
        reveal_strlit("Hour4");
        reveal_strlit("Hour8");
        reveal_strlit("Day1");
        reveal_strlit("Week1");
        reveal_strlit("Month1");
    }
}

/// The public trade-tick channel of one symbol.
#[derive(Debug, Clone, Hash, PartialEq, Eq)]
pub struct DealsTopic {
    pub symbol: String,
}

impl DealsTopic {
    pub fn new(symbol: String) -> (r: Self)
        ensures
            r.symbol@ == symbol@,
    {
        Self { symbol }
    }
}

/// The order-book channel of one symbol at a fixed depth.
#[derive(Debug, Clone, Hash, PartialEq, Eq)]
pub struct OrderbookTopic {
    pub symbol: String,
    pub depth: usize,
}

impl OrderbookTopic {
    pub fn new(symbol: String, depth: usize) -> (r: Self)
        ensures
            r.symbol@ == symbol@,
            r.depth == depth,
    {
        Self { symbol, depth }
    }
}

/// The k-line channel of one symbol at a fixed interval.
#[derive(Debug, Clone, Hash, PartialEq, Eq)]
pub struct KlineTopic {
    pub symbol: String,
    pub interval: KlineIntervalTopic,
}

impl KlineTopic {
    pub fn new(symbol: String, interval: KlineIntervalTopic) -> (r: Self)
        ensures
            r.symbol@ == symbol@,
            r.interval == interval,
    {
        Self { symbol, interval }
    }
}

/// One subscribable channel.
#[derive(Debug, Clone, Hash, PartialEq, Eq)]
pub enum Topic {
    AccountDeals,
    AccountOrders,
    AccountUpdate,
    Deals(DealsTopic),
    Kline(KlineTopic),
    OrderBook(OrderbookTopic),
}

impl Topic {
    /// The account-scoped channels are exactly the ones that need credentials.
    pub open spec fn spec_requires_auth(self) -> bool {
        match self {
            Topic::AccountDeals => true,
            Topic::AccountOrders => true,
            Topic::AccountUpdate => true,
            Topic::Deals(_) => false,
            Topic::Kline(_) => false,
            Topic::OrderBook(_) => false,
        }
    }

    /// True for exactly the three account-scoped channels.
    pub fn requires_auth(&self) -> (r: bool)
        ensures
            r == self.spec_requires_auth(),
            r <==> (self is AccountDeals || self is AccountOrders || self is AccountUpdate),
    {
        match self {
            Topic::AccountDeals => true,
            Topic::AccountOrders => true,
            Topic::AccountUpdate => true,
            Topic::Deals(_) => false,
            Topic::Kline(_) => false,
            Topic::OrderBook(_) => false,
        }
    }

    /// The canonical wire subscription string of the channel.
    pub open spec fn spec_subscription_string(self) -> Seq<char> {
        match self {
            Topic::AccountDeals => "spot@private.deals.v3.api"@,
            Topic::AccountOrders => "spot@private.orders.v3.api"@,
            Topic::AccountUpdate => "spot@private.account.v3.api"@,
            Topic::Deals(t) => "spot@public.deals.v3.api@"@ + t.symbol@,
            Topic::Kline(t) => "spot@public.kline.v3.api@"@ + t.symbol@ + "@"@ + t.interval.spec_str(),
            Topic::OrderBook(t) => "spot@public.limit.depth.v3.api@"@ + t.symbol@ + "@"@ + spec_u64_dec(
                t.depth as nat,
            ),
        }
    }

    pub fn to_topic_subscription_string(&self) -> (r: String)
        ensures
            r@ == self.spec_subscription_string(),
    {
        match self {
            Topic::AccountDeals => String::from_str("spot@private.deals.v3.api"),
            Topic::AccountOrders => String::from_str("spot@private.orders.v3.api"),
            Topic::AccountUpdate => String::from_str("spot@private.account.v3.api"),
            Topic::Deals(t) => {
                let mut s = String::from_str("spot@public.deals.v3.api@");
                s.append(t.symbol.as_str());
                s
            },
            Topic::Kline(t) => {
                let mut s = String::from_str("spot@public.kline.v3.api@");
                s.append(t.symbol.as_str());
                s.append("@");
                s.append(t.interval.interval_str());
                s
            },
            Topic::OrderBook(t) => {
                let mut s = String::from_str("spot@public.limit.depth.v3.api@");
                s.append(t.symbol.as_str());
                s.append("@");
                let depth64: u64 = t.depth as u64;
                let d = u64_to_dec_string(depth64);
                s.append(d.as_str());
                s
            },
        }
    }

    /// Two topics are the same channel when their variants and parameters
    /// agree (strings compared by contents).
    pub open spec fn same_topic(self, other: Topic) -> bool {
        match (self, other) {
            (Topic::AccountDeals, Topic::AccountDeals) => true,
            (Topic::AccountOrders, Topic::AccountOrders) => true,
            (Topic::AccountUpdate, Topic::AccountUpdate) => true,
            (Topic::Deals(a), Topic::Deals(b)) => a.symbol@ == b.symbol@,
            (Topic::Kline(a), Topic::Kline(b)) => a.symbol@ == b.symbol@ && a.interval
                == b.interval,
            (Topic::OrderBook(a), Topic::OrderBook(b)) => a.symbol@ == b.symbol@ && a.depth
                == b.depth,
            _ => false,
        }
    }
}

/// A common prefix cancels: equal concatenations under it have equal tails.
proof fn lemma_prefix_cancel(p: Seq<char>, x: Seq<char>, y: Seq<char>)
    requires
        p + x == p + y,
    ensures
        x == y,
{
    assert((p + x).len() == p.len() + x.len());
    assert((p + y).len() == p.len() + y.len());
    assert((p + x).len() == (p + y).len());
    assert(x.len() == y.len());
    assert forall|i: int| 0 <= i < x.len() implies x[i] == y[i] by {
        let k = p.len() + i;
        assert((p + x)[k] == x[i]);
        assert((p + y)[k] == y[k - p.len()]);
        assert((p + x)[k] == (p + y)[k]);
    }
    assert(x =~= y);
}

/// A string of the shape `head` `'@'` `tail` splits uniquely at the last
/// separator when neither tail contains one.
proof fn lemma_sep_suffix(x1: Seq<char>, s1: Seq<char>, x2: Seq<char>, s2: Seq<char>)
    requires
        x1 + "@"@ + s1 == x2 + "@"@ + s2,
        forall|i: int| 0 <= i < s1.len() ==> s1[i] != '@',
        forall|i: int| 0 <= i < s2.len() ==> s2[i] != '@',
    ensures
        x1 == x2,
        s1 == s2,
{
    reveal_strlit("@");
    let t = x1 + "@"@ + s1;
    assert(t.len() == x1.len() + 1 + s1.len());
    assert(t.len() == x2.len() + 1 + s2.len());
    if s1.len() < s2.len() {
        let j = x1.len() as int;
        assert(t[j] == "@"@[0]);
        assert(j - x2.len() - 1 >= 0);
        assert(t[j] == s2[j - x2.len() - 1]);
        assert(false);
    } else if s2.len() < s1.len() {
        let j = x2.len() as int;
        assert(t[j] == "@"@[0]) by {
            assert((x2 + "@"@ + s2)[j] == "@"@[0]);
        }
        assert(j - x1.len() - 1 >= 0);
        assert(t[j] == s1[j - x1.len() - 1]);
        assert(false);
    } else {
        assert(x1.len() == x2.len());
        assert forall|i: int| 0 <= i < x1.len() implies x1[i] == x2[i] by {
            assert(t[i] == x1[i]);
            assert((x2 + "@"@ + s2)[i] == x2[i]);
        }
        assert(x1 =~= x2);
        assert forall|i: int| 0 <= i < s1.len() implies s1[i] == s2[i] by {
            assert(t[x1.len() + 1 + i] == s1[i]);
            assert((x2 + "@"@ + s2)[x2.len() + 1 + i] == s2[i]);
        }
        assert(s1 =~= s2);
    }
}

/// Length and a few fixed characters tell every interval name apart.
proof fn lemma_interval_facts(x: KlineIntervalTopic)
    ensures
        x is Min1 ==> x.spec_str().len() == 4 && x.spec_str()[0] == 'M' && x.spec_str()[3] == '1',
        x is Min5 ==> x.spec_str().len() == 4 && x.spec_str()[0] == 'M' && x.spec_str()[3] == '5',
        x is Day1 ==> x.spec_str().len() == 4 && x.spec_str()[0] == 'D',
        x is Min15 ==> x.spec_str().len() == 5 && x.spec_str()[0] == 'M' && x.spec_str()[3] == '1',
        x is Min30 ==> x.spec_str().len() == 5 && x.spec_str()[0] == 'M' && x.spec_str()[3] == '3',
        x is Min60 ==> x.spec_str().len() == 5 && x.spec_str()[0] == 'M' && x.spec_str()[3] == '6',
        x is Hour4 ==> x.spec_str().len() == 5 && x.spec_str()[0] == 'H' && x.spec_str()[4] == '4',
        x is Hour8 ==> x.spec_str().len() == 5 && x.spec_str()[0] == 'H' && x.spec_str()[4] == '8',
        x is Week1 ==> x.spec_str().len() == 5 && x.spec_str()[0] == 'W',
        x is Month1 ==> x.spec_str().len() == 6,
{
    reveal_strlit("Min1");
    reveal_strlit("Min5");
    reveal_strlit("Min15");
    reveal_strlit("Min30");
    reveal_strlit("Min60");
    reveal_strlit("Hour4");
    reveal_strlit("Hour8");
    reveal_strlit("Day1");
    reveal_strlit("Week1");
    reveal_strlit("Month1");
}

/// Interval names are pairwise distinct.
proof fn lemma_interval_str_injective(a: KlineIntervalTopic, b: KlineIntervalTopic)
    requires
        a.spec_str() == b.spec_str(),
    ensures
        a == b,
{
    lemma_interval_facts(a);
    lemma_interval_facts(b);
}

/// Characters at fixed offsets of a subscription string tell the families
/// apart: offset 7 separates private from public, offset 13 the private
/// families, offset 12 the public ones.
proof fn lemma_discriminators(t: Topic)
    ensures
        t.spec_subscription_string().len() >= 14,
        t.spec_subscription_string()[7] == (if t.spec_requires_auth() {
            'i'
        } else {
            'b'
        }),
        t is AccountDeals ==> t.spec_subscription_string()[13] == 'd',
        t is AccountOrders ==> t.spec_subscription_string()[13] == 'o',
        t is AccountUpdate ==> t.spec_subscription_string()[13] == 'a',
        t is Deals ==> t.spec_subscription_string()[12] == 'd',
        t is Kline ==> t.spec_subscription_string()[12] == 'k',
        t is OrderBook ==> t.spec_subscription_string()[12] == 'l',
{
    reveal_strlit("spot@private.deals.v3.api");
    reveal_strlit("spot@private.orders.v3.api");
    reveal_strlit("spot@private.account.v3.api");
    reveal_strlit("spot@public.deals.v3.api@");
    reveal_strlit("spot@public.kline.v3.api@");
    reveal_strlit("spot@public.limit.depth.v3.api@");
    match t {
        Topic::AccountDeals => {},
        Topic::AccountOrders => {},
        Topic::AccountUpdate => {},
        Topic::Deals(d) => {
            let p = "spot@public.deals.v3.api@"@;
            assert(t.spec_subscription_string()[7] == p[7]);
            assert(t.spec_subscription_string()[12] == p[12]);
        },
        Topic::Kline(k) => {
            let p = "spot@public.kline.v3.api@"@;
            let s = p + k.symbol@ + "@"@ + k.interval.spec_str();
            assert(s[7] == p[7]);
            assert(s[12] == p[12]);
        },
        Topic::OrderBook(o) => {
            let p = "spot@public.limit.depth.v3.api@"@;
            let s = p + o.symbol@ + "@"@ + spec_u64_dec(o.depth as nat);
            assert(s[7] == p[7]);
            assert(s[12] == p[12]);
        },
    }
}

/// The subscription-string mapping is injective: no two distinct topics
/// (variants and parameters compared by value) share a wire string.
pub proof fn lemma_subscription_string_injective(a: Topic, b: Topic)
    requires
        a.spec_subscription_string() == b.spec_subscription_string(),
    ensures
        a.same_topic(b),
{
    lemma_discriminators(a);
    lemma_discriminators(b);
    match (a, b) {
        (Topic::Deals(x), Topic::Deals(y)) => {
            lemma_prefix_cancel("spot@public.deals.v3.api@"@, x.symbol@, y.symbol@);
        },
        (Topic::Kline(x), Topic::Kline(y)) => {
            x.interval.lemma_no_separator();
            y.interval.lemma_no_separator();
            let p = "spot@public.kline.v3.api@"@;
            lemma_sep_suffix(
                p + x.symbol@,
                x.interval.spec_str(),
                p + y.symbol@,
                y.interval.spec_str(),
            );
            lemma_prefix_cancel(p, x.symbol@, y.symbol@);
            lemma_interval_str_injective(x.interval, y.interval);
        },
        (Topic::OrderBook(x), Topic::OrderBook(y)) => {
            lemma_u64_dec_digits(x.depth as nat);
            lemma_u64_dec_digits(y.depth as nat);
            let p = "spot@public.limit.depth.v3.api@"@;
            lemma_sep_suffix(
                p + x.symbol@,
                spec_u64_dec(x.depth as nat),
                p + y.symbol@,
                spec_u64_dec(y.depth as nat),
            );
            lemma_prefix_cancel(p, x.symbol@, y.symbol@);
            crate::numfmt::lemma_u64_dec_injective(x.depth as nat, y.depth as nat);
        },
        _ => {},
    }
}

} // verus!
