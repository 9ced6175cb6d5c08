//! The streaming session's subscription state machine: which control frame
//! each call sends, how the optimistic subscription set evolves, and which
//! subscriber an inbound envelope is delivered to. The transport itself is
//! the caller's collaborator; this layer only decides.

use vstd::prelude::*;
use crate::topic::Topic;
use crate::envelope::{RawChannelMessage, RawChannelMessageView, RawChannelMessageDataView};
use crate::translate::{
    AccountDealsMessage, AccountDealsMessageView, SpotDepthOrderbookMessage,
    SpotDepthOrderbookMessageView, spec_account_deals_message, spec_orderbook_message,
    channel_message_to_account_deals_message, channel_message_to_orderbook_depth_message,
};

verus! {

broadcast use vstd::seq::group_seq_axioms;

#[derive(Debug, Clone, Copy, PartialEq, Eq, Structural)]
pub enum SessionState {
    Disconnected,
    Connecting,
    Connected,
    Closing,
}

#[derive(Debug, Clone, Copy, PartialEq, Eq, Structural)]
pub enum SessionError {
    /// An auth-gated topic was subscribed without credentials.
    AuthRequired,
    /// The session has no live connection.
    NotConnected,
}

/// Whether some subscription names this channel tag.
pub open spec fn spec_subscribed(subs: Seq<Topic>, tag: Seq<char>) -> bool {
    exists|i: int| 0 <= i < subs.len() && #[trigger] subs[i].spec_subscription_string() == tag
}

/// The subscriptions with every topic of this wire string removed.
pub open spec fn spec_remove_topic(subs: Seq<Topic>, tag: Seq<char>) -> Seq<Topic>
    decreases subs.len(),
{
    if subs.len() == 0 {
        subs
    } else if subs.last().spec_subscription_string() == tag {
        spec_remove_topic(subs.drop_last(), tag)
    } else {
        spec_remove_topic(subs.drop_last(), tag).push(subs.last())
    }
}

/// The subscribe control frame for one topic string.
pub open spec fn spec_subscribe_frame(tag: Seq<char>) -> Seq<char> {
    "{\"method\":\"SUBSCRIPTION\",\"params\":[\""@ + tag + "\"]}"@
}

/// The unsubscribe control frame for one topic string.
pub open spec fn spec_unsubscribe_frame(tag: Seq<char>) -> Seq<char> {
    "{\"method\":\"UNSUBSCRIPTION\",\"params\":[\""@ + tag + "\"]}"@
}

/// One message handed to a subscriber.
#[derive(Debug)]
pub enum DeliveredMessage {
    AccountDeals(AccountDealsMessage),
    OrderBook(SpotDepthOrderbookMessage),
    /// A family this layer keeps raw.
    Raw(RawChannelMessage),
}

pub enum DeliveredMessageView {
    AccountDeals(AccountDealsMessageView),
    OrderBook(SpotDepthOrderbookMessageView),
    Raw(RawChannelMessageView),
}

impl View for DeliveredMessage {
    type V = DeliveredMessageView;

    open spec fn view(&self) -> DeliveredMessageView {
        match self {
            DeliveredMessage::AccountDeals(m) => DeliveredMessageView::AccountDeals(m@),
            DeliveredMessage::OrderBook(m) => DeliveredMessageView::OrderBook(m@),
            DeliveredMessage::Raw(m) => DeliveredMessageView::Raw(m@),
        }
    }
}

/// One delivery: the channel tag it was routed by, and the message.
#[derive(Debug)]
pub struct Delivery {
    pub channel: String,
    pub message: DeliveredMessage,
}

pub struct DeliveryView {
    pub channel: Seq<char>,
    pub message: DeliveredMessageView,
}

impl View for Delivery {
    type V = DeliveryView;

    open spec fn view(&self) -> DeliveryView {
        DeliveryView { channel: self.channel@, message: self.message@ }
    }
}

pub open spec fn opt_delivery_view(r: Option<Delivery>) -> Option<DeliveryView> {
    match r {
        Some(d) => Some(d@),
        None => None,
    }
}

/// What routing one decoded envelope yields: a delivery exactly when the
/// session is connected, some subscription's wire string equals the tag,
/// and the payload translates for its family.
pub open spec fn spec_route(
    state: SessionState,
    subs: Seq<Topic>,
    env: RawChannelMessageView,
) -> Option<DeliveryView> {
    if !(state is Connected) {
        None
    } else if !spec_subscribed(subs, env.channel) {
        None
    } else {
        match env.data {
            RawChannelMessageDataView::AccountDeals(_) => match spec_account_deals_message(env) {
                Some(m) => Some(
                    DeliveryView {
                        channel: env.channel,
                        message: DeliveredMessageView::AccountDeals(m),
                    },
                ),
                None => None,
            },
            RawChannelMessageDataView::OrderBook(_) => match spec_orderbook_message(env) {
                Some(m) => Some(
                    DeliveryView {
                        channel: env.channel,
                        message: DeliveredMessageView::OrderBook(m),
                    },
                ),
                None => None,
            },
            RawChannelMessageDataView::Unrecognized(_) => None,
            _ => Some(
                DeliveryView { channel: env.channel, message: DeliveredMessageView::Raw(env) },
            ),
        }
    }
}

/// A subscription manager. The subscription set is mutated only through
/// these calls, in arrival order of the control-frame acknowledgements.
#[derive(Debug)]
pub struct StreamingSession {
    pub state: SessionState,
    pub has_credentials: bool,
    pub subscriptions: Vec<Topic>,
}

impl StreamingSession {
    /// A fresh session: disconnected, nothing subscribed.
    pub fn new(has_credentials: bool) -> (r: StreamingSession)
        ensures
            r.state == SessionState::Disconnected,
            r.has_credentials == has_credentials,
            r.subscriptions@.len() == 0,
    {
        StreamingSession { state: SessionState::Disconnected, has_credentials, subscriptions: Vec::new() }
    }

    /// The caller is dialing the transport.
    pub fn begin_connect(&mut self)
        ensures
            final(self).state == SessionState::Connecting,
            final(self).has_credentials == old(self).has_credentials,
            final(self).subscriptions@ == old(self).subscriptions@,
    {
        self.state = SessionState::Connecting;
    }

    /// The transport reported the connection up.
    pub fn mark_connected(&mut self)
        ensures
            final(self).state == SessionState::Connected,
            final(self).has_credentials == old(self).has_credentials,
            final(self).subscriptions@ == old(self).subscriptions@,
    {
        self.state = SessionState::Connected;
    }

    /// Closes the session: the state is terminal and no later frame is
    /// delivered to any subscriber.
    pub fn close(&mut self)
        ensures
            final(self).state == SessionState::Disconnected,
            final(self).has_credentials == old(self).has_credentials,
            final(self).subscriptions@ == old(self).subscriptions@,
    {
        self.state = SessionState::Disconnected;
    }

    /// Asks to subscribe: fails with `AuthRequired` before anything is sent
    /// when the topic needs credentials and the session has none, fails
    /// with `NotConnected` off-line; otherwise adds the topic optimistically
    /// and hands back the control frame to send.
    pub fn subscribe(&mut self, topic: Topic) -> (r: Result<String, SessionError>)
        ensures
            topic.spec_requires_auth() && !old(self).has_credentials ==> (r matches Err(e) && e
                == SessionError::AuthRequired && *final(self) == *old(self)),
            !(topic.spec_requires_auth() && !old(self).has_credentials) && !(old(self).state
                is Connected) ==> (r matches Err(e) && e == SessionError::NotConnected
                && *final(self) == *old(self)),
            !(topic.spec_requires_auth() && !old(self).has_credentials) && old(self).state
                is Connected ==> (r matches Ok(f) && f@ == spec_subscribe_frame(
                topic.spec_subscription_string(),
            ) && final(self).state == old(self).state && final(self).has_credentials == old(
                self,
            ).has_credentials && final(self).subscriptions@ == old(self).subscriptions@.push(
                topic,
            )),
    {
        if topic.requires_auth() && !self.has_credentials {
            return Err(SessionError::AuthRequired);
        }
        match self.state {
            SessionState::Connected => {},
            _ => {
                return Err(SessionError::NotConnected);
            },
        }
        let tag = topic.to_topic_subscription_string();
        let mut frame = String::from_str("{\"method\":\"SUBSCRIPTION\",\"params\":[\"");
        frame.append(tag.as_str());
        frame.append("\"]}");
        self.subscriptions.push(topic);
        Ok(frame)
    }

    /// Asks to unsubscribe: hands back the control frame; the topic leaves
    /// the set only when the acknowledgement arrives.
    pub fn unsubscribe(&mut self, topic: &Topic) -> (r: Result<String, SessionError>)
        ensures
            !(old(self).state is Connected) ==> (r matches Err(e) && e
                == SessionError::NotConnected && *final(self) == *old(self)),
            old(self).state is Connected ==> (r matches Ok(f) && f@ == spec_unsubscribe_frame(
                topic.spec_subscription_string(),
            ) && *final(self) == *old(self)),
    {
        match self.state {
            SessionState::Connected => {},
            _ => {
                return Err(SessionError::NotConnected);
            },
        }
        let tag = topic.to_topic_subscription_string();
        let mut frame = String::from_str("{\"method\":\"UNSUBSCRIPTION\",\"params\":[\"");
        frame.append(tag.as_str());
        frame.append("\"]}");
        Ok(frame)
    }

    /// The exchange rejected a subscribe: rolls the optimistic add back.
    /// The exchange acknowledged an unsubscribe: same removal.
    pub fn remove_subscription(&mut self, tag: &String)
        ensures
            final(self).state == old(self).state,
            final(self).has_credentials == old(self).has_credentials,
            final(self).subscriptions@ == spec_remove_topic(old(self).subscriptions@, tag@),
    {
        let ghost orig = self.subscriptions@;
        let n = self.subscriptions.len();
        let mut kept: Vec<Topic> = Vec::new();
        let mut i: usize = 0;
        proof {
            assert(orig.subrange(0, 0) =~= Seq::<Topic>::empty());
            assert(orig.subrange(0, n as int) =~= orig);
        }
        while i < n
            invariant
                0 <= i <= n,
                n == orig.len(),
                self.subscriptions@ == orig.subrange(i as int, n as int),
                self.state == old(self).state,
                self.has_credentials == old(self).has_credentials,
                kept@ == spec_remove_topic(orig.subrange(0, i as int), tag@),
            decreases n - i,
        {
            proof {
                let pre = orig.subrange(0, i as int);
                let pushed = orig.subrange(0, i + 1);
                assert(pushed.drop_last() =~= pre);
                assert(pushed.last() == orig[i as int]);
                assert(self.subscriptions@[0] == orig[i as int]);
                assert(self.subscriptions@.subrange(1, self.subscriptions@.len() as int)
                    =~= orig.subrange(i + 1, n as int));
            }
            let t = self.subscriptions.remove(0);
            let sub_tag = t.to_topic_subscription_string();
            if !sub_tag.eq(tag) {
                kept.push(t);
            }
            i = i + 1;
        }
        proof {
            assert(orig.subrange(0, n as int) =~= orig);
        }
        self.subscriptions = kept;
    }

    /// Routes one decoded envelope. `None` is no delivery: the session is
    /// closed, nothing subscribed matches the tag, the payload did not
    /// translate, or the tag is of no known family.
    pub fn route_frame(&self, env: RawChannelMessage) -> (r: Option<Delivery>)
        ensures
            opt_delivery_view(r) == spec_route(self.state, self.subscriptions@, env@),
    {
        match self.state {
            SessionState::Connected => {},
            _ => {
                return None;
            },
        }
        let n = self.subscriptions.len();
        let mut found = false;
        let mut i: usize = 0;
        while i < n && !found
            invariant
                0 <= i <= n,
                n == self.subscriptions@.len(),
                !found ==> forall|j: int|
                    0 <= j < i ==> #[trigger] self.subscriptions@[j].spec_subscription_string()
                        != env@.channel,
                found ==> spec_subscribed(self.subscriptions@, env@.channel),
            decreases n - i,
        {
            let sub_tag = self.subscriptions[i].to_topic_subscription_string();
            if sub_tag.eq(&env.channel) {
                found = true;
            }
            i = i + 1;
        }
        if !found {
            return None;
        }
        match &env.data {
            crate::envelope::RawChannelMessageData::AccountDeals(_) => {
                match channel_message_to_account_deals_message(&env) {
                    Ok(m) => Some(
                        Delivery {
                            channel: env.channel.clone(),
                            message: DeliveredMessage::AccountDeals(m),
                        },
                    ),
                    Err(_) => None,
                }
            },
            crate::envelope::RawChannelMessageData::OrderBook(_) => {
                match channel_message_to_orderbook_depth_message(&env) {
                    Ok(m) => Some(
                        Delivery {
                            channel: env.channel.clone(),
                            message: DeliveredMessage::OrderBook(m),
                        },
                    ),
                    Err(_) => None,
                }
            },
            crate::envelope::RawChannelMessageData::Unrecognized(_) => None,
            _ => {
                let channel = env.channel.clone();
                Some(Delivery { channel, message: DeliveredMessage::Raw(env) })
            },
        }
    }
}

/// After `close`, no envelope is delivered to any subscriber, whatever
/// still sits buffered in the transport.
pub proof fn lemma_no_delivery_when_closed(
    state: SessionState,
    subs: Seq<Topic>,
    env: RawChannelMessageView,
)
    requires
        !(state is Connected),
    ensures
        spec_route(state, subs, env) is None,
{
}

// ---- ordering of deliveries ----

/// All deliveries for a run of inbound frames, in arrival order.
pub open spec fn spec_route_all(
    state: SessionState,
    subs: Seq<Topic>,
    frames: Seq<RawChannelMessageView>,
) -> Seq<DeliveryView>
    decreases frames.len(),
{
    if frames.len() == 0 {
        Seq::empty()
    } else {
        spec_route_all(state, subs, frames.drop_last()) + (match spec_route(
            state,
            subs,
            frames.last(),
        ) {
            Some(d) => seq![d],
            None => Seq::empty(),
        })
    }
}

/// The frames whose channel tag is `tag`, in arrival order.
pub open spec fn frames_for(frames: Seq<RawChannelMessageView>, tag: Seq<char>) -> Seq<
    RawChannelMessageView,
>
    decreases frames.len(),
{
    if frames.len() == 0 {
        frames
    } else if frames.last().channel == tag {
        frames_for(frames.drop_last(), tag).push(frames.last())
    } else {
        frames_for(frames.drop_last(), tag)
    }
}

/// The deliveries whose channel tag is `tag`, in delivery order.
pub open spec fn deliveries_for(ds: Seq<DeliveryView>, tag: Seq<char>) -> Seq<DeliveryView>
    decreases ds.len(),
{
    if ds.len() == 0 {
        ds
    } else if ds.last().channel == tag {
        deliveries_for(ds.drop_last(), tag).push(ds.last())
    } else {
        deliveries_for(ds.drop_last(), tag)
    }
}

/// Messages of different topics may interleave on the wire; each topic's
/// subscriber still sees its own messages exactly in arrival order: the
/// deliveries carrying one tag equal the routing of just that tag's
/// frames, never reordered.
pub proof fn lemma_per_topic_order(
    state: SessionState,
    subs: Seq<Topic>,
    frames: Seq<RawChannelMessageView>,
    tag: Seq<char>,
)
    ensures
        deliveries_for(spec_route_all(state, subs, frames), tag) == spec_route_all(
            state,
            subs,
            frames_for(frames, tag),
        ),
    decreases frames.len(),
{
    if frames.len() > 0 {
        let init = frames.drop_last();
        let last = frames.last();
        lemma_per_topic_order(state, subs, init, tag);
        let dinit = spec_route_all(state, subs, init);
        match spec_route(state, subs, last) {
            Some(d) => {
                assert(d.channel == last.channel);
                let whole = dinit + seq![d];
                assert(whole.drop_last() =~= dinit);
                assert(whole.last() == d);
                if last.channel == tag {
                    assert(frames_for(frames, tag) == frames_for(init, tag).push(last));
                    let ff = frames_for(init, tag).push(last);
                    assert(ff.drop_last() =~= frames_for(init, tag));
                    assert(ff.last() == last);
                    assert(deliveries_for(whole, tag) == deliveries_for(dinit, tag).push(d));
                    assert(spec_route_all(state, subs, ff) == spec_route_all(
                        state,
                        subs,
                        frames_for(init, tag),
                    ) + seq![d]);
                    assert(deliveries_for(dinit, tag).push(d) =~= deliveries_for(dinit, tag)
                        + seq![d]);
                } else {
                    assert(deliveries_for(whole, tag) == deliveries_for(dinit, tag));
                    assert(frames_for(frames, tag) == frames_for(init, tag));
                }
            },
            None => {
                assert(spec_route_all(state, subs, frames) =~= dinit);
                if last.channel == tag {
                    let ff = frames_for(init, tag).push(last);
                    assert(frames_for(frames, tag) == ff);
                    assert(ff.drop_last() =~= frames_for(init, tag));
                    assert(ff.last() == last);
                    assert(spec_route_all(state, subs, ff) =~= spec_route_all(
                        state,
                        subs,
                        frames_for(init, tag),
                    ));
                } else {
                    assert(frames_for(frames, tag) == frames_for(init, tag));
                }
            },
        }
    }
}

} // verus!
