use vstd::prelude::*;
use vstd::string::*;

use nautilus_network::websocket::{AuthTracker, SubscriptionState};

use crate::common::text::views;
use crate::websocket::client::{
    channel_list, is_channel_name, push_subscription_symbol, pushed, split_topic, topic_symbols,
    AlpacaWsAction, AlpacaWsSubscription,
};
use crate::websocket::subscription::{
    canonical_topic, confirmed_topics, pending_subscribe_topics, pending_unsubscribe_topics,
    topic_references, TOPIC_DELIMITER,
};
use crate::websocket::subscription as state_ops;

verus! {

/// The subscriptions the venue reports after a subscribe or unsubscribe request.
#[derive(Clone, Debug)]
pub struct AlpacaSubscriptionState {
    pub trades: Vec<String>,
    pub quotes: Vec<String>,
    pub bars: Vec<String>,
    pub daily_bars: Vec<String>,
    pub updated_bars: Vec<String>,
    pub statuses: Vec<String>,
    pub lulds: Vec<String>,
    pub corrections: Vec<String>,
    pub cancel_errors: Vec<String>,
}

/// The three topic sets of the subscription state.
pub struct TopicSets {
    pub confirmed: Set<Seq<char>>,
    pub pending: Set<Seq<char>>,
    pub removing: Set<Seq<char>>,
}

pub open spec fn topic_sets(state: SubscriptionState) -> TopicSets {
    TopicSets {
        confirmed: confirmed_topics(state),
        pending: pending_subscribe_topics(state),
        removing: pending_unsubscribe_topics(state),
    }
}

pub open spec fn is_canonical(t: Seq<char>) -> bool {
    canonical_topic(t) == t
}

/// Every topic is stored once, in canonical form, in at most one of the three sets.
#[verifier::opaque]
pub open spec fn sets_wf(s: TopicSets) -> bool {
    &&& forall|t: Seq<char>| s.confirmed.contains(t) ==> is_canonical(t)
    &&& forall|t: Seq<char>| s.pending.contains(t) ==> is_canonical(t)
    &&& forall|t: Seq<char>| s.removing.contains(t) ==> is_canonical(t)
    &&& forall|t: Seq<char>| !(s.confirmed.contains(t) && s.pending.contains(t))
    &&& forall|t: Seq<char>| !(s.confirmed.contains(t) && s.removing.contains(t))
    &&& forall|t: Seq<char>| !(s.pending.contains(t) && s.removing.contains(t))
}

pub proof fn lemma_canonical_idempotent(t: Seq<char>)
    ensures
        is_canonical(canonical_topic(t)),
{
    if t.len() > 0 && t.last() == TOPIC_DELIMITER && !t.drop_last().contains(TOPIC_DELIMITER) {
        let d = t.drop_last();
        if d.len() > 0 && d.last() == TOPIC_DELIMITER {
            assert(d.contains(TOPIC_DELIMITER)) by {
                assert(d[d.len() - 1] == TOPIC_DELIMITER);
            }
        }
    }
}

/// The sets after `mark_subscribe(t)`.
pub open spec fn after_mark_subscribe(s: TopicSets, t: Seq<char>) -> TopicSets {
    let c = canonical_topic(t);
    if s.confirmed.contains(c) {
        s
    } else {
        TopicSets { confirmed: s.confirmed, pending: s.pending.insert(c), removing: s.removing.remove(c) }
    }
}

proof fn lemma_mark_subscribe_wf(s: TopicSets, t: Seq<char>)
    requires
        sets_wf(s),
    ensures
        sets_wf(after_mark_subscribe(s, t)),
{
    reveal(sets_wf);
    lemma_canonical_idempotent(t);
}

proof fn lemma_mark_unsubscribe_wf(s: TopicSets, t: Seq<char>)
    requires
        sets_wf(s),
    ensures
        sets_wf(after_mark_unsubscribe(s, t)),
{
    reveal(sets_wf);
    lemma_canonical_idempotent(t);
}

/// The sets after `confirm_subscribe(t)`.
pub open spec fn after_confirm_subscribe(s: TopicSets, t: Seq<char>) -> TopicSets {
    let c = canonical_topic(t);
    if s.removing.contains(c) {
        s
    } else {
        TopicSets { confirmed: s.confirmed.insert(c), pending: s.pending.remove(c), removing: s.removing }
    }
}

/// The sets after `confirm_unsubscribe(t)`.
pub open spec fn after_confirm_unsubscribe(s: TopicSets, t: Seq<char>) -> TopicSets {
    let c = canonical_topic(t);
    if !s.removing.contains(c) {
        s
    } else {
        TopicSets { confirmed: s.confirmed.remove(c), pending: s.pending, removing: s.removing.remove(c) }
    }
}

/// The sets after `mark_failure(t)`.
pub open spec fn after_mark_failure(s: TopicSets, t: Seq<char>) -> TopicSets {
    let c = canonical_topic(t);
    if s.removing.contains(c) {
        s
    } else {
        TopicSets { confirmed: s.confirmed.remove(c), pending: s.pending.insert(c), removing: s.removing }
    }
}

proof fn lemma_confirm_subscribe_wf(s: TopicSets, t: Seq<char>)
    requires
        sets_wf(s),
    ensures
        sets_wf(after_confirm_subscribe(s, t)),
{
    reveal(sets_wf);
    lemma_canonical_idempotent(t);
}

proof fn lemma_confirm_unsubscribe_wf(s: TopicSets, t: Seq<char>)
    requires
        sets_wf(s),
    ensures
        sets_wf(after_confirm_unsubscribe(s, t)),
{
    reveal(sets_wf);
}

proof fn lemma_mark_failure_wf(s: TopicSets, t: Seq<char>)
    requires
        sets_wf(s),
    ensures
        sets_wf(after_mark_failure(s, t)),
{
    reveal(sets_wf);
    lemma_canonical_idempotent(t);
}

/// The facts of a well-formed state that the acknowledgement proofs use.
proof fn lemma_wf_facts(s: TopicSets)
    requires
        sets_wf(s),
    ensures
        forall|t: Seq<char>| s.confirmed.contains(t) ==> is_canonical(t),
        forall|t: Seq<char>| s.pending.contains(t) ==> is_canonical(t),
        forall|t: Seq<char>| s.removing.contains(t) ==> is_canonical(t),
        forall|t: Seq<char>| !(s.confirmed.contains(t) && s.pending.contains(t)),
        forall|t: Seq<char>| !(s.confirmed.contains(t) && s.removing.contains(t)),
        forall|t: Seq<char>| !(s.pending.contains(t) && s.removing.contains(t)),
{
    reveal(sets_wf);
}

/// The sets once the venue acknowledges exactly the topics `ack`: acknowledged requests are
/// confirmed, and removals the venue no longer lists are done.
pub open spec fn after_acknowledgement(s: TopicSets, ack: Set<Seq<char>>) -> TopicSets {
    TopicSets {
        confirmed: s.confirmed.union(s.pending.intersect(ack)).difference(
            s.removing.difference(ack),
        ),
        pending: s.pending.difference(ack),
        removing: s.removing.intersect(ack),
    }
}

/// The sets after a reconnect: everything confirmed or requested is requested again, and
/// pending removals are dropped.
pub open spec fn after_reconnect(s: TopicSets) -> TopicSets {
    TopicSets {
        confirmed: Set::empty(),
        pending: s.confirmed.union(s.pending),
        removing: Set::empty(),
    }
}

/// The topics `channel|symbol` of one channel's symbols.
pub open spec fn channel_topics(channel: Seq<char>, symbols: Seq<Seq<char>>) -> Seq<Seq<char>> {
    symbols.map_values(|symbol: Seq<char>| topic_of(channel, symbol))
}

/// The topics that a subscription acknowledgement lists, channel by channel.
pub open spec fn acknowledged_topics(state: AlpacaSubscriptionState) -> Seq<Seq<char>> {
    channel_topics("trades"@, views(state.trades@)) + channel_topics("quotes"@, views(state.quotes@))
        + channel_topics("bars"@, views(state.bars@)) + channel_topics(
        "dailyBars"@,
        views(state.daily_bars@),
    ) + channel_topics("updatedBars"@, views(state.updated_bars@)) + channel_topics(
        "statuses"@,
        views(state.statuses@),
    ) + channel_topics("lulds"@, views(state.lulds@))
}

fn append_topics(out: &mut Vec<String>, channel: &str, symbols: &Vec<String>)
    ensures
        views(final(out)@) == views(old(out)@) + channel_topics(channel@, views(symbols@)),
{
    let mut i: usize = 0;
    while i < symbols.len()
        invariant
            i <= symbols@.len(),
            views(out@) == views(old(out)@) + channel_topics(
                channel@,
                views(symbols@).subrange(0, i as int),
            ),
        decreases symbols@.len() - i,
    {
        let topic = make_topic(channel, symbols[i].as_str());
        let ghost before = views(out@);
        out.push(topic);
        assert(views(out@) =~= before.push(topic@));
        assert(channel_topics(channel@, views(symbols@).subrange(0, i + 1)) =~= channel_topics(
            channel@,
            views(symbols@).subrange(0, i as int),
        ).push(topic_of(channel@, symbols@[i as int]@)));
        i = i + 1;
    }
    assert(views(symbols@).subrange(0, symbols@.len() as int) =~= views(symbols@));
}

/// The topics that a subscription acknowledgement lists.
pub fn subscription_topics(state: &AlpacaSubscriptionState) -> (r: Vec<String>)
    ensures
        views(r@) == acknowledged_topics(*state),
{
    let mut topics: Vec<String> = Vec::new();
    assert(views(topics@) =~= Seq::<Seq<char>>::empty());
    append_topics(&mut topics, "trades", &state.trades);
    append_topics(&mut topics, "quotes", &state.quotes);
    append_topics(&mut topics, "bars", &state.bars);
    append_topics(&mut topics, "dailyBars", &state.daily_bars);
    append_topics(&mut topics, "updatedBars", &state.updated_bars);
    append_topics(&mut topics, "statuses", &state.statuses);
    append_topics(&mut topics, "lulds", &state.lulds);
    assert(views(topics@) =~= acknowledged_topics(*state));
    topics
}

/// The sets after `mark_unsubscribe(t)`.
pub open spec fn after_mark_unsubscribe(s: TopicSets, t: Seq<char>) -> TopicSets {
    let c = canonical_topic(t);
    TopicSets {
        confirmed: s.confirmed.remove(c),
        pending: s.pending.remove(c),
        removing: s.removing.insert(c),
    }
}

/// The topic `channel|symbol`.
pub open spec fn topic_of(channel: Seq<char>, symbol: Seq<char>) -> Seq<char> {
    channel + seq![TOPIC_DELIMITER] + symbol
}

/// Marks every symbol of a channel, in order.
pub open spec fn marked_subscribe(s: TopicSets, channel: Seq<char>, symbols: Seq<Seq<char>>) -> TopicSets
    decreases symbols.len(),
{
    if symbols.len() == 0 {
        s
    } else {
        after_mark_subscribe(
            marked_subscribe(s, channel, symbols.drop_last()),
            topic_of(channel, symbols.last()),
        )
    }
}

pub open spec fn marked_unsubscribe(s: TopicSets, channel: Seq<char>, symbols: Seq<Seq<char>>) -> TopicSets
    decreases symbols.len(),
{
    if symbols.len() == 0 {
        s
    } else {
        after_mark_unsubscribe(
            marked_unsubscribe(s, channel, symbols.drop_last()),
            topic_of(channel, symbols.last()),
        )
    }
}

/// A decoded market-data message; the domain payloads (trades, quotes, bars, ...) are carried
/// as `D`.
pub enum AlpacaMarketDataMessage<D> {
    Success { msg: String },
    Error { code: u32, msg: String },
    Subscription(AlpacaSubscriptionState),
    Data(D),
    /// A message type the adapter does not know.
    Unknown,
}

/// A frame of the market-data stream.
pub enum SessionFrame<D> {
    /// The transport reconnected.
    Reconnected,
    Messages(Vec<AlpacaMarketDataMessage<D>>),
}

/// What one frame means for the stream consumer, in protocol order.
pub enum AlpacaSessionEvent<D> {
    Authenticated,
    SubscriptionUpdated(AlpacaSubscriptionState),
    /// Consecutive domain messages, batched.
    MarketData(Vec<D>),
    VenueError { code: u32, message: String },
    ProtocolWarning(String),
    Reconnected { topics_to_replay: Vec<String> },
}

/// Mathematical view of an [`AlpacaSessionEvent`].
pub enum SessionEventView<D> {
    Authenticated,
    SubscriptionUpdated(AlpacaSubscriptionState),
    MarketData(Seq<D>),
    VenueError { code: u32, message: Seq<char> },
    ProtocolWarning(Seq<char>),
    Reconnected(Seq<Seq<char>>),
}

pub open spec fn event_view<D>(e: AlpacaSessionEvent<D>) -> SessionEventView<D> {
    match e {
        AlpacaSessionEvent::Authenticated => SessionEventView::Authenticated,
        AlpacaSessionEvent::SubscriptionUpdated(s) => SessionEventView::SubscriptionUpdated(s),
        AlpacaSessionEvent::MarketData(v) => SessionEventView::MarketData(v@),
        AlpacaSessionEvent::VenueError { code, message } => SessionEventView::VenueError {
            code,
            message: message@,
        },
        AlpacaSessionEvent::ProtocolWarning(m) => SessionEventView::ProtocolWarning(m@),
        AlpacaSessionEvent::Reconnected { topics_to_replay } => SessionEventView::Reconnected(
            views(topics_to_replay@),
        ),
    }
}

pub open spec fn events_view<D>(v: Seq<AlpacaSessionEvent<D>>) -> Seq<SessionEventView<D>> {
    v.map_values(|e: AlpacaSessionEvent<D>| event_view(e))
}

/// The warning for a message type the adapter does not know.
pub open spec fn unsupported_message_warning() -> Seq<char> {
    "Alpaca sent an unsupported market-data message type"@
}

/// The session while a frame is being applied: authentication, topics, the events so far and
/// the domain messages not yet emitted.
pub struct FrameModel<D> {
    pub authenticated: bool,
    pub sets: TopicSets,
    pub events: Seq<SessionEventView<D>>,
    pub batch: Seq<D>,
}

/// Emits the batched domain messages, if any.
pub open spec fn flushed<D>(m: FrameModel<D>) -> FrameModel<D> {
    if m.batch.len() > 0 {
        FrameModel {
            events: m.events.push(SessionEventView::MarketData(m.batch)),
            batch: Seq::empty(),
            ..m
        }
    } else {
        m
    }
}

/// One message applied to the session: a success `authenticated` authenticates, an
/// acknowledgement reconciles the topics, an error is reported (failing a pending
/// authentication), domain messages are batched and an unknown message is a warning. Every
/// message other than a domain message first emits the batch.
pub open spec fn applied<D>(m: FrameModel<D>, message: AlpacaMarketDataMessage<D>) -> FrameModel<D> {
    match message {
        AlpacaMarketDataMessage::Success { msg } => {
            let f = flushed(m);
            if msg@ == "authenticated"@ {
                FrameModel {
                    authenticated: true,
                    events: f.events.push(SessionEventView::Authenticated),
                    ..f
                }
            } else {
                f
            }
        },
        AlpacaMarketDataMessage::Subscription(state) => {
            let f = flushed(m);
            FrameModel {
                sets: after_acknowledgement(f.sets, acknowledged_topics(state).to_set()),
                events: f.events.push(SessionEventView::SubscriptionUpdated(state)),
                ..f
            }
        },
        AlpacaMarketDataMessage::Error { code, msg } => {
            let f = flushed(m);
            FrameModel {
                events: f.events.push(SessionEventView::VenueError { code, message: msg@ }),
                ..f
            }
        },
        AlpacaMarketDataMessage::Data(d) => FrameModel { batch: m.batch.push(d), ..m },
        AlpacaMarketDataMessage::Unknown => {
            let f = flushed(m);
            FrameModel {
                events: f.events.push(SessionEventView::ProtocolWarning(unsupported_message_warning())),
                ..f
            }
        },
    }
}

/// The messages applied in order.
pub open spec fn applied_all<D>(m: FrameModel<D>, messages: Seq<AlpacaMarketDataMessage<D>>) -> FrameModel<D>
    decreases messages.len(),
{
    if messages.len() == 0 {
        m
    } else {
        applied(applied_all(m, messages.drop_last()), messages.last())
    }
}

/// The message handed to a failing authentication attempt.
pub open spec fn auth_failure_text(code: u32, msg: Seq<char>) -> Seq<char> {
    "Alpaca error "@ + crate::common::text::decimal_text(code as nat) + ": "@ + msg
}

/// `Alpaca error {code}: {msg}`.
pub fn auth_failure_message(code: u32, msg: &str) -> (r: String)
    ensures
        r@ == auth_failure_text(code, msg@),
{
    let mut text = String::from_str("Alpaca error ");
    crate::common::text::append_decimal(&mut text, code as u64);
    text.append(": ");
    text.append(msg);
    text
}

fn flush<D>(events: &mut Vec<AlpacaSessionEvent<D>>, batch: &mut Vec<D>)
    ensures
        events_view(final(events)@) == (if old(batch)@.len() > 0 {
            events_view(old(events)@).push(SessionEventView::MarketData(old(batch)@))
        } else {
            events_view(old(events)@)
        }),
        final(batch)@ == Seq::<D>::empty(),
{
    if batch.len() > 0 {
        let mut taken: Vec<D> = Vec::new();
        std::mem::swap(&mut taken, batch);
        let ghost before = events_view(events@);
        events.push(AlpacaSessionEvent::MarketData(taken));
        assert(events_view(events@) =~= before.push(SessionEventView::MarketData(old(batch)@)));
    } else {
        assert(batch@ =~= Seq::<D>::empty());
    }
}

fn push_event<D>(events: &mut Vec<AlpacaSessionEvent<D>>, e: AlpacaSessionEvent<D>)
    ensures
        events_view(final(events)@) == events_view(old(events)@).push(event_view(e)),
{
    events.push(e);
    assert(events_view(final(events)@) =~= events_view(old(events)@).push(event_view(e)));
}

/// Reference counts, topics and the `(channel, symbol)` pairs to send, while a request's
/// intent is recorded.
pub struct IntentModel {
    pub refs: Map<Seq<char>, nat>,
    pub sets: TopicSets,
    pub sent: Seq<(Seq<char>, Seq<char>)>,
}

/// One symbol of a request: the first holder of a topic subscribes it and the last one to leave
/// unsubscribes it; any other change only moves the count.
pub open spec fn intent_step(
    m: IntentModel,
    action: AlpacaWsAction,
    channel: Seq<char>,
    symbol: Seq<char>,
) -> IntentModel {
    let t = topic_of(channel, symbol);
    match action {
        AlpacaWsAction::Subscribe => if !m.refs.dom().contains(t) {
            IntentModel {
                refs: m.refs.insert(t, 1),
                sets: after_mark_subscribe(m.sets, t),
                sent: m.sent.push((channel, symbol)),
            }
        } else {
            IntentModel { refs: m.refs.insert(t, m.refs[t] + 1), ..m }
        },
        AlpacaWsAction::Unsubscribe => if !m.refs.dom().contains(t) {
            m
        } else if m.refs[t] <= 1 {
            IntentModel {
                refs: m.refs.remove(t),
                sets: after_mark_unsubscribe(m.sets, t),
                sent: m.sent.push((channel, symbol)),
            }
        } else {
            IntentModel { refs: m.refs.insert(t, (m.refs[t] - 1) as nat), ..m }
        },
    }
}

pub open spec fn intent_fold(
    m: IntentModel,
    action: AlpacaWsAction,
    pairs: Seq<(Seq<char>, Seq<char>)>,
) -> IntentModel
    decreases pairs.len(),
{
    if pairs.len() == 0 {
        m
    } else {
        let last = pairs.last();
        intent_step(intent_fold(m, action, pairs.drop_last()), action, last.0, last.1)
    }
}

pub proof fn lemma_intent_fold_append(
    m: IntentModel,
    action: AlpacaWsAction,
    a: Seq<(Seq<char>, Seq<char>)>,
    b: Seq<(Seq<char>, Seq<char>)>,
)
    ensures
        intent_fold(m, action, a + b) == intent_fold(intent_fold(m, action, a), action, b),
    decreases b.len(),
{
    if b.len() == 0 {
        assert(a + b =~= a);
    } else {
        assert((a + b).drop_last() =~= a + b.drop_last());
        assert((a + b).last() == b.last());
        lemma_intent_fold_append(m, action, a, b.drop_last());
    }
}

pub open spec fn channel_pairs(channel: Seq<char>, symbols: Seq<Seq<char>>) -> Seq<
    (Seq<char>, Seq<char>),
> {
    symbols.map_values(|s: Seq<char>| (channel, s))
}

/// The `(channel, symbol)` pairs of a request, channel by channel.
pub open spec fn request_pairs(r: AlpacaWsSubscription) -> Seq<(Seq<char>, Seq<char>)> {
    channel_pairs("trades"@, views(r.trades@)) + channel_pairs("quotes"@, views(r.quotes@))
        + channel_pairs("bars"@, views(r.bars@)) + channel_pairs(
        "dailyBars"@,
        views(r.daily_bars@),
    ) + channel_pairs("updatedBars"@, views(r.updated_bars@)) + channel_pairs(
        "statuses"@,
        views(r.statuses@),
    ) + channel_pairs("lulds"@, views(r.lulds@))
}

/// The symbols of the sent pairs of one channel, in order.
pub open spec fn sent_symbols(sent: Seq<(Seq<char>, Seq<char>)>, channel: Seq<char>) -> Seq<
    Seq<char>,
>
    decreases sent.len(),
{
    if sent.len() == 0 {
        seq![]
    } else {
        let previous = sent_symbols(sent.drop_last(), channel);
        if sent.last().0 == channel {
            previous.push(sent.last().1)
        } else {
            previous
        }
    }
}

pub open spec fn refs_bounded(refs: Map<Seq<char>, nat>, bound: int) -> bool {
    forall|t: Seq<char>| refs.dom().contains(t) ==> refs[t] <= bound
}

pub open spec fn sent_channels_known(sent: Seq<(Seq<char>, Seq<char>)>) -> bool {
    forall|i: int| 0 <= i < sent.len() ==> is_channel_name((#[trigger] sent[i]).0)
}

proof fn lemma_sent_nonempty(sent: Seq<(Seq<char>, Seq<char>)>)
    requires
        sent.len() > 0,
    ensures
        sent_symbols(sent, sent.last().0).len() > 0,
{
}

proof fn lemma_sent_empty(sent: Seq<(Seq<char>, Seq<char>)>, c: Seq<char>)
    requires
        sent.len() == 0,
    ensures
        sent_symbols(sent, c).len() == 0,
{
}

/// One step keeps the counts bounded by one more and the sent channels known.
proof fn lemma_intent_step(
    m: IntentModel,
    action: AlpacaWsAction,
    channel: Seq<char>,
    symbol: Seq<char>,
    bound: int,
)
    requires
        refs_bounded(m.refs, bound),
        sent_channels_known(m.sent),
        is_channel_name(channel),
        bound >= 0,
    ensures
        refs_bounded(intent_step(m, action, channel, symbol).refs, bound + 1),
        sent_channels_known(intent_step(m, action, channel, symbol).sent),
{
    let f = intent_step(m, action, channel, symbol);
    assert forall|t: Seq<char>| f.refs.dom().contains(t) implies f.refs[t] <= bound + 1 by {
        if m.refs.dom().contains(t) {
            assert(m.refs[t] <= bound);
        }
    }
    assert forall|k: int| 0 <= k < f.sent.len() implies is_channel_name((#[trigger] f.sent[k]).0) by {
        if k < m.sent.len() {
            assert(f.sent[k] == m.sent[k]);
        }
    }
}

/// A topic splits back into the channel and symbol it was made of, when the channel has no
/// delimiter.
pub proof fn lemma_split_topic_of(channel: Seq<char>, symbol: Seq<char>)
    requires
        !channel.contains(TOPIC_DELIMITER),
    ensures
        split_topic(topic_of(channel, symbol)) == Some((channel, symbol)),
{
    let t = topic_of(channel, symbol);
    let n = channel.len() as int;
    assert(t[n] == '|');
    assert(exists|k: int| 0 <= k < t.len() && t[k] == '|');
    let k = choose|k: int| 0 <= k < t.len() && t[k] == '|' && forall|j: int| 0 <= j < k ==> t[j] != '|';
    assert(forall|j: int| 0 <= j < n ==> t[j] == channel[j]);
    assert(0 <= n < t.len() && t[n] == '|' && forall|j: int| 0 <= j < n ==> t[j] != '|') by {
        assert forall|j: int| 0 <= j < n implies t[j] != '|' by {
            if t[j] == '|' {
                assert(channel[j] == '|');
                assert(channel.contains(TOPIC_DELIMITER));
            }
        }
    }
    if k < n {
        assert(t[k] == channel[k]);
        assert(channel.contains(TOPIC_DELIMITER));
    }
    if k > n {
        assert(t[n] != '|');
    }
    assert(k == n);
    assert(t.subrange(0, n) =~= channel);
    assert(t.subrange(n + 1, t.len() as int) =~= symbol);
}

/// Replaying the topics of a channel's symbols yields those symbols again, in order: what
/// `make_topic` joins, the replay request splits back.
pub proof fn lemma_replay_round_trip(channel: Seq<char>, symbols: Seq<Seq<char>>)
    requires
        !channel.contains(TOPIC_DELIMITER),
    ensures
        topic_symbols(channel_topics(channel, symbols), channel) == symbols,
    decreases symbols.len(),
{
    if symbols.len() > 0 {
        let topics = channel_topics(channel, symbols);
        assert(topics.drop_last() =~= channel_topics(channel, symbols.drop_last()));
        lemma_replay_round_trip(channel, symbols.drop_last());
        lemma_split_topic_of(channel, symbols.last());
        assert(topics.last() == topic_of(channel, symbols.last()));
        assert(symbols.drop_last().push(symbols.last()) =~= symbols);
    } else {
        assert(channel_topics(channel, symbols) =~= Seq::<Seq<char>>::empty());
    }
}

/// Every counted topic has at least one holder.
pub open spec fn refs_positive(refs: Map<Seq<char>, nat>) -> bool {
    forall|t: Seq<char>| refs.dom().contains(t) ==> refs[t] >= 1
}

/// Reference counting: a subscription followed by an unsubscription of the same symbol
/// restores the counts; where another holder already had the topic neither step sends
/// anything, and where none had it the first step sends the subscription and the second the
/// unsubscription.
pub proof fn lemma_subscribe_then_unsubscribe(m: IntentModel, channel: Seq<char>, symbol: Seq<char>)
    requires
        refs_positive(m.refs),
    ensures
        ({
            let t = topic_of(channel, symbol);
            let a = intent_step(m, AlpacaWsAction::Subscribe, channel, symbol);
            let b = intent_step(a, AlpacaWsAction::Unsubscribe, channel, symbol);
            &&& b.refs == m.refs
            &&& m.refs.dom().contains(t) ==> a.sent == m.sent && b.sent == m.sent
            &&& !m.refs.dom().contains(t) ==> a.sent == m.sent.push((channel, symbol)) && b.sent
                == a.sent.push((channel, symbol))
        }),
{
    let t = topic_of(channel, symbol);
    let a = intent_step(m, AlpacaWsAction::Subscribe, channel, symbol);
    let b = intent_step(a, AlpacaWsAction::Unsubscribe, channel, symbol);
    if m.refs.dom().contains(t) {
        assert(b.refs =~= m.refs);
    } else {
        assert(b.refs =~= m.refs);
    }
}

/// An unsubscription of a symbol nobody holds changes nothing and sends nothing.
pub proof fn lemma_unsubscribe_unheld(m: IntentModel, channel: Seq<char>, symbol: Seq<char>)
    requires
        !m.refs.dom().contains(topic_of(channel, symbol)),
    ensures
        intent_step(m, AlpacaWsAction::Unsubscribe, channel, symbol) == m,
{
}

/// An acknowledgement keeps the sets well formed: every acknowledged request is confirmed,
/// unacknowledged requests stay requested, and no removal the venue stopped listing remains
/// confirmed.
pub proof fn lemma_acknowledgement(s: TopicSets, ack: Set<Seq<char>>)
    requires
        sets_wf(s),
    ensures
        sets_wf(after_acknowledgement(s, ack)),
        forall|t: Seq<char>|
            s.pending.contains(t) && ack.contains(t) ==> #[trigger] after_acknowledgement(
                s,
                ack,
            ).confirmed.contains(t),
        forall|t: Seq<char>|
            s.pending.contains(t) && !ack.contains(t) ==> #[trigger] after_acknowledgement(
                s,
                ack,
            ).pending.contains(t),
        forall|t: Seq<char>|
            s.removing.contains(t) && !ack.contains(t) ==> !#[trigger] after_acknowledgement(
                s,
                ack,
            ).confirmed.contains(t),
{
    reveal(sets_wf);
}

/// A reconnect keeps the sets well formed and requests again every topic that was confirmed
/// or requested, so nothing the client wanted is lost.
pub proof fn lemma_reconnect_replays(s: TopicSets)
    requires
        sets_wf(s),
    ensures
        sets_wf(after_reconnect(s)),
        forall|t: Seq<char>|
            s.confirmed.contains(t) || s.pending.contains(t) ==> #[trigger] after_reconnect(
                s,
            ).pending.contains(t),
        after_reconnect(s).confirmed.is_empty(),
        after_reconnect(s).removing.is_empty(),
{
    reveal(sets_wf);
}

/// Market-data session state: whether the stream is authenticated and which topics are
/// confirmed, requested or being removed.
pub struct AlpacaSessionState {
    auth: AuthTracker,
    /// The session's record of authentication, mirrored to `auth`, which no other handle
    /// shares.
    auth_ok: bool,
    subscriptions: SubscriptionState,
}

/// The topic `channel|symbol`.
pub fn make_topic(channel: &str, symbol: &str) -> (r: String)
    ensures
        r@ == topic_of(channel@, symbol@),
{
    let mut topic = String::from_str(channel);
    topic.append("|");
    topic.append(symbol);
    proof {
        reveal_strlit("|");
    }
    topic
}

/// Marks each symbol of a channel for removal in the subscription state.
#[verifier::spinoff_prover]
#[verifier::rlimit(40)]
fn mark_unsubscribe_symbols(subs: &mut SubscriptionState, channel: &str, symbols: &Vec<String>)
    requires
        sets_wf(topic_sets(*old(subs))),
    ensures
        sets_wf(topic_sets(*final(subs))),
        topic_sets(*final(subs)) == marked_unsubscribe(topic_sets(*old(subs)), channel@, views(symbols@)),
        topic_references(*final(subs)) == topic_references(*old(subs)),
{
    let mut i: usize = 0;
    while i < symbols.len()
        invariant
            i <= symbols@.len(),
            topic_sets(*subs) == marked_unsubscribe(
                topic_sets(*old(subs)),
                channel@,
                views(symbols@).subrange(0, i as int),
            ),
            topic_references(*subs) == topic_references(*old(subs)),
            sets_wf(topic_sets(*subs)),
        decreases symbols@.len() - i,
    {
        let topic = make_topic(channel, symbols[i].as_str());
        let ghost old_sets = topic_sets(*subs);
        state_ops::mark_unsubscribe(subs, topic.as_str());
        proof {
            assert(topic_sets(*subs) == after_mark_unsubscribe(old_sets, topic@));
            let prefix = views(symbols@).subrange(0, i + 1);
            assert(prefix.drop_last() =~= views(symbols@).subrange(0, i as int));
            assert(prefix.last() == symbols@[i as int]@);
            lemma_mark_unsubscribe_wf(old_sets, topic@);
        }
        i = i + 1;
    }
    assert(views(symbols@).subrange(0, symbols@.len() as int) =~= views(symbols@));
}

impl AlpacaSessionState {
    /// The topic sets are well formed; every operation keeps them so.
    pub closed spec fn wf(&self) -> bool {
        sets_wf(topic_sets(self.subscriptions))
    }

    /// The topic sets.
    pub closed spec fn sets(&self) -> TopicSets {
        topic_sets(self.subscriptions)
    }

    /// How many subscribers hold each topic.
    pub closed spec fn references(&self) -> Map<Seq<char>, nat> {
        topic_references(self.subscriptions)
    }

    /// Whether the stream's last authentication succeeded.
    pub closed spec fn authenticated(&self) -> bool {
        self.auth_ok
    }

    /// A fresh session: unauthenticated, without topics or holders.
    pub fn new() -> (r: AlpacaSessionState)
        ensures
            !r.authenticated(),
            r.sets().confirmed == Set::<Seq<char>>::empty(),
            r.sets().pending == Set::<Seq<char>>::empty(),
            r.sets().removing == Set::<Seq<char>>::empty(),
            r.references() == Map::<Seq<char>, nat>::empty(),
            r.wf(),
    {
        let r = AlpacaSessionState {
            auth: state_ops::new_auth_tracker(),
            auth_ok: false,
            subscriptions: state_ops::new_subscription_state(TOPIC_DELIMITER),
        };
        proof {
            reveal(sets_wf);
        }
        r
    }

    pub fn is_authenticated(&self) -> (r: bool)
        ensures
            r == self.authenticated(),
    {
        self.auth_ok
    }

    /// Starts an authentication attempt; the receiver gets its outcome.
    pub fn begin_authentication(&mut self) -> (r: tokio::sync::oneshot::Receiver<
        Result<(), String>,
    >)
        ensures
            !final(self).authenticated(),
            final(self).sets() == old(self).sets(),
            final(self).references() == old(self).references(),
            old(self).wf() ==> final(self).wf(),
    {
        self.auth_ok = false;
        state_ops::begin(&mut self.auth)
    }

    /// The number of confirmed topics.
    pub fn confirmed_len(&self) -> (r: usize)
        ensures
            r == self.sets().confirmed.len(),
    {
        state_ops::confirmed_count(&self.subscriptions)
    }

    /// The requested, unacknowledged topics, each once.
    pub fn pending_subscribe_topics(&self) -> (r: Vec<String>)
        ensures
            state_ops::lists_exactly(r@, self.sets().pending),
    {
        state_ops::list_pending_subscribe(&self.subscriptions)
    }

    /// The topics being removed, each once.
    pub fn pending_unsubscribe_topics(&self) -> (r: Vec<String>)
        ensures
            state_ops::lists_exactly(r@, self.sets().removing),
    {
        state_ops::list_pending_unsubscribe(&self.subscriptions)
    }

    /// How many subscribers hold a topic.
    pub fn reference_count(&self, topic: &str) -> (r: usize)
        ensures
            r == (if self.references().dom().contains(topic@) {
                self.references()[topic@]
            } else {
                0
            }),
    {
        state_ops::reference_count(&self.subscriptions, topic)
    }

    /// Records a subscribe request for each symbol of a channel.
    #[verifier::spinoff_prover]
    pub fn mark_subscribe(&mut self, channel: &str, symbols: &Vec<String>)
        requires
            old(self).wf(),
        ensures
            final(self).wf(),
            final(self).sets() == marked_subscribe(old(self).sets(), channel@, views(symbols@)),
            final(self).references() == old(self).references(),
            final(self).authenticated() == old(self).authenticated(),
    {
        let mut i: usize = 0;
        while i < symbols.len()
            invariant
                i <= symbols@.len(),
                self.sets() == marked_subscribe(
                    old(self).sets(),
                    channel@,
                    views(symbols@).subrange(0, i as int),
                ),
                self.references() == old(self).references(),
                self.authenticated() == old(self).authenticated(),
                self.wf(),
            decreases symbols@.len() - i,
        {
            let topic = make_topic(channel, symbols[i].as_str());
            let ghost old_sets = self.sets();
            state_ops::mark_subscribe(&mut self.subscriptions, topic.as_str());
            proof {
                let prefix = views(symbols@).subrange(0, i + 1);
                assert(prefix.drop_last() =~= views(symbols@).subrange(0, i as int));
                assert(prefix.last() == symbols@[i as int]@);
                lemma_mark_subscribe_wf(old_sets, topic@);
            }
            i = i + 1;
        }
        assert(views(symbols@).subrange(0, symbols@.len() as int) =~= views(symbols@));
    }

    /// Records an unsubscribe request for each symbol of a channel.
    pub fn mark_unsubscribe(&mut self, channel: &str, symbols: &Vec<String>)
        requires
            old(self).wf(),
        ensures
            final(self).wf(),
            final(self).sets() == marked_unsubscribe(old(self).sets(), channel@, views(symbols@)),
            final(self).references() == old(self).references(),
            final(self).authenticated() == old(self).authenticated(),
    {
        mark_unsubscribe_symbols(&mut self.subscriptions, channel, symbols);
    }

    /// Applies a subscription acknowledgement: requested topics that the venue lists become
    /// confirmed, and removals it no longer lists are complete.
    #[verifier::spinoff_prover]
    #[verifier::rlimit(40)]
    pub fn reconcile_subscriptions(&mut self, state: &AlpacaSubscriptionState)
        requires
            old(self).wf(),
        ensures
            final(self).wf(),
            final(self).sets() == after_acknowledgement(
                old(self).sets(),
                acknowledged_topics(*state).to_set(),
            ),
            final(self).references() == old(self).references(),
            final(self).authenticated() == old(self).authenticated(),
    {
        let acknowledged = subscription_topics(state);
        let ghost ack = acknowledged_topics(*state).to_set();
        let ghost s0 = self.sets();
        proof {
            lemma_wf_facts(s0);
        }
        let pending = state_ops::list_pending_subscribe(&self.subscriptions);
        let ghost listed = views(pending@);
        let mut i: usize = 0;
        while i < pending.len()
            invariant
                i <= pending@.len(),
                listed == views(pending@),
                ack == acknowledged_topics(*state).to_set(),
                views(acknowledged@) == acknowledged_topics(*state),
                state_ops::lists_exactly(pending@, s0.pending),
                forall|t: Seq<char>| s0.confirmed.contains(t) ==> is_canonical(t),
                forall|t: Seq<char>| s0.pending.contains(t) ==> is_canonical(t),
                forall|t: Seq<char>| !(s0.pending.contains(t) && s0.removing.contains(t)),
                self.sets().confirmed == s0.confirmed.union(
                    listed.subrange(0, i as int).to_set().intersect(ack),
                ),
                self.sets().pending == s0.pending.difference(
                    listed.subrange(0, i as int).to_set().intersect(ack),
                ),
                self.sets().removing == s0.removing,
                self.wf(),
                self.references() == old(self).references(),
                self.authenticated() == old(self).authenticated(),
            decreases pending@.len() - i,
        {
            let topic = &pending[i];
            let ghost t = topic@;
            let ghost before = self.sets();
            proof {
                assert(s0.pending.contains(t));
                assert(is_canonical(t));
                assert(!before.removing.contains(t));
                assert(listed.subrange(0, i + 1) =~= listed.subrange(0, i as int).push(t));
                listed.subrange(0, i as int).lemma_push_to_set_commute(t);
            }
            if crate::execution::reports::contains_string(&acknowledged, topic) {
                state_ops::confirm_subscribe(&mut self.subscriptions, topic.as_str());
                proof {
                    lemma_confirm_subscribe_wf(before, t);
                    assert(ack.contains(t));
                    assert(self.sets().confirmed =~= s0.confirmed.union(
                        listed.subrange(0, i + 1).to_set().intersect(ack),
                    ));
                    assert(self.sets().pending =~= s0.pending.difference(
                        listed.subrange(0, i + 1).to_set().intersect(ack),
                    ));
                }
            } else {
                proof {
                    assert(!ack.contains(t));
                    assert(self.sets().confirmed =~= s0.confirmed.union(
                        listed.subrange(0, i + 1).to_set().intersect(ack),
                    ));
                    assert(self.sets().pending =~= s0.pending.difference(
                        listed.subrange(0, i + 1).to_set().intersect(ack),
                    ));
                }
            }
            i = i + 1;
        }
        proof {
            assert(listed.subrange(0, listed.len() as int) =~= listed);
            assert(listed.to_set() =~= s0.pending) by {
                assert forall|t: Seq<char>| listed.to_set().contains(t) <==> s0.pending.contains(t) by {
                    if s0.pending.contains(t) {
                        let k = choose|k: int| 0 <= k < pending@.len() && #[trigger] pending@[k]@ == t;
                        assert(listed[k] == t);
                    }
                    if listed.to_set().contains(t) {
                        let k = choose|k: int| 0 <= k < listed.len() && listed[k] == t;
                        assert(pending@[k]@ == t);
                    }
                }
            }
        }
        let ghost s1 = self.sets();
        let removing = state_ops::list_pending_unsubscribe(&self.subscriptions);
        let ghost gone = views(removing@);
        let mut j: usize = 0;
        while j < removing.len()
            invariant
                j <= removing@.len(),
                gone == views(removing@),
                ack == acknowledged_topics(*state).to_set(),
                views(acknowledged@) == acknowledged_topics(*state),
                state_ops::lists_exactly(removing@, s1.removing),
                forall|t: Seq<char>| s1.removing.contains(t) ==> is_canonical(t),
                self.sets().confirmed == s1.confirmed.difference(
                    gone.subrange(0, j as int).to_set().difference(ack),
                ),
                self.sets().pending == s1.pending,
                self.sets().removing == s1.removing.difference(
                    gone.subrange(0, j as int).to_set().difference(ack),
                ),
                self.wf(),
                self.references() == old(self).references(),
                self.authenticated() == old(self).authenticated(),
            decreases removing@.len() - j,
        {
            let topic = &removing[j];
            let ghost t = topic@;
            let ghost before = self.sets();
            proof {
                assert(s1.removing.contains(t));
                assert(is_canonical(t));
                assert(gone.subrange(0, j + 1) =~= gone.subrange(0, j as int).push(t));
                gone.subrange(0, j as int).lemma_push_to_set_commute(t);
                assert(!gone.subrange(0, j as int).to_set().contains(t)) by {
                    if gone.subrange(0, j as int).to_set().contains(t) {
                        let k = choose|k: int| 0 <= k < j && gone.subrange(0, j as int)[k] == t;
                        assert(removing@[k]@ == removing@[j as int]@);
                    }
                }
                assert(before.removing.contains(t));
            }
            if !crate::execution::reports::contains_string(&acknowledged, topic) {
                state_ops::confirm_unsubscribe(&mut self.subscriptions, topic.as_str());
                proof {
                    lemma_confirm_unsubscribe_wf(before, t);
                    assert(self.sets().confirmed =~= s1.confirmed.difference(
                        gone.subrange(0, j + 1).to_set().difference(ack),
                    ));
                    assert(self.sets().removing =~= s1.removing.difference(
                        gone.subrange(0, j + 1).to_set().difference(ack),
                    ));
                }
            } else {
                proof {
                    assert(self.sets().confirmed =~= s1.confirmed.difference(
                        gone.subrange(0, j + 1).to_set().difference(ack),
                    ));
                    assert(self.sets().removing =~= s1.removing.difference(
                        gone.subrange(0, j + 1).to_set().difference(ack),
                    ));
                }
            }
            j = j + 1;
        }
        proof {
            assert(gone.subrange(0, gone.len() as int) =~= gone);
            assert(gone.to_set() =~= s1.removing) by {
                assert forall|t: Seq<char>| gone.to_set().contains(t) <==> s1.removing.contains(t) by {
                    if s1.removing.contains(t) {
                        let k = choose|k: int| 0 <= k < removing@.len() && #[trigger] removing@[k]@ == t;
                        assert(gone[k] == t);
                    }
                    if gone.to_set().contains(t) {
                        let k = choose|k: int| 0 <= k < gone.len() && gone[k] == t;
                        assert(removing@[k]@ == t);
                    }
                }
            }
            let f = after_acknowledgement(s0, ack);
            assert(self.sets().confirmed =~= f.confirmed);
            assert(self.sets().pending =~= f.pending);
            assert(self.sets().removing =~= f.removing);
        }
    }

    /// After a reconnect every confirmed or requested topic is requested again and pending
    /// removals are dropped; the result lists the topics to replay.
    #[verifier::spinoff_prover]
    #[verifier::rlimit(40)]
    pub fn reset_after_reconnect(&mut self) -> (r: Vec<String>)
        requires
            old(self).wf(),
        ensures
            final(self).wf(),
            final(self).sets() == after_reconnect(old(self).sets()),
            views(r@).to_set() == old(self).sets().confirmed.union(old(self).sets().pending),
            forall|i: int, j: int| 0 <= i < j < r@.len() ==> r@[i]@ != r@[j]@,
            final(self).references() == old(self).references(),
            final(self).authenticated() == old(self).authenticated(),
    {
        let ghost s0 = self.sets();
        proof {
            lemma_wf_facts(s0);
        }
        let topics = state_ops::list_all_topics(&self.subscriptions);
        let removing = state_ops::list_pending_unsubscribe(&self.subscriptions);
        let ghost gone = views(removing@);
        let mut j: usize = 0;
        while j < removing.len()
            invariant
                j <= removing@.len(),
                gone == views(removing@),
                state_ops::lists_exactly(removing@, s0.removing),
                forall|t: Seq<char>| s0.removing.contains(t) ==> is_canonical(t),
                forall|t: Seq<char>| !(s0.confirmed.contains(t) && s0.removing.contains(t)),
                self.sets().confirmed == s0.confirmed,
                self.sets().pending == s0.pending,
                self.sets().removing == s0.removing.difference(gone.subrange(0, j as int).to_set()),
                self.wf(),
                self.references() == old(self).references(),
                self.authenticated() == old(self).authenticated(),
            decreases removing@.len() - j,
        {
            let topic = &removing[j];
            let ghost t = topic@;
            let ghost before = self.sets();
            proof {
                assert(s0.removing.contains(t));
                assert(is_canonical(t));
                assert(gone.subrange(0, j + 1) =~= gone.subrange(0, j as int).push(t));
                gone.subrange(0, j as int).lemma_push_to_set_commute(t);
                assert(!gone.subrange(0, j as int).to_set().contains(t)) by {
                    if gone.subrange(0, j as int).to_set().contains(t) {
                        let k = choose|k: int| 0 <= k < j && gone.subrange(0, j as int)[k] == t;
                        assert(removing@[k]@ == removing@[j as int]@);
                    }
                }
                assert(before.removing.contains(t));
            }
            state_ops::confirm_unsubscribe(&mut self.subscriptions, topic.as_str());
            proof {
                lemma_confirm_unsubscribe_wf(before, t);
                assert(self.sets().confirmed =~= s0.confirmed);
                assert(self.sets().removing =~= s0.removing.difference(
                    gone.subrange(0, j + 1).to_set(),
                ));
            }
            j = j + 1;
        }
        proof {
            assert(gone.subrange(0, gone.len() as int) =~= gone);
            assert(self.sets().removing =~= Set::<Seq<char>>::empty()) by {
                assert forall|t: Seq<char>| !self.sets().removing.contains(t) by {
                    if s0.removing.contains(t) {
                        let k = choose|k: int| 0 <= k < removing@.len() && #[trigger] removing@[k]@ == t;
                        assert(gone[k] == t);
                        assert(gone.to_set().contains(t));
                    }
                }
            }
        }
        let ghost listed = views(topics@);
        let ghost s1 = self.sets();
        let mut i: usize = 0;
        while i < topics.len()
            invariant
                i <= topics@.len(),
                listed == views(topics@),
                s1.confirmed == s0.confirmed,
                s1.pending == s0.pending,
                s1.removing == Set::<Seq<char>>::empty(),
                forall|t: Seq<char>| s0.confirmed.contains(t) ==> is_canonical(t),
                forall|t: Seq<char>| s0.pending.contains(t) ==> is_canonical(t),
                forall|k: int|
                    0 <= k < topics@.len() ==> (s0.confirmed.contains(#[trigger] topics@[k]@)
                        || s0.pending.contains(topics@[k]@)),
                self.sets().confirmed == s0.confirmed.difference(listed.subrange(0, i as int).to_set()),
                self.sets().pending == s0.pending.union(listed.subrange(0, i as int).to_set()),
                self.sets().removing == Set::<Seq<char>>::empty(),
                self.wf(),
                self.references() == old(self).references(),
                self.authenticated() == old(self).authenticated(),
            decreases topics@.len() - i,
        {
            let topic = &topics[i];
            let ghost t = topic@;
            let ghost before = self.sets();
            proof {
                assert(s0.confirmed.contains(t) || s0.pending.contains(t));
                assert(is_canonical(t));
                assert(listed.subrange(0, i + 1) =~= listed.subrange(0, i as int).push(t));
                listed.subrange(0, i as int).lemma_push_to_set_commute(t);
            }
            state_ops::mark_failure(&mut self.subscriptions, topic.as_str());
            proof {
                lemma_mark_failure_wf(before, t);
                assert(self.sets().confirmed =~= s0.confirmed.difference(
                    listed.subrange(0, i + 1).to_set(),
                ));
                assert(self.sets().pending =~= s0.pending.union(listed.subrange(0, i + 1).to_set()));
            }
            i = i + 1;
        }
        proof {
            assert(listed.subrange(0, listed.len() as int) =~= listed);
            assert(listed.to_set() =~= s0.confirmed.union(s0.pending)) by {
                assert forall|t: Seq<char>| listed.to_set().contains(t) <==> s0.confirmed.union(
                    s0.pending,
                ).contains(t) by {
                    if s0.confirmed.union(s0.pending).contains(t) {
                        let k = choose|k: int| 0 <= k < topics@.len() && #[trigger] topics@[k]@ == t;
                        assert(listed[k] == t);
                    }
                    if listed.to_set().contains(t) {
                        let k = choose|k: int| 0 <= k < listed.len() && listed[k] == t;
                        assert(topics@[k]@ == t);
                    }
                }
            }
            assert(self.sets().confirmed =~= Set::<Seq<char>>::empty());
            assert(self.sets().pending =~= s0.confirmed.union(s0.pending));
        }
        topics
    }

    /// Applies a complete frame. A reconnect invalidates authentication and returns the topics
    /// to replay; otherwise the messages are applied in order and the events come out in
    /// protocol order, with consecutive domain messages batched.
    #[verifier::spinoff_prover]
    #[verifier::rlimit(60)]
    pub fn on_frame<D>(&mut self, frame: SessionFrame<D>) -> (r: Vec<AlpacaSessionEvent<D>>)
        requires
            old(self).wf(),
        ensures
            final(self).wf(),
            final(self).references() == old(self).references(),
            match frame {
                SessionFrame::Reconnected => {
                    &&& !final(self).authenticated()
                    &&& final(self).sets() == after_reconnect(old(self).sets())
                    &&& r@.len() == 1
                    &&& r@[0] matches AlpacaSessionEvent::Reconnected { topics_to_replay }
                        && views(topics_to_replay@).to_set() == old(self).sets().confirmed.union(
                        old(self).sets().pending,
                    ) && forall|i: int, j: int|
                        0 <= i < j < topics_to_replay@.len() ==> topics_to_replay@[i]@
                            != topics_to_replay@[j]@
                },
                SessionFrame::Messages(messages) => {
                    let m = flushed(
                        applied_all(
                            FrameModel {
                                authenticated: old(self).authenticated(),
                                sets: old(self).sets(),
                                events: Seq::empty(),
                                batch: Seq::empty(),
                            },
                            messages@,
                        ),
                    );
                    &&& final(self).authenticated() == m.authenticated
                    &&& final(self).sets() == m.sets
                    &&& events_view(r@) == m.events
                },
            },
    {
        match frame {
            SessionFrame::Reconnected => {
                state_ops::invalidate(&mut self.auth);
                self.auth_ok = false;
                let topics_to_replay = self.reset_after_reconnect();
                vec![AlpacaSessionEvent::Reconnected { topics_to_replay }]
            },
            SessionFrame::Messages(messages) => {
                let ghost all = messages@;
                let ghost m0 = FrameModel {
                    authenticated: self.authenticated(),
                    sets: self.sets(),
                    events: Seq::<SessionEventView<D>>::empty(),
                    batch: Seq::<D>::empty(),
                };
                let mut messages = messages;
                let mut events: Vec<AlpacaSessionEvent<D>> = Vec::new();
                let mut batch: Vec<D> = Vec::new();
                proof {
                    assert(events_view(events@) =~= Seq::<SessionEventView<D>>::empty());
                    assert(all.subrange(0, 0) =~= Seq::<AlpacaMarketDataMessage<D>>::empty());
                }
                while messages.len() > 0
                    invariant
                        messages@.len() <= all.len(),
                        messages@ == all.subrange(all.len() - messages@.len(), all.len() as int),
                        self.wf(),
                        self.references() == old(self).references(),
                        ({
                            let m = applied_all(m0, all.subrange(0, all.len() - messages@.len()));
                            &&& self.authenticated() == m.authenticated
                            &&& self.sets() == m.sets
                            &&& events_view(events@) == m.events
                            &&& batch@ == m.batch
                        }),
                    decreases messages@.len(),
                {
                    let ghost k = all.len() - messages@.len();
                    let message = messages.remove(0);
                    proof {
                        assert(message == all[k]);
                        assert(all.subrange(0, k + 1).drop_last() =~= all.subrange(0, k));
                        assert(all.subrange(0, k + 1).last() == all[k]);
                        assert(messages@ =~= all.subrange(k + 1, all.len() as int));
                    }
                    match message {
                        AlpacaMarketDataMessage::Success { msg } => {
                            flush(&mut events, &mut batch);
                            if crate::common::text::str_eq(msg.as_str(), "authenticated") {
                                state_ops::succeed(&mut self.auth);
                                self.auth_ok = true;
                                push_event(&mut events, AlpacaSessionEvent::Authenticated);
                            }
                        },
                        AlpacaMarketDataMessage::Subscription(state) => {
                            flush(&mut events, &mut batch);
                            self.reconcile_subscriptions(&state);
                            push_event(&mut events, AlpacaSessionEvent::SubscriptionUpdated(state));
                        },
                        AlpacaMarketDataMessage::Error { code, msg } => {
                            flush(&mut events, &mut batch);
                            if !self.auth_ok {
                                let text = auth_failure_message(code, msg.as_str());
                                state_ops::fail(&mut self.auth, text);
                            }
                            push_event(&mut events, AlpacaSessionEvent::VenueError { code, message: msg });
                        },
                        AlpacaMarketDataMessage::Data(d) => {
                            batch.push(d);
                        },
                        AlpacaMarketDataMessage::Unknown => {
                            flush(&mut events, &mut batch);
                            let warning = String::from_str(
                                "Alpaca sent an unsupported market-data message type",
                            );
                            push_event(&mut events, AlpacaSessionEvent::ProtocolWarning(warning));
                        },
                    }
                }
                proof {
                    assert(all.subrange(0, all.len() as int) =~= all);
                }
                flush(&mut events, &mut batch);
                events
            },
        }
    }

    /// Records one symbol of a request.
    #[verifier::spinoff_prover]
    #[verifier::rlimit(80)]
    fn record_symbol(
        &mut self,
        action: AlpacaWsAction,
        channel: &str,
        symbol: &String,
        effective: &mut AlpacaWsSubscription,
        Ghost(m): Ghost<IntentModel>,
    )
        requires
            old(self).wf(),
            is_channel_name(channel@),
            old(self).references() == m.refs,
            old(self).sets() == m.sets,
            m.refs.dom().contains(topic_of(channel@, symbol@)) ==> m.refs[topic_of(
                channel@,
                symbol@,
            )] < usize::MAX,
            old(effective).action == action,
            forall|c: Seq<char>|
                #![trigger channel_list(*old(effective), c)]
                is_channel_name(c) ==> channel_list(*old(effective), c) == sent_symbols(m.sent, c),
        ensures
            final(self).wf(),
            final(self).authenticated() == old(self).authenticated(),
            ({
                let f = intent_step(m, action, channel@, symbol@);
                &&& final(self).references() == f.refs
                &&& final(self).sets() == f.sets
                &&& final(effective).action == action
                &&& forall|c: Seq<char>|
                    #![trigger channel_list(*final(effective), c)]
                    is_channel_name(c) ==> channel_list(*final(effective), c) == sent_symbols(
                        f.sent,
                        c,
                    )
            }),
    {
        let topic = make_topic(channel, symbol.as_str());
        let should_send = match action {
            AlpacaWsAction::Subscribe => state_ops::add_reference(
                &mut self.subscriptions,
                topic.as_str(),
            ),
            AlpacaWsAction::Unsubscribe => state_ops::remove_reference(
                &mut self.subscriptions,
                topic.as_str(),
            ),
        };
        if should_send {
            let single = vec![symbol.clone()];
            proof {
                assert(views(single@) =~= seq![symbol@]);
                assert(views(single@).drop_last() =~= Seq::<Seq<char>>::empty());
                assert(views(single@).last() == symbol@);
            }
            let ghost before_sets = self.sets();
            match action {
                AlpacaWsAction::Subscribe => {
                    self.mark_subscribe(channel, &single);
                    proof {
                        assert(marked_subscribe(before_sets, channel@, views(single@).drop_last())
                            == before_sets);
                        assert(self.sets() == after_mark_subscribe(
                            before_sets,
                            topic_of(channel@, symbol@),
                        ));
                    }
                },
                AlpacaWsAction::Unsubscribe => {
                    self.mark_unsubscribe(channel, &single);
                    proof {
                        assert(marked_unsubscribe(
                            before_sets,
                            channel@,
                            views(single@).drop_last(),
                        ) == before_sets);
                        assert(self.sets() == after_mark_unsubscribe(
                            before_sets,
                            topic_of(channel@, symbol@),
                        ));
                    }
                },
            }
            let ghost before_effective = *effective;
            push_subscription_symbol(effective, channel, symbol.clone());
            proof {
                let f = intent_step(m, action, channel@, symbol@);
                assert(f.sent == m.sent.push((channel@, symbol@)));
                assert(f.sent.drop_last() =~= m.sent);
                assert forall|c: Seq<char>| #![trigger channel_list(*effective, c)]
                    is_channel_name(c) implies channel_list(*effective, c) == sent_symbols(
                        f.sent,
                        c,
                    ) by {
                    assert(channel_list(before_effective, c) == sent_symbols(m.sent, c));
                }
            }
        }
    }

    /// Records every symbol of one channel of a request.
    #[verifier::spinoff_prover]
    #[verifier::rlimit(80)]
    fn record_channel(
        &mut self,
        action: AlpacaWsAction,
        channel: &str,
        symbols: &Vec<String>,
        effective: &mut AlpacaWsSubscription,
        Ghost(m): Ghost<IntentModel>,
        Ghost(bound): Ghost<int>,
    )
        requires
            old(self).wf(),
            is_channel_name(channel@),
            old(self).references() == m.refs,
            old(self).sets() == m.sets,
            sent_channels_known(m.sent),
            old(effective).action == action,
            forall|c: Seq<char>|
                #![trigger channel_list(*old(effective), c)]
                is_channel_name(c) ==> channel_list(*old(effective), c) == sent_symbols(m.sent, c),
            refs_bounded(m.refs, bound),
            bound >= 0,
            bound + symbols@.len() <= usize::MAX,
        ensures
            final(self).wf(),
            final(self).authenticated() == old(self).authenticated(),
            ({
                let f = intent_fold(m, action, channel_pairs(channel@, views(symbols@)));
                &&& final(self).references() == f.refs
                &&& final(self).sets() == f.sets
                &&& sent_channels_known(f.sent)
                &&& final(effective).action == action
                &&& forall|c: Seq<char>|
                    #![trigger channel_list(*final(effective), c)]
                    is_channel_name(c) ==> channel_list(*final(effective), c) == sent_symbols(
                        f.sent,
                        c,
                    )
                &&& refs_bounded(f.refs, bound + symbols@.len())
            }),
    {
        let mut i: usize = 0;
        while i < symbols.len()
            invariant
                i <= symbols@.len(),
                is_channel_name(channel@),
                self.wf(),
                self.authenticated() == old(self).authenticated(),
                bound + symbols@.len() <= usize::MAX,
                bound >= 0,
                effective.action == action,
                ({
                    let f = intent_fold(m, action, channel_pairs(channel@, views(symbols@).subrange(0, i as int)));
                    &&& self.references() == f.refs
                    &&& self.sets() == f.sets
                    &&& sent_channels_known(f.sent)
                    &&& forall|c: Seq<char>|
                        #![trigger channel_list(*effective, c)]
                        is_channel_name(c) ==> channel_list(*effective, c) == sent_symbols(f.sent, c)
                    &&& refs_bounded(f.refs, bound + i)
                }),
            decreases symbols@.len() - i,
        {
            let ghost prefix = channel_pairs(channel@, views(symbols@).subrange(0, i as int));
            let ghost f = intent_fold(m, action, prefix);
            proof {
                let next = channel_pairs(channel@, views(symbols@).subrange(0, i + 1));
                assert(next.drop_last() =~= prefix);
                assert(next.last() == (channel@, symbols@[i as int]@));
                lemma_intent_step(f, action, channel@, symbols@[i as int]@, bound + i);
            }
            self.record_symbol(action, channel, &symbols[i], effective, Ghost(f));
            i = i + 1;
        }
        assert(views(symbols@).subrange(0, symbols@.len() as int) =~= views(symbols@));
    }

    /// Records the intent of a subscription request and returns what must be sent: a symbol is
    /// subscribed by its first holder and unsubscribed by its last; `None` when nothing changes.
    #[verifier::spinoff_prover]
    #[verifier::rlimit(60)]
    pub fn record_subscription_intent(&mut self, request: &AlpacaWsSubscription) -> (r: Option<
        AlpacaWsSubscription,
    >)
        requires
            old(self).wf(),
            request_pairs(*request).len() <= usize::MAX,
            refs_bounded(old(self).references(), usize::MAX - request_pairs(*request).len()),
        ensures
            final(self).wf(),
            final(self).authenticated() == old(self).authenticated(),
            ({
                let f = intent_fold(
                    IntentModel {
                        refs: old(self).references(),
                        sets: old(self).sets(),
                        sent: Seq::empty(),
                    },
                    request.action,
                    request_pairs(*request),
                );
                &&& final(self).references() == f.refs
                &&& final(self).sets() == f.sets
                &&& (r is None <==> f.sent.len() == 0)
                &&& (r matches Some(e) ==> e.action == request.action && forall|c: Seq<char>|
                    #![trigger channel_list(e, c)]
                    is_channel_name(c) ==> channel_list(e, c) == sent_symbols(f.sent, c))
            }),
    {
        let action = request.action;
        let mut effective = AlpacaWsSubscription::empty(action);
        let ghost m0 = IntentModel {
            refs: self.references(),
            sets: self.sets(),
            sent: Seq::<(Seq<char>, Seq<char>)>::empty(),
        };
        let ghost b0 = usize::MAX - request_pairs(*request).len();
        let ghost p1 = channel_pairs("trades"@, views(request.trades@));
        let ghost p2 = channel_pairs("quotes"@, views(request.quotes@));
        let ghost p3 = channel_pairs("bars"@, views(request.bars@));
        let ghost p4 = channel_pairs("dailyBars"@, views(request.daily_bars@));
        let ghost p5 = channel_pairs("updatedBars"@, views(request.updated_bars@));
        let ghost p6 = channel_pairs("statuses"@, views(request.statuses@));
        let ghost p7 = channel_pairs("lulds"@, views(request.lulds@));
        proof {
            crate::websocket::client::lemma_channel_lists(*request);
            reveal_strlit("trades");
            reveal_strlit("quotes");
            reveal_strlit("bars");
            reveal_strlit("dailyBars");
            reveal_strlit("updatedBars");
            reveal_strlit("statuses");
            reveal_strlit("lulds");
            assert(is_channel_name("trades"@) && is_channel_name("quotes"@) && is_channel_name("bars"@)
                && is_channel_name("dailyBars"@) && is_channel_name("updatedBars"@)
                && is_channel_name("statuses"@) && is_channel_name("lulds"@)) by {
                assert(crate::websocket::client::channel_names()[0] == "trades"@);
                assert(crate::websocket::client::channel_names()[1] == "quotes"@);
                assert(crate::websocket::client::channel_names()[2] == "bars"@);
                assert(crate::websocket::client::channel_names()[3] == "dailyBars"@);
                assert(crate::websocket::client::channel_names()[4] == "updatedBars"@);
                assert(crate::websocket::client::channel_names()[5] == "statuses"@);
                assert(crate::websocket::client::channel_names()[6] == "lulds"@);
            }
            assert(request_pairs(*request) == p1 + p2 + p3 + p4 + p5 + p6 + p7);
        }
        let ghost m1 = intent_fold(m0, action, p1);
        let ghost m2 = intent_fold(m1, action, p2);
        let ghost m3 = intent_fold(m2, action, p3);
        let ghost m4 = intent_fold(m3, action, p4);
        let ghost m5 = intent_fold(m4, action, p5);
        let ghost m6 = intent_fold(m5, action, p6);
        self.record_channel(action, "trades", &request.trades, &mut effective, Ghost(m0), Ghost(b0));
        self.record_channel(
            action,
            "quotes",
            &request.quotes,
            &mut effective,
            Ghost(m1),
            Ghost(b0 + p1.len()),
        );
        self.record_channel(
            action,
            "bars",
            &request.bars,
            &mut effective,
            Ghost(m2),
            Ghost(b0 + p1.len() + p2.len()),
        );
        self.record_channel(
            action,
            "dailyBars",
            &request.daily_bars,
            &mut effective,
            Ghost(m3),
            Ghost(b0 + p1.len() + p2.len() + p3.len()),
        );
        self.record_channel(
            action,
            "updatedBars",
            &request.updated_bars,
            &mut effective,
            Ghost(m4),
            Ghost(b0 + p1.len() + p2.len() + p3.len() + p4.len()),
        );
        self.record_channel(
            action,
            "statuses",
            &request.statuses,
            &mut effective,
            Ghost(m5),
            Ghost(b0 + p1.len() + p2.len() + p3.len() + p4.len() + p5.len()),
        );
        self.record_channel(
            action,
            "lulds",
            &request.lulds,
            &mut effective,
            Ghost(m6),
            Ghost(b0 + p1.len() + p2.len() + p3.len() + p4.len() + p5.len() + p6.len()),
        );
        let ghost f = intent_fold(m6, action, p7);
        proof {
            lemma_intent_fold_append(m0, action, p1, p2);
            lemma_intent_fold_append(m0, action, p1 + p2, p3);
            lemma_intent_fold_append(m0, action, p1 + p2 + p3, p4);
            lemma_intent_fold_append(m0, action, p1 + p2 + p3 + p4, p5);
            lemma_intent_fold_append(m0, action, p1 + p2 + p3 + p4 + p5, p6);
            lemma_intent_fold_append(m0, action, p1 + p2 + p3 + p4 + p5 + p6, p7);
        }
        if effective.is_empty() {
            proof {
                if f.sent.len() > 0 {
                    lemma_sent_nonempty(f.sent);
                    assert(is_channel_name(f.sent[f.sent.len() - 1].0));
                }
            }
            None
        } else {
            proof {
                if f.sent.len() == 0 {
                    assert forall|c: Seq<char>| is_channel_name(c) implies channel_list(
                        effective,
                        c,
                    ).len() == 0 by {
                        lemma_sent_empty(f.sent, c);
                    }
                }
            }
            Some(effective)
        }
    }
}

} // verus!
