use vstd::prelude::*;
use vstd::string::*;

use crate::common::text::{str_eq, views};

verus! {

/// Whether a market-data request adds or removes subscriptions.
#[derive(Clone, Copy, Debug, PartialEq, Eq, Structural)]
pub enum AlpacaWsAction {
    Subscribe,
    Unsubscribe,
}

impl Default for AlpacaWsAction {
    fn default() -> (r: Self)
        ensures
            r == AlpacaWsAction::Subscribe,
    {
        AlpacaWsAction::Subscribe
    }
}

/// A market-data subscription request: symbols per channel.
#[derive(Clone, Debug)]
pub struct AlpacaWsSubscription {
    pub action: AlpacaWsAction,
    pub trades: Vec<String>,
    pub quotes: Vec<String>,
    pub bars: Vec<String>,
    pub daily_bars: Vec<String>,
    pub updated_bars: Vec<String>,
    pub statuses: Vec<String>,
    pub lulds: Vec<String>,
}

/// The wire names of the subscription channels, in request order.
pub open spec fn channel_names() -> Seq<Seq<char>> {
    seq![
        "trades"@,
        "quotes"@,
        "bars"@,
        "dailyBars"@,
        "updatedBars"@,
        "statuses"@,
        "lulds"@,
    ]
}

pub open spec fn is_channel_name(c: Seq<char>) -> bool {
    channel_names().contains(c)
}

/// The symbols of each channel of a request, in the order of [`channel_names`].
pub open spec fn channel_lists(r: AlpacaWsSubscription) -> Seq<Seq<Seq<char>>> {
    seq![
        views(r.trades@),
        views(r.quotes@),
        views(r.bars@),
        views(r.daily_bars@),
        views(r.updated_bars@),
        views(r.statuses@),
        views(r.lulds@),
    ]
}

/// The symbols that a request lists for one channel.
pub open spec fn channel_list(r: AlpacaWsSubscription, channel: Seq<char>) -> Seq<Seq<char>> {
    if channel == "trades"@ {
        views(r.trades@)
    } else if channel == "quotes"@ {
        views(r.quotes@)
    } else if channel == "bars"@ {
        views(r.bars@)
    } else if channel == "dailyBars"@ {
        views(r.daily_bars@)
    } else if channel == "updatedBars"@ {
        views(r.updated_bars@)
    } else if channel == "statuses"@ {
        views(r.statuses@)
    } else if channel == "lulds"@ {
        views(r.lulds@)
    } else {
        seq![]
    }
}

/// The channel names are the seven wire names, and the list of each is the request's field.
pub proof fn lemma_channel_lists(r: AlpacaWsSubscription)
    ensures
        channel_names().len() == 7,
        forall|i: int|
            0 <= i < 7 ==> channel_list(r, #[trigger] channel_names()[i]) == channel_lists(r)[i],
        forall|c: Seq<char>|
            is_channel_name(c) ==> exists|i: int| 0 <= i < 7 && #[trigger] channel_names()[i] == c,
{
    reveal_strlit("trades");
    reveal_strlit("quotes");
    reveal_strlit("bars");
    reveal_strlit("dailyBars");
    reveal_strlit("updatedBars");
    reveal_strlit("statuses");
    reveal_strlit("lulds");
    assert("trades"@[0] == 't' && "quotes"@[0] == 'q' && "bars"@[0] == 'b' && "dailyBars"@[0]
        == 'd' && "updatedBars"@[0] == 'u' && "statuses"@[0] == 's' && "lulds"@[0] == 'l');
    assert forall|i: int| 0 <= i < 7 implies channel_list(r, #[trigger] channel_names()[i])
        == channel_lists(r)[i] by {
        if i == 0 {
        } else if i == 1 {
            assert("quotes"@ != "trades"@);
        } else if i == 2 {
            assert("bars"@ != "trades"@ && "bars"@ != "quotes"@);
        } else if i == 3 {
            assert("dailyBars"@ != "trades"@ && "dailyBars"@ != "quotes"@ && "dailyBars"@
                != "bars"@);
        } else if i == 4 {
            assert("updatedBars"@ != "trades"@ && "updatedBars"@ != "quotes"@ && "updatedBars"@
                != "bars"@ && "updatedBars"@ != "dailyBars"@);
        } else if i == 5 {
            assert("statuses"@ != "trades"@ && "statuses"@ != "quotes"@ && "statuses"@ != "bars"@
                && "statuses"@ != "dailyBars"@ && "statuses"@ != "updatedBars"@);
        } else {
            assert("lulds"@ != "trades"@ && "lulds"@ != "quotes"@ && "lulds"@ != "bars"@
                && "lulds"@ != "dailyBars"@ && "lulds"@ != "updatedBars"@ && "lulds"@
                != "statuses"@);
        }
    }
    assert forall|c: Seq<char>| is_channel_name(c) implies exists|i: int|
        0 <= i < 7 && #[trigger] channel_names()[i] == c by {
        let k = choose|k: int| 0 <= k < channel_names().len() && channel_names()[k] == c;
        assert(0 <= k < 7 && channel_names()[k] == c);
    }
}

impl AlpacaWsSubscription {
    /// A request with the given action and no symbols.
    pub fn empty(action: AlpacaWsAction) -> (r: AlpacaWsSubscription)
        ensures
            r.action == action,
            forall|c: Seq<char>| channel_list(r, c) == Seq::<Seq<char>>::empty(),
    {
        let r = AlpacaWsSubscription {
            action,
            trades: Vec::new(),
            quotes: Vec::new(),
            bars: Vec::new(),
            daily_bars: Vec::new(),
            updated_bars: Vec::new(),
            statuses: Vec::new(),
            lulds: Vec::new(),
        };
        assert forall|c: Seq<char>| channel_list(r, c) == Seq::<Seq<char>>::empty() by {
            assert(views(r.trades@) =~= Seq::<Seq<char>>::empty());
            assert(views(r.quotes@) =~= Seq::<Seq<char>>::empty());
            assert(views(r.bars@) =~= Seq::<Seq<char>>::empty());
            assert(views(r.daily_bars@) =~= Seq::<Seq<char>>::empty());
            assert(views(r.updated_bars@) =~= Seq::<Seq<char>>::empty());
            assert(views(r.statuses@) =~= Seq::<Seq<char>>::empty());
            assert(views(r.lulds@) =~= Seq::<Seq<char>>::empty());
        }
        r
    }

    /// Whether the request lists no symbol at all.
    pub fn is_empty(&self) -> (r: bool)
        ensures
            r == (forall|c: Seq<char>| is_channel_name(c) ==> channel_list(*self, c).len() == 0),
    {
        let r = self.trades.len() == 0 && self.quotes.len() == 0 && self.bars.len() == 0
            && self.daily_bars.len() == 0 && self.updated_bars.len() == 0
            && self.statuses.len() == 0 && self.lulds.len() == 0;
        proof {
            lemma_channel_lists(*self);
            let ls = channel_lists(*self);
            assert(ls[0].len() == self.trades@.len() && ls[1].len() == self.quotes@.len()
                && ls[2].len() == self.bars@.len() && ls[3].len() == self.daily_bars@.len()
                && ls[4].len() == self.updated_bars@.len() && ls[5].len() == self.statuses@.len()
                && ls[6].len() == self.lulds@.len());
            if r {
                assert forall|c: Seq<char>| is_channel_name(c) implies channel_list(
                    *self,
                    c,
                ).len() == 0 by {
                    let k = choose|k: int| 0 <= k < 7 && #[trigger] channel_names()[k] == c;
                    assert(channel_list(*self, channel_names()[k]) == ls[k]);
                }
            } else {
                let k: int = if self.trades.len() != 0 {
                    0
                } else if self.quotes.len() != 0 {
                    1
                } else if self.bars.len() != 0 {
                    2
                } else if self.daily_bars.len() != 0 {
                    3
                } else if self.updated_bars.len() != 0 {
                    4
                } else if self.statuses.len() != 0 {
                    5
                } else {
                    6
                };
                assert(channel_list(*self, channel_names()[k]) == ls[k]);
                assert(is_channel_name(channel_names()[k]));
            }
        }
        r
    }
}

/// The channel of a request with each channel's symbols, in request order.
pub fn request_channels(request: &AlpacaWsSubscription) -> (r: [(&'static str, &Vec<String>); 7])
    ensures
        forall|i: int| 0 <= i < 7 ==> (#[trigger] r@[i]).0@ == channel_names()[i],
        forall|i: int|
            0 <= i < 7 ==> views((#[trigger] r@[i]).1@) == channel_list(
                *request,
                channel_names()[i],
            ),
{
    proof {
        lemma_channel_lists(*request);
        reveal_strlit("trades");
        reveal_strlit("quotes");
        reveal_strlit("bars");
        reveal_strlit("dailyBars");
        reveal_strlit("updatedBars");
        reveal_strlit("statuses");
        reveal_strlit("lulds");
    }
    [
        ("trades", &request.trades),
        ("quotes", &request.quotes),
        ("bars", &request.bars),
        ("dailyBars", &request.daily_bars),
        ("updatedBars", &request.updated_bars),
        ("statuses", &request.statuses),
        ("lulds", &request.lulds),
    ]
}

/// `request` with `symbol` appended to the list of `channel`.
pub open spec fn pushed(
    old_request: AlpacaWsSubscription,
    new_request: AlpacaWsSubscription,
    channel: Seq<char>,
    symbol: Seq<char>,
) -> bool {
    &&& new_request.action == old_request.action
    &&& forall|c: Seq<char>|
        #![trigger channel_list(new_request, c)]
        channel_list(new_request, c) == if c == channel {
            channel_list(old_request, c).push(symbol)
        } else {
            channel_list(old_request, c)
        }
}

fn push_view(v: &mut Vec<String>, s: String)
    ensures
        views(final(v)@) == views(old(v)@).push(s@),
{
    v.push(s);
    assert(views(final(v)@) =~= views(old(v)@).push(s@));
}

/// Appends `symbol` to the list of a known channel.
pub fn push_subscription_symbol(request: &mut AlpacaWsSubscription, channel: &str, symbol: String)
    requires
        is_channel_name(channel@),
    ensures
        pushed(*old(request), *final(request), channel@, symbol@),
{
    proof {
        reveal_strlit("trades");
        reveal_strlit("quotes");
        reveal_strlit("bars");
        reveal_strlit("dailyBars");
        reveal_strlit("updatedBars");
        reveal_strlit("statuses");
        reveal_strlit("lulds");
    }
    if str_eq(channel, "trades") {
        push_view(&mut request.trades, symbol);
    } else if str_eq(channel, "quotes") {
        push_view(&mut request.quotes, symbol);
    } else if str_eq(channel, "bars") {
        push_view(&mut request.bars, symbol);
    } else if str_eq(channel, "dailyBars") {
        push_view(&mut request.daily_bars, symbol);
    } else if str_eq(channel, "updatedBars") {
        push_view(&mut request.updated_bars, symbol);
    } else if str_eq(channel, "statuses") {
        push_view(&mut request.statuses, symbol);
    } else {
        assert(channel@ == "lulds"@) by {
            let k = choose|k: int| 0 <= k < 7 && channel_names()[k] == channel@;
            assert(0 <= k < 7);
        }
        push_view(&mut request.lulds, symbol);
    }
}

/// Index of the first `|` of a topic.
pub open spec fn delimiter_index(t: Seq<char>) -> Option<int> {
    if exists|k: int| 0 <= k < t.len() && t[k] == '|' {
        Some(choose|k: int| 0 <= k < t.len() && t[k] == '|' && forall|j: int| 0 <= j < k ==> t[j] != '|')
    } else {
        None
    }
}

/// A topic split at its first `|` into channel and symbol.
pub open spec fn split_topic(t: Seq<char>) -> Option<(Seq<char>, Seq<char>)> {
    match delimiter_index(t) {
        Some(k) => Some((t.subrange(0, k), t.subrange(k + 1, t.len() as int))),
        None => None,
    }
}

/// The symbols that the topics list for a channel, in topic order.
pub open spec fn topic_symbols(topics: Seq<Seq<char>>, channel: Seq<char>) -> Seq<Seq<char>>
    decreases topics.len(),
{
    if topics.len() == 0 {
        seq![]
    } else {
        let previous = topic_symbols(topics.drop_last(), channel);
        match split_topic(topics.last()) {
            Some((c, s)) => if c == channel {
                previous.push(s)
            } else {
                previous
            },
            None => previous,
        }
    }
}

/// Splits a topic at its first `|`.
pub fn split_topic_once(topic: &str) -> (r: Option<(&str, &str)>)
    ensures
        match split_topic(topic@) {
            Some((c, s)) => r matches Some(p) && p.0@ == c && p.1@ == s,
            None => r is None,
        },
{
    let n = topic.unicode_len();
    let mut k: usize = 0;
    while k < n
        invariant
            k <= n,
            n == topic@.len(),
            forall|j: int| 0 <= j < k ==> topic@[j] != '|',
        decreases n - k,
    {
        if topic.get_char(k) == '|' {
            let ghost t = topic@;
            assert(delimiter_index(t) == Some(k as int)) by {
                assert(0 <= k < t.len() && t[k as int] == '|');
                let c = choose|c: int|
                    0 <= c < t.len() && t[c] == '|' && forall|j: int| 0 <= j < c ==> t[j] != '|';
                if c < k {
                    assert(t[c] != '|');
                }
                if c > k {
                    assert(t[k as int] != '|');
                }
            }
            return Some((topic.substring_char(0, k), topic.substring_char(k + 1, n)));
        }
        k = k + 1;
    }
    None
}

/// The single request that replays the given topics: every `channel|symbol` of a known channel
/// adds its symbol to that channel, in topic order; other topics are skipped.
pub fn subscriptions_from_topics(topics: &Vec<String>) -> (r: Vec<AlpacaWsSubscription>)
    ensures
        r@.len() == 1,
        r@[0].action == AlpacaWsAction::Subscribe,
        forall|c: Seq<char>|
            #![trigger channel_list(r@[0], c)]
            is_channel_name(c) ==> channel_list(r@[0], c) == topic_symbols(views(topics@), c),
{
    let mut request = AlpacaWsSubscription::empty(AlpacaWsAction::Subscribe);
    let mut i: usize = 0;
    while i < topics.len()
        invariant
            i <= topics@.len(),
            request.action == AlpacaWsAction::Subscribe,
            forall|c: Seq<char>|
                #![trigger channel_list(request, c)]
                is_channel_name(c) ==> channel_list(request, c) == topic_symbols(
                    views(topics@).subrange(0, i as int),
                    c,
                ),
        decreases topics@.len() - i,
    {
        let ghost prefix = views(topics@).subrange(0, i as int);
        let ghost next = views(topics@).subrange(0, i + 1);
        assert(next.drop_last() =~= prefix);
        assert(next.last() == topics@[i as int]@);
        if let Some((channel, symbol)) = split_topic_once(topics[i].as_str()) {
            if str_eq(channel, "trades") || str_eq(channel, "quotes") || str_eq(channel, "bars")
                || str_eq(channel, "dailyBars") || str_eq(channel, "updatedBars") || str_eq(
                channel,
                "statuses",
            ) || str_eq(channel, "lulds") {
                proof {
                    reveal_strlit("trades");
                    reveal_strlit("quotes");
                    reveal_strlit("bars");
                    reveal_strlit("dailyBars");
                    reveal_strlit("updatedBars");
                    reveal_strlit("statuses");
                    reveal_strlit("lulds");
                    assert(channel_names()[0] == "trades"@);
                    assert(channel_names()[1] == "quotes"@);
                    assert(channel_names()[2] == "bars"@);
                    assert(channel_names()[3] == "dailyBars"@);
                    assert(channel_names()[4] == "updatedBars"@);
                    assert(channel_names()[5] == "statuses"@);
                    assert(channel_names()[6] == "lulds"@);
                }
                push_subscription_symbol(&mut request, channel, String::from_str(symbol));
            } else {
                proof {
                    assert forall|c: Seq<char>| is_channel_name(c) implies c != channel@ by {
                        reveal_strlit("trades");
                        reveal_strlit("quotes");
                        reveal_strlit("bars");
                        reveal_strlit("dailyBars");
                        reveal_strlit("updatedBars");
                        reveal_strlit("statuses");
                        reveal_strlit("lulds");
                        let k = choose|k: int| 0 <= k < 7 && channel_names()[k] == c;
                        assert(0 <= k < 7);
                    }
                }
            }
        }
        i = i + 1;
    }
    assert(views(topics@).subrange(0, topics@.len() as int) =~= views(topics@));
    vec![request]
}

} // verus!
