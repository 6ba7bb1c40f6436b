use vstd::prelude::*;

use crate::common::text::str_eq;
use crate::execution::trade_updates::TradeUpdateAction;

verus! {

/// The map that a list of entries with distinct keys stands for.
pub open spec fn entries_map<T>(s: Seq<(Seq<char>, T)>) -> Map<Seq<char>, T>
    decreases s.len(),
{
    if s.len() == 0 {
        Map::empty()
    } else {
        entries_map(s.drop_last()).insert(s.last().0, s.last().1)
    }
}

pub open spec fn keys_distinct<T>(s: Seq<(Seq<char>, T)>) -> bool {
    forall|i: int, j: int| 0 <= i < j < s.len() ==> #[trigger] s[i].0 != #[trigger] s[j].0
}

/// The keys of the map are the keys of the entries.
proof fn lemma_entries_map_keys<T>(s: Seq<(Seq<char>, T)>, k: Seq<char>)
    ensures
        entries_map(s).dom().contains(k) <==> exists|i: int| 0 <= i < s.len() && s[i].0 == k,
    decreases s.len(),
{
    if s.len() > 0 {
        lemma_entries_map_keys(s.drop_last(), k);
        if exists|i: int| 0 <= i < s.len() && s[i].0 == k {
            let i = choose|i: int| 0 <= i < s.len() && s[i].0 == k;
            if i < s.len() - 1 {
                assert(s.drop_last()[i].0 == k);
            }
        }
        if exists|i: int| 0 <= i < s.len() - 1 && s.drop_last()[i].0 == k {
            let i = choose|i: int| 0 <= i < s.len() - 1 && s.drop_last()[i].0 == k;
            assert(s[i].0 == k);
        }
    }
}

/// Dropping the entry at `i` drops its key from the map and keeps every other key's value.
proof fn lemma_entries_map_remove<T>(s: Seq<(Seq<char>, T)>, i: int)
    requires
        keys_distinct(s),
        0 <= i < s.len(),
    ensures
        entries_map(s.remove(i)) == entries_map(s).remove(s[i].0),
    decreases s.len(),
{
    let k = s[i].0;
    if i == s.len() - 1 {
        assert(s.remove(i) =~= s.drop_last());
        lemma_entries_map_keys(s.drop_last(), k);
        assert(!entries_map(s.drop_last()).dom().contains(k));
        assert(entries_map(s).remove(k) =~= entries_map(s.drop_last()));
    } else {
        let d = s.drop_last();
        assert(keys_distinct(d));
        lemma_entries_map_remove(d, i);
        assert(s.remove(i).drop_last() =~= d.remove(i));
        assert(s.remove(i).last() == s.last());
        assert(s.last().0 != k);
        assert(entries_map(s.remove(i)) =~= entries_map(s).remove(k));
    }
}

/// The value under a key is that of its entry.
proof fn lemma_entries_map_value<T>(s: Seq<(Seq<char>, T)>, i: int)
    requires
        keys_distinct(s),
        0 <= i < s.len(),
    ensures
        entries_map(s).dom().contains(s[i].0),
        entries_map(s)[s[i].0] == s[i].1,
    decreases s.len(),
{
    if i < s.len() - 1 {
        let d = s.drop_last();
        assert(keys_distinct(d));
        lemma_entries_map_value(d, i);
        assert(d[i] == s[i]);
        assert(s.last().0 != s[i].0);
    }
}

/// The local context of each working order (the order and its instrument, as `T`), by client
/// order id: kept from submission until the order is done.
pub struct OrderContexts<T> {
    entries: Vec<(String, T)>,
}

pub open spec fn entry_view<T>(e: (String, T)) -> (Seq<char>, T) {
    (e.0@, e.1)
}

impl<T> OrderContexts<T> {
    spec fn entries_view(&self) -> Seq<(Seq<char>, T)> {
        self.entries@.map_values(|e: (String, T)| entry_view(e))
    }

    /// No client order id occurs twice.
    pub closed spec fn wf(&self) -> bool {
        keys_distinct(self.entries_view())
    }

    /// The contexts by client order id.
    pub closed spec fn view(&self) -> Map<Seq<char>, T> {
        entries_map(self.entries_view())
    }

    pub fn new() -> (r: OrderContexts<T>)
        ensures
            r.wf(),
            r@ == Map::<Seq<char>, T>::empty(),
    {
        let r = OrderContexts { entries: Vec::new() };
        assert(r.entries_view() =~= Seq::<(Seq<char>, T)>::empty());
        r
    }

    fn position(&self, client_order_id: &str) -> (r: Option<usize>)
        requires
            self.wf(),
        ensures
            r matches Some(i) ==> i < self.entries@.len() && self.entries_view()[i as int].0
                == client_order_id@,
            r is None ==> !self@.dom().contains(client_order_id@),
    {
        let mut i: usize = 0;
        while i < self.entries.len()
            invariant
                i <= self.entries@.len(),
                forall|j: int| 0 <= j < i ==> self.entries_view()[j].0 != client_order_id@,
            decreases self.entries@.len() - i,
        {
            if str_eq(self.entries[i].0.as_str(), client_order_id) {
                assert(self.entries_view()[i as int] == entry_view(self.entries@[i as int]));
                return Some(i);
            }
            assert(self.entries_view()[i as int] == entry_view(self.entries@[i as int]));
            i = i + 1;
        }
        proof {
            lemma_entries_map_keys(self.entries_view(), client_order_id@);
        }
        None
    }

    /// Whether an order has a local context.
    pub fn contains(&self, client_order_id: &str) -> (r: bool)
        requires
            self.wf(),
        ensures
            r == self@.dom().contains(client_order_id@),
    {
        match self.position(client_order_id) {
            Some(i) => {
                proof {
                    lemma_entries_map_value(self.entries_view(), i as int);
                }
                true
            },
            None => false,
        }
    }

    /// The context of an order, if it has one.
    pub fn get(&self, client_order_id: &str) -> (r: Option<&T>)
        requires
            self.wf(),
        ensures
            match r {
                Some(v) => self@.dom().contains(client_order_id@) && *v == self@[client_order_id@],
                None => !self@.dom().contains(client_order_id@),
            },
    {
        match self.position(client_order_id) {
            Some(i) => {
                proof {
                    lemma_entries_map_value(self.entries_view(), i as int);
                    assert(self.entries_view()[i as int] == entry_view(self.entries@[i as int]));
                }
                Some(&self.entries[i].1)
            },
            None => None,
        }
    }

    /// Drops an order's context; an order without one is left as it is.
    pub fn remove(&mut self, client_order_id: &str)
        requires
            old(self).wf(),
        ensures
            final(self).wf(),
            final(self)@ == old(self)@.remove(client_order_id@),
    {
        match self.position(client_order_id) {
            Some(i) => {
                let ghost before = self.entries_view();
                proof {
                    lemma_entries_map_remove(before, i as int);
                }
                let _ = self.entries.remove(i);
                assert(self.entries_view() =~= before.remove(i as int));
            },
            None => {
                assert(self@.remove(client_order_id@) =~= self@);
            },
        }
    }

    /// Keeps `context` for an order, replacing an earlier one.
    pub fn insert(&mut self, client_order_id: String, context: T)
        requires
            old(self).wf(),
        ensures
            final(self).wf(),
            final(self)@ == old(self)@.insert(client_order_id@, context),
    {
        self.remove(client_order_id.as_str());
        let ghost before = self.entries_view();
        let ghost key = client_order_id@;
        proof {
            lemma_entries_map_keys(before, key);
        }
        self.entries.push((client_order_id, context));
        assert(self.entries_view() =~= before.push((key, context)));
        assert(self.entries_view().drop_last() =~= before);
        assert forall|i: int, j: int| 0 <= i < j < self.entries_view().len() implies #[trigger] self.entries_view()[i].0
            != #[trigger] self.entries_view()[j].0 by {
            if j == before.len() {
                assert(self.entries_view()[i] == before[i]);
            } else {
                assert(self.entries_view()[i] == before[i] && self.entries_view()[j] == before[j]);
            }
        }
        assert(self@ =~= old(self)@.insert(key, context));
    }

    /// The context of an order leaves with the trade update that ends the order: a full fill,
    /// a cancel, an expiry or a rejection.
    pub fn apply_trade_update(&mut self, client_order_id: &str, action: &TradeUpdateAction)
        requires
            old(self).wf(),
        ensures
            final(self).wf(),
            final(self)@ == (if spec_ends_order(*action) {
                old(self)@.remove(client_order_id@)
            } else {
                old(self)@
            }),
    {
        if ends_order(action) {
            self.remove(client_order_id);
        }
    }
}

/// The trade-update actions after which an order is done.
pub open spec fn spec_ends_order(action: TradeUpdateAction) -> bool {
    match action {
        TradeUpdateAction::Filled { closes_order, .. } => closes_order,
        TradeUpdateAction::Canceled | TradeUpdateAction::Expired | TradeUpdateAction::Rejected => true,
        _ => false,
    }
}

/// Whether the order is done after this action.
pub fn ends_order(action: &TradeUpdateAction) -> (r: bool)
    ensures
        r == spec_ends_order(*action),
{
    match action {
        TradeUpdateAction::Filled { closes_order, .. } => *closes_order,
        TradeUpdateAction::Canceled | TradeUpdateAction::Expired | TradeUpdateAction::Rejected => true,
        _ => false,
    }
}

} // verus!
