use vstd::prelude::*;

use crate::common::text::{all_upper_or_digit, upper_or_digit_only};

verus! {

/// Page size of the activity listing.
pub const ACTIVITY_PAGE_SIZE: usize = 100;

/// The most activities one request may collect.
pub const MAX_ACTIVITIES: usize = 100_000;

/// Why a bounded listing is refused or stopped.
#[derive(Clone, Copy, Debug, PartialEq, Eq, Structural)]
pub enum ListingError {
    MaxItemsOutOfRange,
    StartNotBeforeEnd,
    InvalidActivityType,
    /// A full page repeated the cursor.
    Stalled,
}

pub open spec fn opt_str_view(s: Option<String>) -> Option<Seq<char>> {
    match s {
        Some(v) => Some(v@),
        None => None,
    }
}

fn same_cursor(a: &Option<String>, b: &Option<String>) -> (r: bool)
    ensures
        r == (opt_str_view(*a) == opt_str_view(*b)),
{
    match (a, b) {
        (Some(x), Some(y)) => *x == *y,
        (None, None) => true,
        _ => false,
    }
}

/// The size of the next page of a bounded listing: what is left, at most `cap`.
pub fn bounded_page_size(max_items: usize, collected: usize, cap: usize) -> (r: usize)
    requires
        collected < max_items,
    ensures
        r == (if max_items - collected < cap {
            max_items - collected
        } else {
            cap as int
        }),
        r > 0 || cap == 0,
{
    let remaining = max_items - collected;
    if remaining < cap {
        remaining
    } else {
        cap
    }
}

/// One page of a listing that pages by the last id: a full page whose last id repeats the
/// cursor is an error, a short page ends the listing, and otherwise the last id is the next
/// cursor.
pub open spec fn spec_id_page_step(
    cursor: Option<Seq<char>>,
    page_size: nat,
    page_len: nat,
    last_id: Option<Seq<char>>,
) -> Result<Option<Seq<char>>, ListingError> {
    if page_len == page_size && last_id == cursor {
        Err(ListingError::Stalled)
    } else if page_len < page_size {
        Ok(None)
    } else {
        Ok(last_id)
    }
}

/// Advances a listing that pages by the last id (the order history listing).
pub fn id_page_step(
    cursor: &Option<String>,
    page_size: usize,
    page_len: usize,
    last_id: &Option<String>,
) -> (r: Result<Option<String>, ListingError>)
    ensures
        match r {
            Ok(c) => spec_id_page_step(
                opt_str_view(*cursor),
                page_size as nat,
                page_len as nat,
                opt_str_view(*last_id),
            ) == Ok::<Option<Seq<char>>, ListingError>(opt_str_view(c)),
            Err(e) => spec_id_page_step(
                opt_str_view(*cursor),
                page_size as nat,
                page_len as nat,
                opt_str_view(*last_id),
            ) == Err::<Option<Seq<char>>, ListingError>(e),
        },
{
    if page_len == page_size && same_cursor(last_id, cursor) {
        return Err(ListingError::Stalled);
    }
    if page_len < page_size {
        return Ok(None);
    }
    Ok(last_id.clone())
}

/// One page of a listing that pages by token: a token that repeats a present cursor is an
/// error; otherwise the next token (if any) is the next cursor.
pub fn token_page_step(cursor: &Option<String>, next_token: &Option<String>) -> (r: Result<
    Option<String>,
    ListingError,
>)
    ensures
        cursor is Some && opt_str_view(*next_token) == opt_str_view(*cursor) ==> r
            == Err::<Option<String>, ListingError>(ListingError::Stalled),
        !(cursor is Some && opt_str_view(*next_token) == opt_str_view(*cursor)) ==> (r matches Ok(
            c,
        ) && opt_str_view(c) == opt_str_view(*next_token)),
{
    if cursor.is_some() && same_cursor(next_token, cursor) {
        return Err(ListingError::Stalled);
    }
    Ok(next_token.clone())
}

/// Activity types are non-empty uppercase ASCII letters and digits (they become a URL path
/// segment).
pub fn validate_activity_type(activity_type: &str) -> (r: Result<(), ListingError>)
    ensures
        r is Ok <==> (activity_type@.len() > 0 && all_upper_or_digit(activity_type@)),
        r matches Err(e) ==> e == ListingError::InvalidActivityType,
{
    if activity_type.unicode_len() == 0 || !upper_or_digit_only(activity_type) {
        return Err(ListingError::InvalidActivityType);
    }
    Ok(())
}

/// Collects up to `max_items` activities page by page, oldest first.
pub struct ActivityPager {
    max_items: usize,
    collected: usize,
    cursor: Option<String>,
    done: bool,
}

impl ActivityPager {
    pub closed spec fn max_items(&self) -> nat {
        self.max_items as nat
    }

    pub closed spec fn collected(&self) -> nat {
        self.collected as nat
    }

    pub closed spec fn spec_cursor(&self) -> Option<Seq<char>> {
        opt_str_view(self.cursor)
    }

    pub closed spec fn is_done(&self) -> bool {
        self.done
    }

    /// Never more than the limit is collected.
    pub closed spec fn wf(&self) -> bool {
        &&& 1 <= self.max_items <= MAX_ACTIVITIES
        &&& self.collected <= self.max_items
        &&& !self.done ==> self.collected < self.max_items
    }

    /// What the listing keeps at every step: never more activities than the limit, which is
    /// itself at most 100,000.
    pub proof fn lemma_never_exceeds_limit(&self)
        requires
            self.wf(),
        ensures
            self.collected() <= self.max_items() <= MAX_ACTIVITIES,
            !self.is_done() ==> self.collected() < self.max_items(),
    {
    }

    /// Starts a listing of 1 to 100,000 activities in a range whose start precedes its end.
    pub fn new(max_items: usize, start: Option<i128>, end: Option<i128>) -> (r: Result<
        ActivityPager,
        ListingError,
    >)
        ensures
            !(1 <= max_items <= MAX_ACTIVITIES) ==> r == Err::<ActivityPager, ListingError>(
                ListingError::MaxItemsOutOfRange,
            ),
            1 <= max_items <= MAX_ACTIVITIES && (start matches Some(s) && end matches Some(e)
                && s >= e) ==> r == Err::<ActivityPager, ListingError>(
                ListingError::StartNotBeforeEnd,
            ),
            r matches Ok(p) ==> p.wf() && p.max_items() == max_items && p.collected() == 0
                && p.spec_cursor() is None && !p.is_done(),
            1 <= max_items <= MAX_ACTIVITIES && !(start matches Some(s) && end matches Some(e)
                && s >= e) ==> r is Ok,
    {
        if max_items == 0 || max_items > MAX_ACTIVITIES {
            return Err(ListingError::MaxItemsOutOfRange);
        }
        if let (Some(s), Some(e)) = (start, end) {
            if s >= e {
                return Err(ListingError::StartNotBeforeEnd);
            }
        }
        Ok(ActivityPager { max_items, collected: 0, cursor: None, done: false })
    }

    pub fn is_finished(&self) -> (r: bool)
        ensures
            r == self.is_done(),
    {
        self.done
    }

    /// The page token of the next request.
    pub fn cursor(&self) -> (r: Option<String>)
        ensures
            opt_str_view(r) == self.spec_cursor(),
    {
        self.cursor.clone()
    }

    /// The size of the next page: what is left of the limit, at most 100.
    pub fn page_size(&self) -> (r: u8)
        requires
            self.wf(),
            !self.is_done(),
        ensures
            r == (if self.max_items() - self.collected() < ACTIVITY_PAGE_SIZE {
                self.max_items() - self.collected()
            } else {
                ACTIVITY_PAGE_SIZE as int
            }),
            r >= 1,
    {
        let size = bounded_page_size(self.max_items, self.collected, ACTIVITY_PAGE_SIZE);
        size as u8
    }

    /// Accepts a page of `page_len` activities fetched with `page_size`; returns how many of
    /// them to keep. The listing ends at the limit or after a short page; a full page that
    /// repeats the cursor is an error.
    pub fn accept(&mut self, page_size: u8, page_len: usize, last_id: Option<String>) -> (r: Result<
        usize,
        ListingError,
    >)
        requires
            old(self).wf(),
            !old(self).is_done(),
        ensures
            page_len == page_size && opt_str_view(last_id) == old(self).spec_cursor() ==> r
                == Err::<usize, ListingError>(ListingError::Stalled) && *final(self) == *old(self),
            !(page_len == page_size && opt_str_view(last_id) == old(self).spec_cursor()) ==> {
                let remaining = old(self).max_items() - old(self).collected();
                let take = if page_len < remaining {
                    page_len as int
                } else {
                    remaining
                };
                &&& r == Ok::<usize, ListingError>(take as usize)
                &&& final(self).collected() == old(self).collected() + take
                &&& final(self).max_items() == old(self).max_items()
                &&& final(self).is_done() == (final(self).collected() >= final(self).max_items()
                    || page_len < page_size)
                &&& !final(self).is_done() ==> final(self).spec_cursor() == opt_str_view(last_id)
            },
            final(self).wf(),
    {
        if page_len == page_size as usize && same_cursor(&last_id, &self.cursor) {
            return Err(ListingError::Stalled);
        }
        let remaining = self.max_items - self.collected;
        let take = if page_len < remaining {
            page_len
        } else {
            remaining
        };
        self.collected = self.collected + take;
        if self.collected >= self.max_items || page_len < page_size as usize {
            self.done = true;
        } else {
            self.cursor = last_id;
        }
        Ok(take)
    }
}

/// How many items each group keeps when groups are cut to `remaining` items in their order:
/// each keeps what fits, and later groups get what earlier ones left.
pub open spec fn kept_counts(lens: Seq<nat>, remaining: nat) -> Seq<nat>
    decreases lens.len(),
{
    if lens.len() == 0 {
        seq![]
    } else {
        let k = if lens[0] <= remaining {
            lens[0]
        } else {
            remaining
        };
        seq![k] + kept_counts(lens.drop_first(), (remaining - k) as nat)
    }
}

pub open spec fn group_lens<T>(groups: Seq<(String, Vec<T>)>) -> Seq<nat> {
    groups.map_values(|g: (String, Vec<T>)| g.1@.len())
}

pub open spec fn seq_sum(s: Seq<nat>) -> nat
    decreases s.len(),
{
    if s.len() == 0 {
        0
    } else {
        s[0] + seq_sum(s.drop_first())
    }
}

/// The counts kept never add up to more than the limit, and to all items when they fit.
pub proof fn lemma_kept_counts_total(lens: Seq<nat>, remaining: nat)
    ensures
        kept_counts(lens, remaining).len() == lens.len(),
        seq_sum(kept_counts(lens, remaining)) == if seq_sum(lens) <= remaining {
            seq_sum(lens)
        } else {
            remaining
        },
        forall|i: int| 0 <= i < lens.len() ==> #[trigger] kept_counts(lens, remaining)[i] <= lens[i],
    decreases lens.len(),
{
    if lens.len() > 0 {
        let k = if lens[0] <= remaining {
            lens[0]
        } else {
            remaining
        };
        lemma_kept_counts_total(lens.drop_first(), (remaining - k) as nat);
        let rest = kept_counts(lens.drop_first(), (remaining - k) as nat);
        assert(kept_counts(lens, remaining) == seq![k] + rest);
        assert((seq![k] + rest).drop_first() =~= rest);
        assert forall|i: int| 0 <= i < lens.len() implies #[trigger] kept_counts(lens, remaining)[i]
            <= lens[i] by {
            if i > 0 {
                assert(kept_counts(lens, remaining)[i] == rest[i - 1]);
                assert(lens.drop_first()[i - 1] == lens[i]);
            }
        }
    }
}

/// Cuts grouped rows (groups in key order) to `max_items` rows in all, keeping each group's
/// first rows.
pub fn truncate_grouped<T>(groups: &mut Vec<(String, Vec<T>)>, max_items: usize)
    ensures
        final(groups)@.len() == old(groups)@.len(),
        forall|i: int|
            0 <= i < old(groups)@.len() ==> (#[trigger] final(groups)@[i]).0 == old(groups)@[i].0
                && final(groups)@[i].1@ == old(groups)@[i].1@.take(
                kept_counts(group_lens(old(groups)@), max_items as nat)[i] as int,
            ),
{
    let ghost given = groups@;
    let ghost lens = group_lens(given);
    let ghost kept_all = kept_counts(lens, max_items as nat);
    proof {
        lemma_kept_counts_total(lens, max_items as nat);
        assert(lens.subrange(0, lens.len() as int) =~= lens);
        assert(kept_all.subrange(0, kept_all.len() as int) =~= kept_all);
    }
    let mut rest: Vec<(String, Vec<T>)> = Vec::new();
    std::mem::swap(&mut rest, groups);
    let mut out: Vec<(String, Vec<T>)> = Vec::new();
    let mut remaining = max_items;
    let ghost mut consumed: int = 0;
    while rest.len() > 0
        invariant
            0 <= consumed <= given.len(),
            lens == group_lens(given),
            lens.len() == given.len(),
            kept_all == kept_counts(lens, max_items as nat),
            kept_all.len() == lens.len(),
            rest@ == given.subrange(consumed, given.len() as int),
            out@.len() == consumed,
            kept_all.subrange(consumed, kept_all.len() as int) == kept_counts(
                lens.subrange(consumed, lens.len() as int),
                remaining as nat,
            ),
            forall|i: int|
                0 <= i < consumed ==> (#[trigger] out@[i]).0 == given[i].0 && out@[i].1@
                    == given[i].1@.take(kept_all[i] as int),
        decreases rest.len(),
    {
        let ghost tail = lens.subrange(consumed, lens.len() as int);
        let (key, mut items) = rest.remove(0);
        let ghost before = items@;
        proof {
            assert(given[consumed] == (key, items));
            assert(tail[0] == before.len());
        }
        items.truncate(remaining);
        let kept = items.len();
        let ghost k: nat = if tail[0] <= remaining as nat {
            tail[0]
        } else {
            remaining as nat
        };
        proof {
            assert(kept == k);
            let kc = kept_counts(tail, remaining as nat);
            assert(kc == seq![k] + kept_counts(tail.drop_first(), (remaining - k) as nat));
            assert(tail.drop_first() =~= lens.subrange(consumed + 1, lens.len() as int));
            assert(kept_all[consumed] == kept_all.subrange(consumed, kept_all.len() as int)[0]);
            assert(kept_all[consumed] == k);
            assert(kept_all.subrange(consumed + 1, kept_all.len() as int) =~= kept_all.subrange(
                consumed,
                kept_all.len() as int,
            ).drop_first());
            assert((seq![k] + kept_counts(tail.drop_first(), (remaining - k) as nat)).drop_first()
                =~= kept_counts(tail.drop_first(), (remaining - k) as nat));
            assert(items@ =~= before.take(k as int));
        }
        remaining = remaining - kept;
        out.push((key, items));
        proof {
            consumed = consumed + 1;
            assert(rest@ =~= given.subrange(consumed, given.len() as int));
        }
    }
    *groups = out;
}

} // verus!
