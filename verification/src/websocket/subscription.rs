use vstd::prelude::*;

use nautilus_network::websocket::{AuthTracker, SubscriptionState};

verus! {

#[verifier::external_type_specification]
#[verifier::external_body]
pub struct ExSubscriptionState(SubscriptionState);

#[verifier::external_type_specification]
#[verifier::external_body]
pub struct ExAuthTracker(AuthTracker);

#[verifier::external_type_specification]
#[verifier::external_body]
#[verifier::reject_recursive_types(T)]
pub struct ExOneshotReceiver<T>(tokio::sync::oneshot::Receiver<T>);

#[verifier::external_type_specification]
#[verifier::external_body]
pub struct ExRecvError(tokio::sync::oneshot::error::RecvError);

/// The delimiter between channel and symbol in a topic.
pub const TOPIC_DELIMITER: char = '|';

/// The topic as the subscription state stores it: `channel|symbol` is split at the first
/// delimiter and an empty symbol stands for the whole channel, so `channel|` is kept as
/// `channel`.
pub open spec fn canonical_topic(t: Seq<char>) -> Seq<char> {
    if t.len() > 0 && t.last() == TOPIC_DELIMITER && !t.drop_last().contains(TOPIC_DELIMITER) {
        t.drop_last()
    } else {
        t
    }
}

/// Topics confirmed by the venue.
pub uninterp spec fn confirmed_topics(state: SubscriptionState) -> Set<Seq<char>>;

/// Topics requested and not yet acknowledged.
pub uninterp spec fn pending_subscribe_topics(state: SubscriptionState) -> Set<Seq<char>>;

/// Topics whose removal was requested and not yet acknowledged.
pub uninterp spec fn pending_unsubscribe_topics(state: SubscriptionState) -> Set<Seq<char>>;

/// How many subscribers hold each topic.
pub uninterp spec fn topic_references(state: SubscriptionState) -> Map<Seq<char>, nat>;

pub open spec fn same_references(a: SubscriptionState, b: SubscriptionState) -> bool {
    topic_references(a) == topic_references(b)
}

pub open spec fn same_topics(a: SubscriptionState, b: SubscriptionState) -> bool {
    &&& confirmed_topics(a) == confirmed_topics(b)
    &&& pending_subscribe_topics(a) == pending_subscribe_topics(b)
    &&& pending_unsubscribe_topics(a) == pending_unsubscribe_topics(b)
}

pub open spec fn no_topics() -> Set<Seq<char>> {
    Set::empty()
}

pub open spec fn no_references() -> Map<Seq<char>, nat> {
    Map::empty()
}

/// `SubscriptionState::new`: every set and every count is empty.
#[verifier::external_body]
pub(crate) fn new_subscription_state(delimiter: char) -> (r: SubscriptionState)
    requires
        delimiter == TOPIC_DELIMITER,
    ensures
        confirmed_topics(r) == no_topics(),
        pending_subscribe_topics(r) == no_topics(),
        pending_unsubscribe_topics(r) == no_topics(),
        topic_references(r) == no_references(),
{
    SubscriptionState::new(delimiter)
}

/// `SubscriptionState::mark_subscribe`: a confirmed topic is left alone; otherwise the topic
/// leaves the pending removals and joins the pending subscriptions.
#[verifier::external_body]
pub(crate) fn mark_subscribe(state: &mut SubscriptionState, topic: &str)
    ensures
        confirmed_topics(*old(state)).contains(canonical_topic(topic@)) ==> same_topics(
            *final(state),
            *old(state),
        ),
        !confirmed_topics(*old(state)).contains(canonical_topic(topic@)) ==> {
            &&& confirmed_topics(*final(state)) == confirmed_topics(*old(state))
            &&& pending_subscribe_topics(*final(state)) == pending_subscribe_topics(
                *old(state),
            ).insert(canonical_topic(topic@))
            &&& pending_unsubscribe_topics(*final(state)) == pending_unsubscribe_topics(
                *old(state),
            ).remove(canonical_topic(topic@))
        },
        same_references(*final(state), *old(state)),
{
    state.mark_subscribe(topic)
}

/// `SubscriptionState::mark_unsubscribe`: the topic becomes a pending removal and leaves the
/// confirmed and pending subscriptions.
#[verifier::external_body]
pub(crate) fn mark_unsubscribe(state: &mut SubscriptionState, topic: &str)
    ensures
        confirmed_topics(*final(state)) == confirmed_topics(*old(state)).remove(
            canonical_topic(topic@),
        ),
        pending_subscribe_topics(*final(state)) == pending_subscribe_topics(*old(state)).remove(
            canonical_topic(topic@),
        ),
        pending_unsubscribe_topics(*final(state)) == pending_unsubscribe_topics(
            *old(state),
        ).insert(canonical_topic(topic@)),
        same_references(*final(state), *old(state)),
{
    state.mark_unsubscribe(topic)
}

/// `SubscriptionState::confirm_subscribe`: ignored while a removal is pending; otherwise the
/// topic moves from pending to confirmed.
#[verifier::external_body]
pub(crate) fn confirm_subscribe(state: &mut SubscriptionState, topic: &str)
    ensures
        pending_unsubscribe_topics(*old(state)).contains(canonical_topic(topic@)) ==> same_topics(
            *final(state),
            *old(state),
        ),
        !pending_unsubscribe_topics(*old(state)).contains(canonical_topic(topic@)) ==> {
            &&& confirmed_topics(*final(state)) == confirmed_topics(*old(state)).insert(
                canonical_topic(topic@),
            )
            &&& pending_subscribe_topics(*final(state)) == pending_subscribe_topics(
                *old(state),
            ).remove(canonical_topic(topic@))
            &&& pending_unsubscribe_topics(*final(state)) == pending_unsubscribe_topics(
                *old(state),
            )
        },
        same_references(*final(state), *old(state)),
{
    state.confirm_subscribe(topic)
}

/// `SubscriptionState::confirm_unsubscribe`: a stale acknowledgement is ignored; otherwise the
/// topic leaves the pending removals and the confirmed topics.
#[verifier::external_body]
pub(crate) fn confirm_unsubscribe(state: &mut SubscriptionState, topic: &str)
    ensures
        !pending_unsubscribe_topics(*old(state)).contains(canonical_topic(topic@)) ==> same_topics(
            *final(state),
            *old(state),
        ),
        pending_unsubscribe_topics(*old(state)).contains(canonical_topic(topic@)) ==> {
            &&& confirmed_topics(*final(state)) == confirmed_topics(*old(state)).remove(
                canonical_topic(topic@),
            )
            &&& pending_subscribe_topics(*final(state)) == pending_subscribe_topics(*old(state))
            &&& pending_unsubscribe_topics(*final(state)) == pending_unsubscribe_topics(
                *old(state),
            ).remove(canonical_topic(topic@))
        },
        same_references(*final(state), *old(state)),
{
    state.confirm_unsubscribe(topic)
}

/// `SubscriptionState::mark_failure`: ignored while a removal is pending; otherwise the topic
/// moves from confirmed back to pending.
#[verifier::external_body]
pub(crate) fn mark_failure(state: &mut SubscriptionState, topic: &str)
    ensures
        pending_unsubscribe_topics(*old(state)).contains(canonical_topic(topic@)) ==> same_topics(
            *final(state),
            *old(state),
        ),
        !pending_unsubscribe_topics(*old(state)).contains(canonical_topic(topic@)) ==> {
            &&& confirmed_topics(*final(state)) == confirmed_topics(*old(state)).remove(
                canonical_topic(topic@),
            )
            &&& pending_subscribe_topics(*final(state)) == pending_subscribe_topics(
                *old(state),
            ).insert(canonical_topic(topic@))
            &&& pending_unsubscribe_topics(*final(state)) == pending_unsubscribe_topics(
                *old(state),
            )
        },
        same_references(*final(state), *old(state)),
{
    state.mark_failure(topic)
}

pub open spec fn lists_exactly(v: Seq<String>, s: Set<Seq<char>>) -> bool {
    &&& forall|i: int| 0 <= i < v.len() ==> s.contains(#[trigger] v[i]@)
    &&& forall|t: Seq<char>| s.contains(t) ==> exists|i: int| 0 <= i < v.len() && #[trigger] v[i]@ == t
    &&& forall|i: int, j: int| 0 <= i < j < v.len() ==> v[i]@ != v[j]@
}

/// `SubscriptionState::pending_subscribe_topics`: each pending topic once, in map order.
#[verifier::external_body]
pub(crate) fn list_pending_subscribe(state: &SubscriptionState) -> (r: Vec<String>)
    ensures
        lists_exactly(r@, pending_subscribe_topics(*state)),
{
    state.pending_subscribe_topics()
}

/// `SubscriptionState::pending_unsubscribe_topics`: each pending removal once, in map order.
#[verifier::external_body]
pub(crate) fn list_pending_unsubscribe(state: &SubscriptionState) -> (r: Vec<String>)
    ensures
        lists_exactly(r@, pending_unsubscribe_topics(*state)),
{
    state.pending_unsubscribe_topics()
}

/// `SubscriptionState::all_topics`: the confirmed topics, then the pending subscriptions, each
/// part listing its topics once; so no topic is listed twice where none is both confirmed and
/// pending.
#[verifier::external_body]
pub(crate) fn list_all_topics(state: &SubscriptionState) -> (r: Vec<String>)
    ensures
        forall|i: int|
            0 <= i < r@.len() ==> (confirmed_topics(*state).contains(#[trigger] r@[i]@)
                || pending_subscribe_topics(*state).contains(r@[i]@)),
        forall|t: Seq<char>|
            (confirmed_topics(*state).contains(t) || pending_subscribe_topics(*state).contains(t))
                ==> exists|i: int| 0 <= i < r@.len() && #[trigger] r@[i]@ == t,
        (forall|t: Seq<char>|
            !(confirmed_topics(*state).contains(t) && pending_subscribe_topics(*state).contains(t)))
            ==> forall|i: int, j: int| 0 <= i < j < r@.len() ==> r@[i]@ != r@[j]@,
{
    state.all_topics()
}

/// `SubscriptionState::len`: the number of confirmed topics.
#[verifier::external_body]
pub(crate) fn confirmed_count(state: &SubscriptionState) -> (r: usize)
    ensures
        r == confirmed_topics(*state).len(),
{
    state.len()
}

/// `SubscriptionState::add_reference`: counts one more holder; `true` for the first.
#[verifier::external_body]
pub(crate) fn add_reference(state: &mut SubscriptionState, topic: &str) -> (r: bool)
    requires
        topic_references(*old(state)).dom().contains(topic@) ==> topic_references(
            *old(state),
        )[topic@] < usize::MAX,
    ensures
        r == !topic_references(*old(state)).dom().contains(topic@),
        topic_references(*final(state)) == topic_references(*old(state)).insert(
            topic@,
            if r {
                1
            } else {
                topic_references(*old(state))[topic@] + 1
            },
        ),
        same_topics(*final(state), *old(state)),
{
    state.add_reference(topic)
}

/// `SubscriptionState::remove_reference`: drops one holder; `true` when the last one leaves.
/// A topic without holders is left alone.
#[verifier::external_body]
pub(crate) fn remove_reference(state: &mut SubscriptionState, topic: &str) -> (r: bool)
    ensures
        !topic_references(*old(state)).dom().contains(topic@) ==> !r && topic_references(
            *final(state),
        ) == topic_references(*old(state)),
        topic_references(*old(state)).dom().contains(topic@) && topic_references(
            *old(state),
        )[topic@] <= 1 ==> r && topic_references(*final(state)) == topic_references(
            *old(state),
        ).remove(topic@),
        topic_references(*old(state)).dom().contains(topic@) && topic_references(
            *old(state),
        )[topic@] > 1 ==> !r && topic_references(*final(state)) == topic_references(
            *old(state),
        ).insert(topic@, (topic_references(*old(state))[topic@] - 1) as nat),
        same_topics(*final(state), *old(state)),
{
    state.remove_reference(topic)
}

/// `SubscriptionState::get_reference_count`: zero for a topic without holders.
#[verifier::external_body]
pub(crate) fn reference_count(state: &SubscriptionState, topic: &str) -> (r: usize)
    ensures
        r == (if topic_references(*state).dom().contains(topic@) {
            topic_references(*state)[topic@]
        } else {
            0
        }),
{
    state.get_reference_count(topic)
}

// The tracker keeps its flag and its pending attempt behind an `Arc`, so what it holds is not
// a property of one handle's value: the wrappers below state nothing of it. The session keeps
// its own record of authentication and only mirrors it to the tracker, whose job is to hand the
// outcome of an attempt to the receiver that `begin` returned.

/// `AuthTracker::new`: a tracker with no attempt under way.
#[verifier::external_body]
pub(crate) fn new_auth_tracker() -> (r: AuthTracker) {
    AuthTracker::new()
}

/// `AuthTracker::invalidate`: marks the session unauthenticated.
#[verifier::external_body]
pub(crate) fn invalidate(tracker: &mut AuthTracker) {
    tracker.invalidate()
}

/// `AuthTracker::begin`: starts an attempt, superseding a pending one; the receiver gets the
/// attempt's outcome.
#[verifier::external_body]
pub(crate) fn begin(tracker: &mut AuthTracker) -> (r: tokio::sync::oneshot::Receiver<
    Result<(), String>,
>) {
    tracker.begin()
}

/// `AuthTracker::succeed`: marks the session authenticated and hands `Ok` to the pending
/// attempt.
#[verifier::external_body]
pub(crate) fn succeed(tracker: &mut AuthTracker) {
    tracker.succeed()
}

/// `AuthTracker::fail`: marks the session unauthenticated and hands the message to the
/// pending attempt as its error.
#[verifier::external_body]
pub(crate) fn fail(tracker: &mut AuthTracker, message: String) {
    tracker.fail(message)
}

} // verus!
