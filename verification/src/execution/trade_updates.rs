use vstd::prelude::*;

use crate::decimal::ExactDecimal;
use crate::websocket::trading::AlpacaTradeEvent;

verus! {

/// How many fill execution ids the stream handler remembers.
pub const FILL_ID_CAPACITY: usize = 10_000;

/// First delay before re-establishing a dropped trade-update stream.
pub const INITIAL_RECONNECT_DELAY_MS: u64 = 500;

/// Upper bound of the doubling reconnect delay.
pub const MAX_RECONNECT_DELAY_MS: u64 = 30_000;

/// `seen` after recording `id`: appended, and the oldest id dropped once over capacity.
pub open spec fn spec_record_fill(seen: Seq<Seq<char>>, id: Seq<char>) -> Seq<Seq<char>> {
    let pushed = seen.push(id);
    if pushed.len() > FILL_ID_CAPACITY {
        pushed.drop_first()
    } else {
        pushed
    }
}

pub open spec fn no_duplicates(s: Seq<Seq<char>>) -> bool {
    forall|i: int, j: int| 0 <= i < j < s.len() ==> s[i] != s[j]
}

/// The execution ids of recent fills, oldest first, so that a fill replayed by the venue is
/// emitted once. At most [`FILL_ID_CAPACITY`] ids are kept; the oldest is forgotten first.
pub struct FillDeduplicator {
    ids: Vec<String>,
}

impl FillDeduplicator {
    #[verifier::type_invariant]
    spec fn inv(self) -> bool {
        &&& no_duplicates(self.ids@.map_values(|s: String| s@))
        &&& self.ids@.len() <= FILL_ID_CAPACITY
    }

    /// The remembered ids, oldest first.
    pub closed spec fn view(&self) -> Seq<Seq<char>> {
        self.ids@.map_values(|s: String| s@)
    }

    pub fn new() -> (r: FillDeduplicator)
        ensures
            r.view() == Seq::<Seq<char>>::empty(),
    {
        let r = FillDeduplicator { ids: Vec::new() };
        assert(r.ids@.map_values(|s: String| s@) =~= Seq::<Seq<char>>::empty());
        r
    }

    /// The number of remembered ids, never above the capacity.
    pub fn len(&self) -> (r: usize)
        ensures
            r == self.view().len(),
            r <= FILL_ID_CAPACITY,
            no_duplicates(self.view()),
    {
        proof {
            use_type_invariant(self);
        }
        self.ids.len()
    }

    pub fn contains(&self, id: &str) -> (r: bool)
        ensures
            r == self.view().contains(id@),
    {
        let mut i: usize = 0;
        while i < self.ids.len()
            invariant
                i <= self.ids@.len(),
                forall|j: int| 0 <= j < i ==> self.ids@[j]@ != id@,
            decreases self.ids@.len() - i,
        {
            if crate::common::text::str_eq(self.ids[i].as_str(), id) {
                assert(self.view()[i as int] == id@);
                return true;
            }
            i = i + 1;
        }
        assert(!self.view().contains(id@)) by {
            if self.view().contains(id@) {
                let k = choose|k: int| 0 <= k < self.view().len() && self.view()[k] == id@;
                assert(self.view()[k] == self.ids@[k]@);
            }
        }
        false
    }

    /// Records a fill's execution id; `false` when the id is already remembered.
    pub fn insert(&mut self, id: String) -> (r: bool)
        ensures
            r == !old(self).view().contains(id@),
            r ==> final(self).view() == spec_record_fill(old(self).view(), id@),
            !r ==> final(self).view() == old(self).view(),
            final(self).view().len() <= FILL_ID_CAPACITY,
            no_duplicates(final(self).view()),
    {
        proof {
            use_type_invariant(&*self);
        }
        if self.contains(id.as_str()) {
            return false;
        }
        let ghost before = self.view();
        let mut ids: Vec<String> = Vec::new();
        std::mem::swap(&mut ids, &mut self.ids);
        ids.push(id);
        let ghost pushed = ids@.map_values(|s: String| s@);
        assert(pushed =~= before.push(id@));
        if ids.len() > FILL_ID_CAPACITY {
            ids.remove(0);
            assert(ids@.map_values(|s: String| s@) =~= pushed.drop_first());
        }
        proof {
            let after = ids@.map_values(|s: String| s@);
            assert(after == spec_record_fill(before, id@));
            assert forall|i: int, j: int| 0 <= i < j < after.len() implies after[i] != after[j] by {
                if pushed.len() > FILL_ID_CAPACITY {
                    assert(after[i] == pushed[i + 1] && after[j] == pushed[j + 1]);
                }
                if j == pushed.len() - 1 || (pushed.len() > FILL_ID_CAPACITY && j + 1 == pushed.len()
                    - 1) {
                    assert(!before.contains(id@));
                } else {
                }
            }
        }
        self.ids = ids;
        true
    }
}

/// What the stream handler does for one trade update.
#[derive(Clone, Debug)]
pub enum TradeUpdateAction {
    /// Emit an accepted event for the order.
    Accepted,
    /// The order already carries a venue id; nothing is emitted.
    AlreadyAccepted,
    /// Emit a fill of `last_qty` at `last_px` with this execution id as its trade id;
    /// `closes_order` when the order is fully filled and its context is dropped afterwards.
    Filled { execution_id: String, last_qty: ExactDecimal, last_px: ExactDecimal, closes_order: bool },
    /// The fill was already emitted; nothing is emitted and no refresh follows.
    DuplicateFill,
    /// Emit a cancel and drop the order's context.
    Canceled,
    /// Emit an expiry and drop the order's context.
    Expired,
    /// Emit a rejection and drop the order's context.
    Rejected,
    /// Emit a cancel rejection.
    CancelRejected,
    /// Emit a trigger of the stop.
    Triggered,
    /// Emit an update with the replacement order's quantity and prices.
    Updated { quantity: ExactDecimal, limit_price: Option<ExactDecimal>, stop_price: Option<ExactDecimal> },
    /// Emit a modify rejection.
    ModifyRejected,
    /// Non-terminal event; nothing is emitted.
    Ignored,
}

/// How a trade update is handled: the action, whether the account snapshot is refreshed
/// afterwards, and the venue order id and event time that every emitted event carries.
#[derive(Clone, Debug)]
pub struct TradeUpdateOutcome {
    pub action: TradeUpdateAction,
    pub refresh: bool,
    pub venue_order_id: String,
    pub ts_event: i64,
}

/// Why a trade update cannot be applied.
#[derive(Clone, Copy, Debug, PartialEq, Eq, Structural)]
pub enum TradeUpdateError {
    /// No local order context for the update's client order id.
    MissingContext,
    MissingExecutionId,
    MissingPrice,
    MissingQuantity,
}

/// The facts of a trade update that the handler reads.
pub struct TradeUpdateFacts {
    pub event: AlpacaTradeEvent,
    /// The execution id of a fill.
    pub execution_id: Option<String>,
    /// The price of a fill.
    pub price: Option<ExactDecimal>,
    /// The quantity of a fill.
    pub qty: Option<ExactDecimal>,
    /// The venue's id of the order (after a replacement, the replacement's id).
    pub venue_order_id: String,
    /// The order's quantity.
    pub order_qty: ExactDecimal,
    pub limit_price: Option<ExactDecimal>,
    pub stop_price: Option<ExactDecimal>,
    /// The update's own time, in nanoseconds since the epoch.
    pub timestamp: Option<i64>,
    /// When the order was filled, in nanoseconds since the epoch.
    pub filled_at: Option<i64>,
    /// When the order was last updated, in nanoseconds since the epoch.
    pub updated_at: i64,
}

/// Mathematical view of a [`TradeUpdateAction`].
pub enum ActionView {
    Accepted,
    AlreadyAccepted,
    Filled { execution_id: Seq<char>, last_qty: ExactDecimal, last_px: ExactDecimal, closes_order: bool },
    DuplicateFill,
    Canceled,
    Expired,
    Rejected,
    CancelRejected,
    Triggered,
    Updated { quantity: ExactDecimal, limit_price: Option<ExactDecimal>, stop_price: Option<ExactDecimal> },
    ModifyRejected,
    Ignored,
}

pub open spec fn action_view(a: TradeUpdateAction) -> ActionView {
    match a {
        TradeUpdateAction::Accepted => ActionView::Accepted,
        TradeUpdateAction::AlreadyAccepted => ActionView::AlreadyAccepted,
        TradeUpdateAction::Filled { execution_id, last_qty, last_px, closes_order } => ActionView::Filled {
            execution_id: execution_id@,
            last_qty,
            last_px,
            closes_order,
        },
        TradeUpdateAction::DuplicateFill => ActionView::DuplicateFill,
        TradeUpdateAction::Canceled => ActionView::Canceled,
        TradeUpdateAction::Expired => ActionView::Expired,
        TradeUpdateAction::Rejected => ActionView::Rejected,
        TradeUpdateAction::CancelRejected => ActionView::CancelRejected,
        TradeUpdateAction::Triggered => ActionView::Triggered,
        TradeUpdateAction::Updated { quantity, limit_price, stop_price } => ActionView::Updated {
            quantity,
            limit_price,
            stop_price,
        },
        TradeUpdateAction::ModifyRejected => ActionView::ModifyRejected,
        TradeUpdateAction::Ignored => ActionView::Ignored,
    }
}

/// Mathematical view of a [`TradeUpdateOutcome`].
pub struct OutcomeView {
    pub action: ActionView,
    pub refresh: bool,
    pub venue_order_id: Seq<char>,
    pub ts_event: i64,
}

pub open spec fn is_fill_event(e: AlpacaTradeEvent) -> bool {
    e == AlpacaTradeEvent::Fill || e == AlpacaTradeEvent::PartialFill
}

/// Events after which the account snapshot is refreshed.
pub open spec fn refreshes_account(e: AlpacaTradeEvent) -> bool {
    match e {
        AlpacaTradeEvent::Accepted | AlpacaTradeEvent::New | AlpacaTradeEvent::Fill
        | AlpacaTradeEvent::PartialFill | AlpacaTradeEvent::Canceled | AlpacaTradeEvent::Expired
        | AlpacaTradeEvent::Rejected | AlpacaTradeEvent::Replaced => true,
        _ => false,
    }
}

/// A terminal event for a known order is emitted under its own name and refreshes the account:
/// a cancel as a cancel, an expiry as an expiry, a rejection as a rejection; and each of these
/// actions comes from that event alone.
pub proof fn lemma_terminal_events_keep_their_names(
    u: TradeUpdateFacts,
    has_context: bool,
    has_venue_order_id: bool,
    seen: Seq<Seq<char>>,
)
    ensures
        has_context && u.event == AlpacaTradeEvent::Expired ==> (spec_trade_update(
            u,
            has_context,
            has_venue_order_id,
            seen,
        ) matches Ok(o) && o.action is Expired && o.refresh),
        has_context && u.event == AlpacaTradeEvent::Canceled ==> (spec_trade_update(
            u,
            has_context,
            has_venue_order_id,
            seen,
        ) matches Ok(o) && o.action is Canceled && o.refresh),
        has_context && u.event == AlpacaTradeEvent::Rejected ==> (spec_trade_update(
            u,
            has_context,
            has_venue_order_id,
            seen,
        ) matches Ok(o) && o.action is Rejected && o.refresh),
        spec_trade_update(u, has_context, has_venue_order_id, seen) matches Ok(o) ==> {
            &&& (o.action is Expired ==> u.event == AlpacaTradeEvent::Expired)
            &&& (o.action is Canceled ==> u.event == AlpacaTradeEvent::Canceled)
            &&& (o.action is Rejected ==> u.event == AlpacaTradeEvent::Rejected)
        },
{
}

/// The event time of an update: its own timestamp, else the order's fill time, else the
/// order's last update time.
pub open spec fn spec_event_time(timestamp: Option<i64>, filled_at: Option<i64>, updated_at: i64) -> i64 {
    match timestamp {
        Some(t) => t,
        None => match filled_at {
            Some(f) => f,
            None => updated_at,
        },
    }
}

/// The action for an update, given whether the order has a local context and a venue id and the
/// fill ids seen so far: a fill carries its execution id, quantity and price as the update gives
/// them, a replacement carries the order's new quantity and prices, and every outcome carries
/// the update's venue order id and event time.
pub open spec fn spec_trade_update(
    u: TradeUpdateFacts,
    has_context: bool,
    has_venue_order_id: bool,
    seen: Seq<Seq<char>>,
) -> Result<OutcomeView, TradeUpdateError> {
    let event = u.event;
    let done = |action: ActionView, refresh: bool|
        OutcomeView {
            action,
            refresh,
            venue_order_id: u.venue_order_id@,
            ts_event: spec_event_time(u.timestamp, u.filled_at, u.updated_at),
        };
    if !has_context {
        Err(TradeUpdateError::MissingContext)
    } else if is_fill_event(event) {
        if u.execution_id is None {
            Err(TradeUpdateError::MissingExecutionId)
        } else if seen.contains(u.execution_id->0@) {
            Ok(done(ActionView::DuplicateFill, false))
        } else if u.price is None {
            Err(TradeUpdateError::MissingPrice)
        } else if u.qty is None {
            Err(TradeUpdateError::MissingQuantity)
        } else {
            Ok(
                done(
                    ActionView::Filled {
                        execution_id: u.execution_id->0@,
                        last_qty: u.qty->0,
                        last_px: u.price->0,
                        closes_order: event == AlpacaTradeEvent::Fill,
                    },
                    true,
                ),
            )
        }
    } else {
        let action = match event {
            AlpacaTradeEvent::Accepted | AlpacaTradeEvent::New => if has_venue_order_id {
                ActionView::AlreadyAccepted
            } else {
                ActionView::Accepted
            },
            AlpacaTradeEvent::Canceled => ActionView::Canceled,
            AlpacaTradeEvent::Expired => ActionView::Expired,
            AlpacaTradeEvent::Rejected => ActionView::Rejected,
            AlpacaTradeEvent::OrderCancelRejected => ActionView::CancelRejected,
            AlpacaTradeEvent::Stopped => ActionView::Triggered,
            AlpacaTradeEvent::Replaced => ActionView::Updated {
                quantity: u.order_qty,
                limit_price: u.limit_price,
                stop_price: u.stop_price,
            },
            AlpacaTradeEvent::OrderReplaceRejected => ActionView::ModifyRejected,
            _ => ActionView::Ignored,
        };
        Ok(done(action, refreshes_account(event)))
    }
}

/// The fill ids remembered after an update: a new fill's id is recorded, even when the update
/// then fails for a missing price or quantity.
pub open spec fn spec_seen_after(
    event: AlpacaTradeEvent,
    execution_id: Option<Seq<char>>,
    has_context: bool,
    seen: Seq<Seq<char>>,
) -> Seq<Seq<char>> {
    if has_context && is_fill_event(event) && execution_id is Some && !seen.contains(
        execution_id->0,
    ) {
        spec_record_fill(seen, execution_id->0)
    } else {
        seen
    }
}

pub open spec fn opt_str_view(s: Option<String>) -> Option<Seq<char>> {
    match s {
        Some(v) => Some(v@),
        None => None,
    }
}

pub open spec fn outcome_view(r: Result<TradeUpdateOutcome, TradeUpdateError>) -> Result<
    OutcomeView,
    TradeUpdateError,
> {
    match r {
        Ok(o) => Ok(
            OutcomeView {
                action: action_view(o.action),
                refresh: o.refresh,
                venue_order_id: o.venue_order_id@,
                ts_event: o.ts_event,
            },
        ),
        Err(e) => Err(e),
    }
}

/// Decides how one trade update is handled, what the emitted event carries and whether the
/// account snapshot is refreshed afterwards; a fill whose execution id was already seen is
/// dropped.
pub fn handle_trade_update(
    update: &TradeUpdateFacts,
    has_context: bool,
    has_venue_order_id: bool,
    fills: &mut FillDeduplicator,
) -> (r: Result<TradeUpdateOutcome, TradeUpdateError>)
    ensures
        outcome_view(r) == spec_trade_update(*update, has_context, has_venue_order_id, old(fills).view()),
        final(fills).view() == spec_seen_after(
            update.event,
            opt_str_view(update.execution_id),
            has_context,
            old(fills).view(),
        ),
{
    if !has_context {
        return Err(TradeUpdateError::MissingContext);
    }
    let ts_event = trade_update_event_time(update.timestamp, update.filled_at, update.updated_at);
    let venue_order_id = update.venue_order_id.clone();
    let event = update.event;
    if event == AlpacaTradeEvent::Fill || event == AlpacaTradeEvent::PartialFill {
        let execution_id = match &update.execution_id {
            Some(id) => id.clone(),
            None => return Err(TradeUpdateError::MissingExecutionId),
        };
        if !fills.insert(execution_id.clone()) {
            return Ok(
                TradeUpdateOutcome {
                    action: TradeUpdateAction::DuplicateFill,
                    refresh: false,
                    venue_order_id,
                    ts_event,
                },
            );
        }
        let last_px = match update.price {
            Some(p) => p,
            None => return Err(TradeUpdateError::MissingPrice),
        };
        let last_qty = match update.qty {
            Some(q) => q,
            None => return Err(TradeUpdateError::MissingQuantity),
        };
        let closes_order = event == AlpacaTradeEvent::Fill;
        return Ok(
            TradeUpdateOutcome {
                action: TradeUpdateAction::Filled { execution_id, last_qty, last_px, closes_order },
                refresh: true,
                venue_order_id,
                ts_event,
            },
        );
    }
    let action = match event {
        AlpacaTradeEvent::Accepted | AlpacaTradeEvent::New => if has_venue_order_id {
            TradeUpdateAction::AlreadyAccepted
        } else {
            TradeUpdateAction::Accepted
        },
        AlpacaTradeEvent::Canceled => TradeUpdateAction::Canceled,
        AlpacaTradeEvent::Expired => TradeUpdateAction::Expired,
        AlpacaTradeEvent::Rejected => TradeUpdateAction::Rejected,
        AlpacaTradeEvent::OrderCancelRejected => TradeUpdateAction::CancelRejected,
        AlpacaTradeEvent::Stopped => TradeUpdateAction::Triggered,
        AlpacaTradeEvent::Replaced => TradeUpdateAction::Updated {
            quantity: update.order_qty,
            limit_price: update.limit_price,
            stop_price: update.stop_price,
        },
        AlpacaTradeEvent::OrderReplaceRejected => TradeUpdateAction::ModifyRejected,
        _ => TradeUpdateAction::Ignored,
    };
    let refresh = match event {
        AlpacaTradeEvent::Accepted | AlpacaTradeEvent::New | AlpacaTradeEvent::Canceled
        | AlpacaTradeEvent::Expired | AlpacaTradeEvent::Rejected | AlpacaTradeEvent::Replaced => true,
        _ => false,
    };
    Ok(TradeUpdateOutcome { action, refresh, venue_order_id, ts_event })
}

/// The event time of an update: its own timestamp, else the order's fill time, else the
/// order's last update time.
pub fn trade_update_event_time(timestamp: Option<i64>, filled_at: Option<i64>, updated_at: i64) -> (r:
    i64)
    ensures
        r == spec_event_time(timestamp, filled_at, updated_at),
{
    match timestamp {
        Some(t) => t,
        None => match filled_at {
            Some(f) => f,
            None => updated_at,
        },
    }
}

/// The reconnect delay after a failed attempt: doubled, capped at thirty seconds.
pub open spec fn spec_next_reconnect_delay(delay_ms: u64) -> u64 {
    if 2 * delay_ms <= MAX_RECONNECT_DELAY_MS {
        (2 * delay_ms) as u64
    } else {
        MAX_RECONNECT_DELAY_MS
    }
}

pub fn next_reconnect_delay(delay_ms: u64) -> (r: u64)
    ensures
        r == spec_next_reconnect_delay(delay_ms),
{
    if delay_ms > MAX_RECONNECT_DELAY_MS / 2 {
        MAX_RECONNECT_DELAY_MS
    } else {
        delay_ms * 2
    }
}

/// The refresh state after a request: running, pending, and whether a refresh starts now.
pub open spec fn gate_after_request(running: bool, pending: bool) -> (bool, bool, bool) {
    if running {
        (true, true, false)
    } else {
        (true, pending, true)
    }
}

/// The refresh state once the running refresh ends: running, pending, and whether a
/// follow-up starts now.
pub open spec fn gate_after_finished(pending: bool) -> (bool, bool, bool) {
    if pending {
        (true, false, true)
    } else {
        (false, false, false)
    }
}

/// The refresh state after `n` requests, with the number of refreshes they started.
pub open spec fn gate_after_requests(running: bool, pending: bool, n: nat) -> (bool, bool, nat)
    decreases n,
{
    if n == 0 {
        (running, pending, 0)
    } else {
        let (r, p, k) = gate_after_requests(running, pending, (n - 1) as nat);
        let (r2, p2, start) = gate_after_request(r, p);
        (r2, p2, if start {
            k + 1
        } else {
            k
        })
    }
}

/// Coalescing: any number of requests made while a refresh runs start nothing, and its end
/// starts exactly one follow-up refresh, whose own end starts nothing more.
pub proof fn lemma_refresh_requests_coalesce(n: nat)
    requires
        n >= 1,
    ensures
        gate_after_requests(true, false, n) == (true, true, 0nat),
        gate_after_finished(true) == (true, false, true),
        gate_after_finished(false) == (false, false, false),
    decreases n,
{
    if n > 1 {
        lemma_refresh_requests_coalesce((n - 1) as nat);
    } else {
        assert(gate_after_requests(true, false, 0) == (true, false, 0nat));
    }
}

/// From an idle gate, the first request starts a refresh and later requests start nothing
/// until it ends.
pub proof fn lemma_refresh_first_request_starts(n: nat)
    requires
        n >= 1,
    ensures
        gate_after_requests(false, false, n).2 == 1,
        gate_after_requests(false, false, n).0,
    decreases n,
{
    if n > 1 {
        lemma_refresh_first_request_starts((n - 1) as nat);
    } else {
        assert(gate_after_requests(false, false, 0) == (false, false, 0nat));
    }
}

/// The reconnect delay never shrinks and never passes the cap, starting from any delay
/// within it.
pub proof fn lemma_reconnect_delay_bounded(delay_ms: u64)
    requires
        delay_ms <= MAX_RECONNECT_DELAY_MS,
    ensures
        delay_ms <= spec_next_reconnect_delay(delay_ms) <= MAX_RECONNECT_DELAY_MS,
        delay_ms > 0 && delay_ms < MAX_RECONNECT_DELAY_MS ==> delay_ms < spec_next_reconnect_delay(
            delay_ms,
        ),
{
}

/// A recorded fill id is remembered right after, so its replay is recognised.
pub proof fn lemma_recorded_fill_is_remembered(seen: Seq<Seq<char>>, id: Seq<char>)
    requires
        seen.len() <= FILL_ID_CAPACITY,
    ensures
        spec_record_fill(seen, id).contains(id),
        spec_record_fill(seen, id).len() <= FILL_ID_CAPACITY,
{
    let r = spec_record_fill(seen, id);
    assert(r[r.len() - 1] == id);
}

/// Recording an id forgets at most the oldest remembered id, and only when the memory is
/// full.
pub proof fn lemma_record_fill_keeps_newer(seen: Seq<Seq<char>>, id: Seq<char>, i: int)
    requires
        seen.len() <= FILL_ID_CAPACITY,
        0 <= i < seen.len(),
        i > 0 || seen.len() < FILL_ID_CAPACITY,
    ensures
        spec_record_fill(seen, id).contains(seen[i]),
{
    let r = spec_record_fill(seen, id);
    if seen.len() < FILL_ID_CAPACITY {
        assert(r[i] == seen[i]);
    } else {
        assert(r[i - 1] == seen[i]);
    }
}

/// Coalesces account refreshes: at most one runs, and requests made while it runs are answered
/// by a single follow-up refresh.
pub struct AccountRefreshGate {
    running: bool,
    pending: bool,
}

impl AccountRefreshGate {
    pub closed spec fn is_running(&self) -> bool {
        self.running
    }

    pub closed spec fn is_pending(&self) -> bool {
        self.pending
    }

    /// A follow-up is only ever owed while a refresh runs.
    pub closed spec fn wf(&self) -> bool {
        self.pending ==> self.running
    }

    pub fn new() -> (r: AccountRefreshGate)
        ensures
            !r.is_running(),
            !r.is_pending(),
            r.wf(),
    {
        AccountRefreshGate { running: false, pending: false }
    }

    /// A refresh is wanted; `true` when it must be started now.
    pub fn request(&mut self) -> (start: bool)
        ensures
            (final(self).is_running(), final(self).is_pending(), start) == gate_after_request(
                old(self).is_running(),
                old(self).is_pending(),
            ),
            start == !old(self).is_running(),
            final(self).is_running(),
            final(self).is_pending() == (old(self).is_pending() || old(self).is_running()),
            old(self).wf() ==> final(self).wf(),
    {
        if self.running {
            self.pending = true;
            false
        } else {
            self.running = true;
            true
        }
    }

    /// The running refresh ended; `true` when the coalesced follow-up must be started now.
    pub fn finished(&mut self) -> (start: bool)
        ensures
            (final(self).is_running(), final(self).is_pending(), start) == gate_after_finished(
                old(self).is_pending(),
            ),
            start == old(self).is_pending(),
            final(self).is_running() == old(self).is_pending(),
            !final(self).is_pending(),
            final(self).wf(),
    {
        if self.pending {
            self.pending = false;
            self.running = true;
            true
        } else {
            self.running = false;
            false
        }
    }
}

} // verus!
