use vstd::prelude::*;

use crate::decimal::ExactDecimal;
use crate::execution::model::{OrderType, TimeInForce};
use crate::execution::orders::{
    as_check, spec_fractional_rejection, spec_price_rejection, spec_quantity_rejection,
    validate_equity_order_price, validate_equity_quantity, validate_fractional_time_in_force,
    OrderRejection, PriceField,
};
use crate::http::error::{error_view, spec_ambiguous_write, AlpacaHttpError};
use crate::http::models::{AlpacaOrderType, AlpacaReplaceOrderRequest};

verus! {

/// How many times an ambiguous submission is looked up by client order id.
pub const RECONCILE_ATTEMPTS: u64 = 3;

/// Why a modify command is refused before reaching the venue.
#[derive(Clone, Copy, Debug, PartialEq, Eq, Structural)]
pub enum ModifyRejection {
    /// Neither the command nor the cached order carries a venue order id.
    MissingVenueOrderId,
    /// The command changes neither quantity, price nor trigger price.
    NothingToModify,
    Invalid(OrderRejection),
}

/// The venue order id of a command: its own, else the one of the cached order.
pub fn resolve_venue_order_id(command_id: Option<String>, cached_id: Option<String>) -> (r: Option<
    String,
>)
    ensures
        r == (match command_id {
            Some(id) => Some(id),
            None => cached_id,
        }),
{
    match command_id {
        Some(id) => Some(id),
        None => cached_id,
    }
}

/// The replace request of a modify command, or the first check it fails. `quantity` pairs the
/// new quantity with the order's time in force.
pub open spec fn spec_replace_request(
    quantity: Option<(ExactDecimal, TimeInForce)>,
    price: Option<ExactDecimal>,
    trigger_price: Option<ExactDecimal>,
) -> Result<AlpacaReplaceOrderRequest, ModifyRejection> {
    if quantity is None && price is None && trigger_price is None {
        Err(ModifyRejection::NothingToModify)
    } else if quantity is Some && spec_quantity_rejection((quantity->0).0) is Some {
        Err(ModifyRejection::Invalid(spec_quantity_rejection((quantity->0).0)->0))
    } else if quantity is Some && spec_fractional_rejection((quantity->0).0, (quantity->0).1) is Some {
        Err(ModifyRejection::Invalid(spec_fractional_rejection((quantity->0).0, (quantity->0).1)->0))
    } else if spec_price_rejection(PriceField::LimitPrice, price) is Some {
        Err(ModifyRejection::Invalid(spec_price_rejection(PriceField::LimitPrice, price)->0))
    } else if spec_price_rejection(PriceField::StopPrice, trigger_price) is Some {
        Err(ModifyRejection::Invalid(spec_price_rejection(PriceField::StopPrice, trigger_price)->0))
    } else {
        Ok(
            AlpacaReplaceOrderRequest {
                qty: match quantity {
                    Some(q) => Some(q.0),
                    None => None,
                },
                limit_price: price,
                stop_price: trigger_price,
            },
        )
    }
}

/// A replace request carries the command's terms unchanged: its quantity is the command's new
/// quantity, its limit price the command's price and its stop price the command's trigger price,
/// each absent exactly where the command leaves it; and a command that sets any term and obeys
/// the quantity and price rules is always sent.
pub proof fn lemma_replace_request_carries_the_command(
    quantity: Option<(ExactDecimal, TimeInForce)>,
    price: Option<ExactDecimal>,
    trigger_price: Option<ExactDecimal>,
)
    ensures
        spec_replace_request(quantity, price, trigger_price) matches Ok(req) ==> {
            &&& req.stop_price == trigger_price
            &&& req.limit_price == price
            &&& (match quantity {
                Some(q) => req.qty == Some(q.0),
                None => req.qty is None,
            })
        },
        ((quantity is Some || price is Some || trigger_price is Some) && (quantity matches Some(q)
            ==> spec_quantity_rejection(q.0) is None && spec_fractional_rejection(q.0, q.1) is None)
            && spec_price_rejection(PriceField::LimitPrice, price) is None && spec_price_rejection(
            PriceField::StopPrice,
            trigger_price,
        ) is None) ==> spec_replace_request(quantity, price, trigger_price) is Ok,
{
}

/// Validates a modify command and builds the replace request: the new quantity obeys the
/// quantity and fractional rules and the prices the sub-penny rule.
pub fn replace_order_request(
    quantity: Option<(ExactDecimal, TimeInForce)>,
    price: Option<ExactDecimal>,
    trigger_price: Option<ExactDecimal>,
) -> (r: Result<AlpacaReplaceOrderRequest, ModifyRejection>)
    ensures
        r == spec_replace_request(quantity, price, trigger_price),
{
    if quantity.is_none() && price.is_none() && trigger_price.is_none() {
        return Err(ModifyRejection::NothingToModify);
    }
    if let Some((q, tif)) = quantity {
        if let Err(e) = validate_equity_quantity(q) {
            return Err(ModifyRejection::Invalid(e));
        }
        if let Err(e) = validate_fractional_time_in_force(q, tif) {
            return Err(ModifyRejection::Invalid(e));
        }
    }
    if let Err(e) = validate_equity_order_price(PriceField::LimitPrice, price) {
        return Err(ModifyRejection::Invalid(e));
    }
    if let Err(e) = validate_equity_order_price(PriceField::StopPrice, trigger_price) {
        return Err(ModifyRejection::Invalid(e));
    }
    let qty = match quantity {
        Some(q) => Some(q.0),
        None => None,
    };
    Ok(AlpacaReplaceOrderRequest { qty, limit_price: price, stop_price: trigger_price })
}

/// The wait before the `attempt`-th lookup of an ambiguous submission: 250 ms per attempt.
pub fn reconcile_delay_ms(attempt: u64) -> (r: u64)
    requires
        1 <= attempt <= RECONCILE_ATTEMPTS,
    ensures
        r == 250 * attempt,
{
    250 * attempt
}

/// How the venue answered a submission.
#[derive(Clone, Copy, Debug, PartialEq, Eq, Structural)]
pub enum SubmitOutcome {
    /// Accepted; `has_legs` where the reply already lists the legs of an advanced order.
    Accepted { has_legs: bool },
    /// The request may or may not have reached the venue (timeout, transport error, 5xx).
    Ambiguous,
    /// Refused.
    Failed,
}

/// The outcome of a submission's HTTP reply: accepted with or without its legs, ambiguous when
/// the failure may still have reached the venue, else refused.
pub open spec fn spec_submission_outcome(reply: Result<bool, AlpacaHttpError>) -> SubmitOutcome {
    match reply {
        Ok(has_legs) => SubmitOutcome::Accepted { has_legs },
        Err(e) => if spec_ambiguous_write(error_view(e)) {
            SubmitOutcome::Ambiguous
        } else {
            SubmitOutcome::Failed
        },
    }
}

/// Classifies the reply to a submission (`Ok` carries whether the reply lists the legs).
pub fn submission_outcome(reply: &Result<bool, AlpacaHttpError>) -> (r: SubmitOutcome)
    ensures
        r == spec_submission_outcome(*reply),
{
    match reply {
        Ok(has_legs) => SubmitOutcome::Accepted { has_legs: *has_legs },
        Err(e) => if e.is_ambiguous_write() {
            SubmitOutcome::Ambiguous
        } else {
            SubmitOutcome::Failed
        },
    }
}

/// The positions of a list's orders that are denied before submission: every order of the list
/// where its translation into one venue order failed, none where it succeeded.
pub fn denied_list_orders<T, E>(translation: &Result<T, E>, order_count: usize) -> (r: Vec<usize>)
    ensures
        translation is Err ==> r@ == Seq::new(order_count as nat, |i: int| i as usize),
        translation is Ok ==> r@.len() == 0,
{
    let mut denied: Vec<usize> = Vec::new();
    if translation.is_err() {
        let mut i: usize = 0;
        while i < order_count
            invariant
                i <= order_count,
                denied@ == Seq::new(i as nat, |k: int| k as usize),
            decreases order_count - i,
        {
            denied.push(i);
            assert(denied@ =~= Seq::new((i + 1) as nat, |k: int| k as usize));
            i = i + 1;
        }
    }
    denied
}

/// What follows a submission.
#[derive(Clone, Copy, Debug, PartialEq, Eq, Structural)]
pub enum SubmitFollowUp {
    /// Nothing: the trade-update stream reports the order from here on.
    AwaitUpdates,
    /// Read the advanced order again with its legs, then bind the children to the legs.
    FetchLegs,
    /// Bind the children to the legs of the reply.
    BindLegs,
    /// Look the order up by client order id.
    Reconcile,
    /// Report the order (and the children of a list) as rejected.
    Reject,
}

/// The step after a submission of a single order (`is_list` false) or of an order list.
pub open spec fn spec_submission_follow_up(outcome: SubmitOutcome, is_list: bool) -> SubmitFollowUp {
    match outcome {
        SubmitOutcome::Accepted { has_legs } => if !is_list {
            SubmitFollowUp::AwaitUpdates
        } else if has_legs {
            SubmitFollowUp::BindLegs
        } else {
            SubmitFollowUp::FetchLegs
        },
        SubmitOutcome::Ambiguous => SubmitFollowUp::Reconcile,
        SubmitOutcome::Failed => SubmitFollowUp::Reject,
    }
}

pub fn submission_follow_up(outcome: SubmitOutcome, is_list: bool) -> (r: SubmitFollowUp)
    ensures
        r == spec_submission_follow_up(outcome, is_list),
{
    match outcome {
        SubmitOutcome::Accepted { has_legs } => {
            if !is_list {
                SubmitFollowUp::AwaitUpdates
            } else if has_legs {
                SubmitFollowUp::BindLegs
            } else {
                SubmitFollowUp::FetchLegs
            }
        },
        SubmitOutcome::Ambiguous => SubmitFollowUp::Reconcile,
        SubmitOutcome::Failed => SubmitFollowUp::Reject,
    }
}

/// What the reconciliation of an ambiguous single-order submission does after a lookup.
#[derive(Clone, Copy, Debug, PartialEq, Eq, Structural)]
pub enum ReconcileAction {
    /// The order was found: report its status.
    Report,
    /// Wait this many milliseconds, then look it up again.
    RetryAfter(u64),
    /// Every lookup failed: the order stays submitted for the stream or a later reconciliation.
    GiveUp,
}

/// The first lookup of a reconciliation waits for `reconcile_delay_ms(1)`.
pub fn first_reconcile_delay_ms() -> (r: u64)
    ensures
        r == 250,
{
    reconcile_delay_ms(1)
}

/// After the `attempt`-th lookup: report what was found, else wait longer and retry, until
/// the attempts are spent.
pub fn reconcile_step(attempt: u64, found: bool) -> (r: ReconcileAction)
    requires
        1 <= attempt <= RECONCILE_ATTEMPTS,
    ensures
        found ==> r == ReconcileAction::Report,
        !found && attempt < RECONCILE_ATTEMPTS ==> r == ReconcileAction::RetryAfter(
            (250 * (attempt + 1)) as u64,
        ),
        !found && attempt == RECONCILE_ATTEMPTS ==> r == ReconcileAction::GiveUp,
{
    if found {
        ReconcileAction::Report
    } else if attempt < RECONCILE_ATTEMPTS {
        ReconcileAction::RetryAfter(reconcile_delay_ms(attempt + 1))
    } else {
        ReconcileAction::GiveUp
    }
}

/// The venue leg types that a native child order can stand for: a LIMIT child is the
/// take-profit leg and a stop child the stop-loss leg.
pub open spec fn leg_matches(leg: AlpacaOrderType, child: OrderType) -> bool {
    match leg {
        AlpacaOrderType::Limit => child == OrderType::Limit,
        AlpacaOrderType::Stop | AlpacaOrderType::StopLimit => child == OrderType::StopMarket
            || child == OrderType::StopLimit,
        _ => false,
    }
}

/// `r` is the first child that `leg` stands for, or `None` when there is none.
pub open spec fn is_leg_child(leg: AlpacaOrderType, children: Seq<OrderType>, r: Option<usize>) -> bool {
    match r {
        Some(i) => i < children.len() && leg_matches(leg, children[i as int]) && forall|j: int|
            0 <= j < i ==> !leg_matches(leg, #[trigger] children[j]),
        None => forall|j: int| 0 <= j < children.len() ==> !leg_matches(leg, #[trigger] children[j]),
    }
}

fn leg_child(leg: AlpacaOrderType, children: &Vec<OrderType>) -> (r: Option<usize>)
    ensures
        is_leg_child(leg, children@, r),
{
    let mut i: usize = 0;
    while i < children.len()
        invariant
            i <= children@.len(),
            forall|j: int| 0 <= j < i ==> !leg_matches(leg, #[trigger] children@[j]),
        decreases children@.len() - i,
    {
        let child = children[i];
        let hit = match leg {
            AlpacaOrderType::Limit => child == OrderType::Limit,
            AlpacaOrderType::Stop | AlpacaOrderType::StopLimit => child == OrderType::StopMarket
                || child == OrderType::StopLimit,
            _ => false,
        };
        if hit {
            return Some(i);
        }
        i = i + 1;
    }
    None
}

/// For each leg of a venue advanced order, the index of the first native child it stands for,
/// so that the child's context can be found under the leg's client order id.
pub fn bind_leg_children(legs: &Vec<AlpacaOrderType>, children: &Vec<OrderType>) -> (r: Vec<
    Option<usize>,
>)
    ensures
        r@.len() == legs@.len(),
        forall|k: int| 0 <= k < legs@.len() ==> is_leg_child(legs@[k], children@, #[trigger] r@[k]),
{
    let mut out: Vec<Option<usize>> = Vec::new();
    let mut k: usize = 0;
    while k < legs.len()
        invariant
            k <= legs@.len(),
            out@.len() == k,
            forall|m: int| 0 <= m < k ==> is_leg_child(legs@[m], children@, #[trigger] out@[m]),
        decreases legs@.len() - k,
    {
        let found = leg_child(legs[k], children);
        out.push(found);
        k = k + 1;
    }
    out
}

} // verus!
