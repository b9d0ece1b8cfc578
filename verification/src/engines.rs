//! Cross-validation of the two block generator engines.
//!
//! The first engine evaluates every spend of a block and then parses the
//! conditions of the complete result; the second parses the conditions of each
//! spend as soon as that spend has been evaluated. The second is an
//! optimisation of the cost bookkeeping of the first, not a second set of
//! rules: the two may differ in what they charge, never in their effect on the
//! ledger. This module says which pairs of outcomes meet that requirement.

use crate::spend_bundle::{
    aggregate, lemma_aggregate_totals, Spend, SpendBundleConditions, Totals,
};
use crate::validation_error::ErrorCode;
use vstd::prelude::*;

verus! {

/// The ways in which the outcomes of the two engines may go together.
#[derive(Debug, Clone, Copy, PartialEq, Eq, Structural)]
pub enum Agreement {
    /// Both engines accepted the block, with the same effect on the ledger.
    BothAccepted,
    /// Both engines rejected the block. The kinds of failure need not match:
    /// the second engine can meet the error of one spend before the first
    /// engine has finished evaluating them all.
    BothRejected,
    /// The first engine ran out of cost where the second, which charges less,
    /// accepted the block.
    FirstOverBudget,
}

/// Whether the totals `first` and `second`, reported by the first and the
/// second engine for one block, go together: the first engine charges at least
/// as much as the second, in total and for execution, and the condition cost,
/// the reserved fee and both amounts are the same.
pub open spec fn totals_consistent(first: Totals, second: Totals) -> bool {
    &&& first.cost >= second.cost
    &&& first.execution_cost >= second.execution_cost
    &&& first.condition_cost == second.condition_cost
    &&& first.reserve_fee == second.reserve_fee
    &&& first.removal_amount == second.removal_amount
    &&& first.addition_amount == second.addition_amount
}

/// How the outcomes of the two engines go together, or `None` where they
/// diverge.
pub open spec fn agreement(
    first: Result<Totals, ErrorCode>,
    second: Result<Totals, ErrorCode>,
) -> Option<Agreement> {
    match (first, second) {
        (Ok(a), Ok(b)) => if totals_consistent(a, b) {
            Some(Agreement::BothAccepted)
        } else {
            None
        },
        (Err(_), Err(_)) => Some(Agreement::BothRejected),
        (Err(e), Ok(_)) => if e == ErrorCode::CostExceeded {
            Some(Agreement::FirstOverBudget)
        } else {
            None
        },
        (Ok(_), Err(_)) => None,
    }
}

/// The outcome of an engine with its totals as mathematical integers.
pub open spec fn outcome_view(outcome: Result<SpendBundleConditions, ErrorCode>) -> Result<
    Totals,
    ErrorCode,
> {
    match outcome {
        Ok(t) => Ok(t@),
        Err(e) => Err(e),
    }
}

/// Compares the totals that the two engines report for one block.
pub fn compare_totals(first: &SpendBundleConditions, second: &SpendBundleConditions) -> (r: bool)
    ensures
        r == totals_consistent(first@, second@),
{
    first.cost() >= second.cost() && first.execution_cost() >= second.execution_cost()
        && first.condition_cost() == second.condition_cost() && first.reserve_fee()
        == second.reserve_fee() && first.removal_amount() == second.removal_amount()
        && first.addition_amount() == second.addition_amount()
}

/// Compares the outcomes of the two engines on one block. `None` is a defect
/// in one of them.
pub fn compare_engines(
    first: &Result<SpendBundleConditions, ErrorCode>,
    second: &Result<SpendBundleConditions, ErrorCode>,
) -> (r: Option<Agreement>)
    ensures
        r == agreement(outcome_view(*first), outcome_view(*second)),
{
    match (first, second) {
        (Ok(a), Ok(b)) => if compare_totals(a, b) {
            Some(Agreement::BothAccepted)
        } else {
            None
        },
        (Err(_), Err(_)) => Some(Agreement::BothRejected),
        (Err(e), Ok(_)) => match e {
            ErrorCode::CostExceeded => Some(Agreement::FirstOverBudget),
            _ => None,
        },
        (Ok(_), Err(_)) => None,
    }
}

/// Totals whose cost is the sum of its two parts go together as soon as the
/// first engine charges at least as much for execution and the rest is the
/// same: the total cost then follows.
pub proof fn lemma_consistent_totals(first: Totals, second: Totals)
    requires
        first.wf(),
        second.wf(),
    ensures
        totals_consistent(first, second) <==> {
            &&& first.execution_cost >= second.execution_cost
            &&& first.condition_cost == second.condition_cost
            &&& first.reserve_fee == second.reserve_fee
            &&& first.removal_amount == second.removal_amount
            &&& first.addition_amount == second.addition_amount
        },
{
}

/// An engine agrees with itself, whatever its outcome.
pub proof fn lemma_agreement_reflexive(outcome: Result<Totals, ErrorCode>)
    ensures
        agreement(outcome, outcome) is Some,
{
}

/// Where the engines agree, they never differ in their effect on the ledger:
/// if the second engine accepts, the first either accepts with the same fee and
/// amounts or has run out of cost, and nothing else.
pub proof fn lemma_agreement_keeps_ledger(
    first: Result<Totals, ErrorCode>,
    second: Result<Totals, ErrorCode>,
)
    requires
        agreement(first, second) is Some,
    ensures
        first is Ok ==> second is Ok,
        first matches Ok(a) ==> second matches Ok(b) ==> a.reserve_fee == b.reserve_fee
            && a.removal_amount == b.removal_amount && a.addition_amount == b.addition_amount
            && a.condition_cost == b.condition_cost && a.cost >= b.cost,
        second is Ok && first is Err ==> first == Err::<Totals, ErrorCode>(
            ErrorCode::CostExceeded,
        ),
{
}

/// Two engines that hand the same spends to the aggregator under the same
/// budget agree, provided that the first has charged at least as much for
/// execution as the second: whatever the spends are, the two outcomes go
/// together in one of the three accepted ways.
pub proof fn lemma_aggregation_agrees(
    ss: Seq<Spend>,
    max_cost: nat,
    first_execution_cost: nat,
    second_execution_cost: nat,
    flat: nat,
)
    requires
        first_execution_cost >= second_execution_cost,
    ensures
        agreement(
            aggregate(ss, max_cost, first_execution_cost, flat),
            aggregate(ss, max_cost, second_execution_cost, flat),
        ) is Some,
{
    lemma_aggregate_totals(ss, max_cost, first_execution_cost, flat);
    lemma_aggregate_totals(ss, max_cost, second_execution_cost, flat);
}

} // verus!
