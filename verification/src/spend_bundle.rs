//! The spend aggregator: folding the conditions of every spend of a block into
//! the totals of the block, under a cost budget.
//!
//! The totals are kept as they grow, so that the budget is enforced on the true
//! running cost: the fold stops at the first condition that takes the cost over
//! the budget, or whose fee or amount no longer fits its numeric width.

use crate::flags::{ConsensusFlags, COST_CONDITIONS};
use crate::validation_error::ErrorCode;
use vstd::prelude::*;

verus! {

/// What one decoded condition contributes to the totals of its block.
#[derive(Debug, Clone, Copy, PartialEq, Eq, Structural)]
pub struct Condition {
    /// The cost attributed to the condition.
    pub cost: u64,
    /// The fee that the condition reserves; zero unless it reserves one.
    pub reserve_fee: u64,
    /// The amount of the coin that the condition creates; zero unless it
    /// creates one.
    pub created_amount: u64,
}

/// One coin spend: the coin that it removes and the conditions that it asserts.
#[derive(Debug, Clone)]
pub struct Spend {
    /// The amount of the coin that is spent.
    pub coin_amount: u64,
    /// The decoded conditions of the spend, in the order of its condition list.
    pub conditions: Vec<Condition>,
}

/// The totals of a block as mathematical integers.
pub struct Totals {
    /// Everything charged so far.
    pub cost: nat,
    /// The part of the cost that the evaluator charged.
    pub execution_cost: nat,
    /// The part of the cost that the conditions brought.
    pub condition_cost: nat,
    /// The sum of the reserved fees.
    pub reserve_fee: nat,
    /// The sum of the amounts of the coins spent.
    pub removal_amount: nat,
    /// The sum of the amounts of the coins created.
    pub addition_amount: nat,
}

impl Totals {
    /// The totals before the first spend, when the evaluator has charged
    /// `cost_already_spent`.
    pub open spec fn start(cost_already_spent: nat) -> Totals {
        Totals {
            cost: cost_already_spent,
            execution_cost: cost_already_spent,
            condition_cost: 0,
            reserve_fee: 0,
            removal_amount: 0,
            addition_amount: 0,
        }
    }

    /// The cost is made up of the evaluator's part and the conditions' part.
    pub open spec fn wf(self) -> bool {
        self.cost == self.execution_cost + self.condition_cost
    }

    /// Every total fits the numeric width that the protocol gives it.
    pub open spec fn fits(self) -> bool {
        &&& self.cost <= u64::MAX
        &&& self.reserve_fee <= u64::MAX
        &&& self.removal_amount <= u128::MAX
        &&& self.addition_amount <= u128::MAX
    }
}

/// The flat cost that is added to each condition: `flat_condition_cost` when
/// the flags ask for it, nothing otherwise.
pub open spec fn flat_cost(flag_bits: u32, flat_condition_cost: u64) -> nat {
    if flag_bits & COST_CONDITIONS == COST_CONDITIONS {
        flat_condition_cost as nat
    } else {
        0
    }
}

/// The totals after one more condition, or the reason why the condition ends
/// the call. The cost is charged first, then the fee, then the created amount.
pub open spec fn step_condition(t: Totals, c: Condition, max_cost: nat, flat: nat) -> Result<
    Totals,
    ErrorCode,
> {
    if t.cost + c.cost + flat > max_cost {
        Err(ErrorCode::CostExceeded)
    } else if t.reserve_fee + c.reserve_fee > u64::MAX {
        Err(ErrorCode::ArithmeticOverflow)
    } else if t.addition_amount + c.created_amount > u128::MAX {
        Err(ErrorCode::ArithmeticOverflow)
    } else {
        Ok(
            Totals {
                cost: t.cost + c.cost as nat + flat,
                execution_cost: t.execution_cost,
                condition_cost: t.condition_cost + c.cost as nat + flat,
                reserve_fee: t.reserve_fee + c.reserve_fee as nat,
                removal_amount: t.removal_amount,
                addition_amount: t.addition_amount + c.created_amount as nat,
            },
        )
    }
}

/// The totals after the conditions `cs`, taken in order, or the first failure.
pub open spec fn fold_conditions(t: Totals, cs: Seq<Condition>, max_cost: nat, flat: nat) -> Result<
    Totals,
    ErrorCode,
>
    decreases cs.len(),
{
    if cs.len() == 0 {
        Ok(t)
    } else {
        match fold_conditions(t, cs.drop_last(), max_cost, flat) {
            Ok(u) => step_condition(u, cs.last(), max_cost, flat),
            Err(e) => Err(e),
        }
    }
}

/// The totals after one more spend: its coin is removed, then its conditions
/// are folded in.
pub open spec fn step_spend(t: Totals, s: Spend, max_cost: nat, flat: nat) -> Result<
    Totals,
    ErrorCode,
> {
    if t.removal_amount + s.coin_amount > u128::MAX {
        Err(ErrorCode::ArithmeticOverflow)
    } else {
        fold_conditions(
            Totals { removal_amount: t.removal_amount + s.coin_amount as nat, ..t },
            s.conditions@,
            max_cost,
            flat,
        )
    }
}

/// The totals after the spends `ss`, taken in order, or the first failure.
pub open spec fn fold_spends(t: Totals, ss: Seq<Spend>, max_cost: nat, flat: nat) -> Result<
    Totals,
    ErrorCode,
>
    decreases ss.len(),
{
    if ss.len() == 0 {
        Ok(t)
    } else {
        match fold_spends(t, ss.drop_last(), max_cost, flat) {
            Ok(u) => step_spend(u, ss.last(), max_cost, flat),
            Err(e) => Err(e),
        }
    }
}

/// The outcome of aggregating the spends `ss` of a block for which the
/// evaluator has charged `cost_already_spent`, under the budget `max_cost`.
pub open spec fn aggregate(ss: Seq<Spend>, max_cost: nat, cost_already_spent: nat, flat: nat)
    -> Result<Totals, ErrorCode> {
    if cost_already_spent > max_cost {
        Err(ErrorCode::CostExceeded)
    } else {
        fold_spends(Totals::start(cost_already_spent), ss, max_cost, flat)
    }
}

/// The validated totals of a block. The cost is always the sum of the execution
/// cost and the condition cost.
#[derive(Debug, Clone, Copy, PartialEq, Eq, Structural)]
pub struct SpendBundleConditions {
    cost: u64,
    execution_cost: u64,
    condition_cost: u64,
    reserve_fee: u64,
    removal_amount: u128,
    addition_amount: u128,
}

impl View for SpendBundleConditions {
    type V = Totals;

    closed spec fn view(&self) -> Totals {
        Totals {
            cost: self.cost as nat,
            execution_cost: self.execution_cost as nat,
            condition_cost: self.condition_cost as nat,
            reserve_fee: self.reserve_fee as nat,
            removal_amount: self.removal_amount as nat,
            addition_amount: self.addition_amount as nat,
        }
    }
}

impl SpendBundleConditions {
    #[verifier::type_invariant]
    spec fn valid(self) -> bool {
        self.cost == self.execution_cost + self.condition_cost
    }

    /// The totals before the first spend, when the evaluator has charged
    /// `cost_already_spent`.
    pub fn new(cost_already_spent: u64) -> (r: SpendBundleConditions)
        ensures
            r@ == Totals::start(cost_already_spent as nat),
    {
        SpendBundleConditions {
            cost: cost_already_spent,
            execution_cost: cost_already_spent,
            condition_cost: 0,
            reserve_fee: 0,
            removal_amount: 0,
            addition_amount: 0,
        }
    }

    /// The totals with the given parts, if their cost fits 64 bits.
    pub fn from_parts(
        execution_cost: u64,
        condition_cost: u64,
        reserve_fee: u64,
        removal_amount: u128,
        addition_amount: u128,
    ) -> (r: Option<SpendBundleConditions>)
        ensures
            r is Some <==> execution_cost + condition_cost <= u64::MAX,
            r matches Some(t) ==> t@ == (Totals {
                cost: (execution_cost + condition_cost) as nat,
                execution_cost: execution_cost as nat,
                condition_cost: condition_cost as nat,
                reserve_fee: reserve_fee as nat,
                removal_amount: removal_amount as nat,
                addition_amount: addition_amount as nat,
            }),
    {
        match execution_cost.checked_add(condition_cost) {
            Some(cost) => Some(
                SpendBundleConditions {
                    cost,
                    execution_cost,
                    condition_cost,
                    reserve_fee,
                    removal_amount,
                    addition_amount,
                },
            ),
            None => None,
        }
    }

    /// Everything charged: the execution cost and the condition cost together.
    pub fn cost(&self) -> (r: u64)
        ensures
            r == self@.cost,
            r == self@.execution_cost + self@.condition_cost,
            self@.wf(),
            self@.fits(),
    {
        proof {
            use_type_invariant(self);
        }
        self.cost
    }

    /// The part of the cost that the evaluator charged.
    pub fn execution_cost(&self) -> (r: u64)
        ensures
            r == self@.execution_cost,
    {
        self.execution_cost
    }

    /// The part of the cost that the conditions brought.
    pub fn condition_cost(&self) -> (r: u64)
        ensures
            r == self@.condition_cost,
    {
        self.condition_cost
    }

    /// The sum of the reserved fees.
    pub fn reserve_fee(&self) -> (r: u64)
        ensures
            r == self@.reserve_fee,
    {
        self.reserve_fee
    }

    /// The sum of the amounts of the coins spent.
    pub fn removal_amount(&self) -> (r: u128)
        ensures
            r == self@.removal_amount,
    {
        self.removal_amount
    }

    /// The sum of the amounts of the coins created.
    pub fn addition_amount(&self) -> (r: u128)
        ensures
            r == self@.addition_amount,
    {
        self.addition_amount
    }

    /// Folds one condition into the totals: charges its cost and the flat cost
    /// `flat` against the budget `max_cost`, then adds its fee and its created
    /// amount. On failure the totals are left as they were.
    pub fn add_condition(&mut self, condition: &Condition, max_cost: u64, flat: u64) -> (r: Result<
        (),
        ErrorCode,
    >)
        ensures
            match step_condition(old(self)@, *condition, max_cost as nat, flat as nat) {
                Ok(t) => r is Ok && final(self)@ == t,
                Err(e) => r == Err::<(), ErrorCode>(e) && *final(self) == *old(self),
            },
    {
        proof {
            use_type_invariant(&*self);
        }
        let charge: u128 = condition.cost as u128 + flat as u128;
        if self.cost as u128 + charge > max_cost as u128 {
            return Err(ErrorCode::CostExceeded);
        }
        let reserve_fee = match self.reserve_fee.checked_add(condition.reserve_fee) {
            Some(v) => v,
            None => {
                return Err(ErrorCode::ArithmeticOverflow);
            },
        };
        let addition_amount = match self.addition_amount.checked_add(
            condition.created_amount as u128,
        ) {
            Some(v) => v,
            None => {
                return Err(ErrorCode::ArithmeticOverflow);
            },
        };
        let charge: u64 = condition.cost + flat;
        *self = SpendBundleConditions {
            cost: self.cost + charge,
            execution_cost: self.execution_cost,
            condition_cost: self.condition_cost + charge,
            reserve_fee,
            removal_amount: self.removal_amount,
            addition_amount,
        };
        Ok(())
    }

    /// Folds one spend into the totals: its coin, then its conditions in order,
    /// each charged with the flat cost `flat` on top of its own, under the
    /// budget `max_cost`. On failure the totals are left as they were.
    #[verifier::loop_isolation(false)]
    pub fn add_spend(&mut self, spend: &Spend, max_cost: u64, flat: u64) -> (r: Result<
        (),
        ErrorCode,
    >)
        ensures
            match step_spend(old(self)@, *spend, max_cost as nat, flat as nat) {
                Ok(t) => r is Ok && final(self)@ == t,
                Err(e) => r == Err::<(), ErrorCode>(e) && *final(self) == *old(self),
            },
    {
        proof {
            use_type_invariant(&*self);
        }
        let removal_amount = match self.removal_amount.checked_add(spend.coin_amount as u128) {
            Some(v) => v,
            None => {
                return Err(ErrorCode::ArithmeticOverflow);
            },
        };
        let mut next = SpendBundleConditions {
            cost: self.cost,
            execution_cost: self.execution_cost,
            condition_cost: self.condition_cost,
            reserve_fee: self.reserve_fee,
            removal_amount,
            addition_amount: self.addition_amount,
        };
        let ghost first = next@;
        let ghost cs = spend.conditions@;
        let mut i: usize = 0;
        assert(cs.take(0) =~= Seq::<Condition>::empty());
        while i < spend.conditions.len()
            invariant
                i <= cs.len(),
                cs == spend.conditions@,
                fold_conditions(first, cs.take(i as int), max_cost as nat, flat as nat) == Ok::<
                    Totals,
                    ErrorCode,
                >(next@),
            decreases cs.len() - i,
        {
            assert(cs.take(i + 1).drop_last() =~= cs.take(i as int));
            match next.add_condition(&spend.conditions[i], max_cost, flat) {
                Ok(_) => {},
                Err(e) => {
                    proof {
                        assert(cs.take(i + 1).last() == cs[i as int]);
                        assert(fold_conditions(first, cs.take(i + 1), max_cost as nat, flat as nat)
                            == Err::<Totals, ErrorCode>(e));
                        lemma_fold_conditions_failure_is_final(
                            first,
                            cs,
                            i + 1,
                            max_cost as nat,
                            flat as nat,
                        );
                    }
                    return Err(e);
                },
            }
            i = i + 1;
        }
        assert(cs.take(i as int) =~= cs);
        *self = next;
        Ok(())
    }
}

/// Once a prefix of the conditions has failed, the whole list fails in the same
/// way: nothing after the first failure is looked at.
pub proof fn lemma_fold_conditions_failure_is_final(
    t: Totals,
    cs: Seq<Condition>,
    k: int,
    max_cost: nat,
    flat: nat,
)
    requires
        0 <= k <= cs.len(),
        fold_conditions(t, cs.take(k), max_cost, flat) is Err,
    ensures
        fold_conditions(t, cs, max_cost, flat) == fold_conditions(t, cs.take(k), max_cost, flat),
    decreases cs.len() - k,
{
    if k < cs.len() {
        assert(cs.take(k + 1).drop_last() =~= cs.take(k));
        lemma_fold_conditions_failure_is_final(t, cs, k + 1, max_cost, flat);
    } else {
        assert(cs.take(k) =~= cs);
    }
}

/// Once a prefix of the spends has failed, the whole list fails in the same way.
pub proof fn lemma_fold_spends_failure_is_final(
    t: Totals,
    ss: Seq<Spend>,
    k: int,
    max_cost: nat,
    flat: nat,
)
    requires
        0 <= k <= ss.len(),
        fold_spends(t, ss.take(k), max_cost, flat) is Err,
    ensures
        fold_spends(t, ss, max_cost, flat) == fold_spends(t, ss.take(k), max_cost, flat),
    decreases ss.len() - k,
{
    if k < ss.len() {
        assert(ss.take(k + 1).drop_last() =~= ss.take(k));
        lemma_fold_spends_failure_is_final(t, ss, k + 1, max_cost, flat);
    } else {
        assert(ss.take(k) =~= ss);
    }
}

/// Aggregates the spends of a block: starts from the cost that the evaluator
/// has charged and folds in every spend in order, stopping at the first
/// failure. The flat cost per condition is charged when the flags hold
/// `COST_CONDITIONS`.
#[verifier::loop_isolation(false)]
pub fn aggregate_spends(
    spends: &Vec<Spend>,
    max_cost: u64,
    cost_already_spent: u64,
    flags: ConsensusFlags,
    flat_condition_cost: u64,
) -> (r: Result<SpendBundleConditions, ErrorCode>)
    ensures
        match aggregate(
            spends@,
            max_cost as nat,
            cost_already_spent as nat,
            flat_cost(flags@, flat_condition_cost),
        ) {
            Ok(t) => r matches Ok(v) && v@ == t,
            Err(e) => r == Err::<SpendBundleConditions, ErrorCode>(e),
        },
        r is Ok <==> {
            &&& cost_already_spent + spends_cost(spends@, flat_cost(flags@, flat_condition_cost))
                <= max_cost
            &&& spends_fee(spends@) <= u64::MAX
            &&& spends_removed(spends@) <= u128::MAX
            &&& spends_created(spends@) <= u128::MAX
        },
        r matches Ok(v) ==> {
            &&& v@.cost == v@.execution_cost + v@.condition_cost
            &&& v@.cost <= max_cost
            &&& v@.execution_cost == cost_already_spent
            &&& v@.condition_cost == spends_cost(
                spends@,
                flat_cost(flags@, flat_condition_cost),
            )
            &&& v@.reserve_fee == spends_fee(spends@)
            &&& v@.removal_amount == spends_removed(spends@)
            &&& v@.addition_amount == spends_created(spends@)
        },
        r matches Err(e) ==> e == ErrorCode::CostExceeded || e == ErrorCode::ArithmeticOverflow,
{
    proof {
        lemma_aggregate_totals(
            spends@,
            max_cost as nat,
            cost_already_spent as nat,
            flat_cost(flags@, flat_condition_cost),
        );
    }
    if cost_already_spent > max_cost {
        return Err(ErrorCode::CostExceeded);
    }
    let flat: u64 = if flags.contains(ConsensusFlags::cost_conditions()) {
        flat_condition_cost
    } else {
        0
    };
    let mut totals = SpendBundleConditions::new(cost_already_spent);
    let ghost first = totals@;
    let ghost ss = spends@;
    let mut i: usize = 0;
    assert(ss.take(0) =~= Seq::<Spend>::empty());
    while i < spends.len()
        invariant
            i <= ss.len(),
            ss == spends@,
            fold_spends(first, ss.take(i as int), max_cost as nat, flat as nat) == Ok::<
                Totals,
                ErrorCode,
            >(totals@),
        decreases ss.len() - i,
    {
        assert(ss.take(i + 1).drop_last() =~= ss.take(i as int));
        match totals.add_spend(&spends[i], max_cost, flat) {
            Ok(_) => {},
            Err(e) => {
                proof {
                    assert(ss.take(i + 1).last() == ss[i as int]);
                    assert(fold_spends(first, ss.take(i + 1), max_cost as nat, flat as nat)
                        == Err::<Totals, ErrorCode>(e));
                    lemma_fold_spends_failure_is_final(
                        first,
                        ss,
                        i + 1,
                        max_cost as nat,
                        flat as nat,
                    );
                }
                return Err(e);
            },
        }
        i = i + 1;
    }
    assert(ss.take(i as int) =~= ss);
    Ok(totals)
}

/// The cost that the conditions `cs` bring: their own costs and the flat cost
/// of each.
pub open spec fn conditions_cost(cs: Seq<Condition>, flat: nat) -> nat
    decreases cs.len(),
{
    if cs.len() == 0 {
        0
    } else {
        conditions_cost(cs.drop_last(), flat) + cs.last().cost as nat + flat
    }
}

/// The fees that the conditions `cs` reserve.
pub open spec fn conditions_fee(cs: Seq<Condition>) -> nat
    decreases cs.len(),
{
    if cs.len() == 0 {
        0
    } else {
        conditions_fee(cs.drop_last()) + cs.last().reserve_fee as nat
    }
}

/// The amounts of the coins that the conditions `cs` create.
pub open spec fn conditions_created(cs: Seq<Condition>) -> nat
    decreases cs.len(),
{
    if cs.len() == 0 {
        0
    } else {
        conditions_created(cs.drop_last()) + cs.last().created_amount as nat
    }
}

/// The cost that the conditions of the spends `ss` bring.
pub open spec fn spends_cost(ss: Seq<Spend>, flat: nat) -> nat
    decreases ss.len(),
{
    if ss.len() == 0 {
        0
    } else {
        spends_cost(ss.drop_last(), flat) + conditions_cost(ss.last().conditions@, flat)
    }
}

/// The fees that the conditions of the spends `ss` reserve.
pub open spec fn spends_fee(ss: Seq<Spend>) -> nat
    decreases ss.len(),
{
    if ss.len() == 0 {
        0
    } else {
        spends_fee(ss.drop_last()) + conditions_fee(ss.last().conditions@)
    }
}

/// The amounts of the coins that the conditions of the spends `ss` create.
pub open spec fn spends_created(ss: Seq<Spend>) -> nat
    decreases ss.len(),
{
    if ss.len() == 0 {
        0
    } else {
        spends_created(ss.drop_last()) + conditions_created(ss.last().conditions@)
    }
}

/// The amounts of the coins that the spends `ss` remove.
pub open spec fn spends_removed(ss: Seq<Spend>) -> nat
    decreases ss.len(),
{
    if ss.len() == 0 {
        0
    } else {
        spends_removed(ss.drop_last()) + ss.last().coin_amount as nat
    }
}

/// Folding conditions into totals that fit is plain addition. It succeeds exactly when the cost
/// stays within the budget and the fee and the created amount keep their
/// widths, and then each total has grown by the sum of what the conditions
/// bring. A failure names the total that did not fit.
pub proof fn lemma_fold_conditions_adds(t: Totals, cs: Seq<Condition>, max_cost: nat, flat: nat)
    requires
        t.cost <= max_cost,
        t.reserve_fee <= u64::MAX,
        t.addition_amount <= u128::MAX,
    ensures
        fold_conditions(t, cs, max_cost, flat) is Ok <==> {
            &&& t.cost + conditions_cost(cs, flat) <= max_cost
            &&& t.reserve_fee + conditions_fee(cs) <= u64::MAX
            &&& t.addition_amount + conditions_created(cs) <= u128::MAX
        },
        fold_conditions(t, cs, max_cost, flat) matches Ok(u) ==> u == (Totals {
            cost: t.cost + conditions_cost(cs, flat),
            execution_cost: t.execution_cost,
            condition_cost: t.condition_cost + conditions_cost(cs, flat),
            reserve_fee: t.reserve_fee + conditions_fee(cs),
            removal_amount: t.removal_amount,
            addition_amount: t.addition_amount + conditions_created(cs),
        }),
        fold_conditions(t, cs, max_cost, flat) matches Err(e) ==> {
            &&& e == ErrorCode::CostExceeded || e == ErrorCode::ArithmeticOverflow
            &&& e == ErrorCode::CostExceeded ==> t.cost + conditions_cost(cs, flat) > max_cost
            &&& e == ErrorCode::ArithmeticOverflow ==> t.reserve_fee + conditions_fee(cs)
                > u64::MAX || t.addition_amount + conditions_created(cs) > u128::MAX
        },
    decreases cs.len(),
{
    if cs.len() > 0 {
        lemma_fold_conditions_adds(t, cs.drop_last(), max_cost, flat);
    }
}

/// Folding spends into totals that fit is plain addition. It succeeds exactly when the cost stays
/// within the budget and the fee and both amounts keep their widths, and then
/// each total has grown by the sum of what the spends bring. A failure names
/// the total that did not fit.
pub proof fn lemma_fold_spends_adds(t: Totals, ss: Seq<Spend>, max_cost: nat, flat: nat)
    requires
        t.cost <= max_cost,
        t.reserve_fee <= u64::MAX,
        t.removal_amount <= u128::MAX,
        t.addition_amount <= u128::MAX,
    ensures
        fold_spends(t, ss, max_cost, flat) is Ok <==> {
            &&& t.cost + spends_cost(ss, flat) <= max_cost
            &&& t.reserve_fee + spends_fee(ss) <= u64::MAX
            &&& t.removal_amount + spends_removed(ss) <= u128::MAX
            &&& t.addition_amount + spends_created(ss) <= u128::MAX
        },
        fold_spends(t, ss, max_cost, flat) matches Ok(u) ==> u == (Totals {
            cost: t.cost + spends_cost(ss, flat),
            execution_cost: t.execution_cost,
            condition_cost: t.condition_cost + spends_cost(ss, flat),
            reserve_fee: t.reserve_fee + spends_fee(ss),
            removal_amount: t.removal_amount + spends_removed(ss),
            addition_amount: t.addition_amount + spends_created(ss),
        }),
        fold_spends(t, ss, max_cost, flat) matches Err(e) ==> {
            &&& e == ErrorCode::CostExceeded || e == ErrorCode::ArithmeticOverflow
            &&& e == ErrorCode::CostExceeded ==> t.cost + spends_cost(ss, flat) > max_cost
            &&& e == ErrorCode::ArithmeticOverflow ==> t.reserve_fee + spends_fee(ss) > u64::MAX
                || t.removal_amount + spends_removed(ss) > u128::MAX || t.addition_amount
                + spends_created(ss) > u128::MAX
        },
    decreases ss.len(),
{
    if ss.len() > 0 {
        lemma_fold_spends_adds(t, ss.drop_last(), max_cost, flat);
        match fold_spends(t, ss.drop_last(), max_cost, flat) {
            Ok(u) => {
                if u.removal_amount + ss.last().coin_amount <= u128::MAX {
                    lemma_fold_conditions_adds(
                        Totals {
                            removal_amount: u.removal_amount + ss.last().coin_amount as nat,
                            ..u
                        },
                        ss.last().conditions@,
                        max_cost,
                        flat,
                    );
                }
            },
            Err(_) => {},
        }
    }
}

/// The totals of a validated block: the cost is the execution cost plus the
/// condition cost; the execution cost is what the evaluator had charged; the
/// condition cost is the cost of every condition, with the flat cost of each
/// one when it applies; fee and amounts are the sums over the block. The block
/// is accepted exactly when these sums fit the budget and their widths.
pub proof fn lemma_aggregate_totals(
    ss: Seq<Spend>,
    max_cost: nat,
    cost_already_spent: nat,
    flat: nat,
)
    ensures
        aggregate(ss, max_cost, cost_already_spent, flat) is Ok <==> {
            &&& cost_already_spent + spends_cost(ss, flat) <= max_cost
            &&& spends_fee(ss) <= u64::MAX
            &&& spends_removed(ss) <= u128::MAX
            &&& spends_created(ss) <= u128::MAX
        },
        aggregate(ss, max_cost, cost_already_spent, flat) matches Ok(t) ==> {
            &&& t.wf()
            &&& t.cost == t.execution_cost + t.condition_cost
            &&& t.cost <= max_cost
            &&& t.execution_cost == cost_already_spent
            &&& t.condition_cost == spends_cost(ss, flat)
            &&& t.reserve_fee == spends_fee(ss)
            &&& t.removal_amount == spends_removed(ss)
            &&& t.addition_amount == spends_created(ss)
        },
        aggregate(ss, max_cost, cost_already_spent, flat) matches Err(e) ==> {
            &&& e == ErrorCode::CostExceeded || e == ErrorCode::ArithmeticOverflow
            &&& e == ErrorCode::CostExceeded ==> cost_already_spent + spends_cost(ss, flat)
                > max_cost
            &&& e == ErrorCode::ArithmeticOverflow ==> spends_fee(ss) > u64::MAX || spends_removed(
                ss,
            ) > u128::MAX || spends_created(ss) > u128::MAX
        },
{
    if cost_already_spent <= max_cost {
        lemma_fold_spends_adds(Totals::start(cost_already_spent), ss, max_cost, flat);
    }
}

/// The budget is exact: a block that is accepted under some budget is accepted,
/// with the same totals, under a budget of exactly its cost, and is rejected
/// for its cost under a budget one unit below.
pub proof fn lemma_budget_boundary(
    ss: Seq<Spend>,
    max_cost: nat,
    cost_already_spent: nat,
    flat: nat,
)
    requires
        aggregate(ss, max_cost, cost_already_spent, flat) is Ok,
    ensures
        ({
            let accepted = aggregate(ss, max_cost, cost_already_spent, flat);
            let required = accepted->Ok_0.cost;
            &&& required == cost_already_spent + spends_cost(ss, flat)
            &&& aggregate(ss, required, cost_already_spent, flat) == accepted
            &&& required > 0 ==> aggregate(ss, (required - 1) as nat, cost_already_spent, flat)
                == Err::<Totals, ErrorCode>(ErrorCode::CostExceeded)
        }),
{
    let required = cost_already_spent + spends_cost(ss, flat);
    lemma_aggregate_totals(ss, max_cost, cost_already_spent, flat);
    lemma_aggregate_totals(ss, required, cost_already_spent, flat);
    if required > 0 {
        lemma_aggregate_totals(ss, (required - 1) as nat, cost_already_spent, flat);
    }
}

} // verus!
