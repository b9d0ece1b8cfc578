use chia_consensus::flags::ConsensusFlags;
use chia_consensus::spend_bundle::{aggregate_spends, Condition, Spend, SpendBundleConditions};
use chia_consensus::validation_error::ErrorCode;

fn condition(cost: u64, reserve_fee: u64, created_amount: u64) -> Condition {
    Condition {
        cost,
        reserve_fee,
        created_amount,
    }
}

fn block() -> Vec<Spend> {
    vec![
        Spend {
            coin_amount: 1000,
            conditions: vec![condition(1_800_000, 0, 600), condition(0, 25, 0)],
        },
        Spend {
            coin_amount: 50,
            conditions: vec![],
        },
        Spend {
            coin_amount: 7,
            conditions: vec![
                condition(1_200_000, 0, 0),
                condition(1_800_000, 0, 400),
                condition(0, 10, 0),
            ],
        },
    ]
}

#[test]
fn totals_start_from_the_execution_cost() {
    let t = SpendBundleConditions::new(42);
    assert_eq!(t.cost(), 42);
    assert_eq!(t.execution_cost(), 42);
    assert_eq!(t.condition_cost(), 0);
    assert_eq!(t.reserve_fee(), 0);
    assert_eq!(t.removal_amount(), 0);
    assert_eq!(t.addition_amount(), 0);
}

#[test]
fn totals_from_parts() {
    let t = SpendBundleConditions::from_parts(10, 32, 5, 6, 7).unwrap();
    assert_eq!(t.cost(), 42);
    assert_eq!(t.execution_cost(), 10);
    assert_eq!(t.condition_cost(), 32);
    assert_eq!(t.reserve_fee(), 5);
    assert_eq!(t.removal_amount(), 6);
    assert_eq!(t.addition_amount(), 7);
    let t = SpendBundleConditions::from_parts(u64::MAX, 0, 0, u128::MAX, u128::MAX).unwrap();
    assert_eq!(t.cost(), u64::MAX);
    assert_eq!(SpendBundleConditions::from_parts(u64::MAX, 1, 0, 0, 0), None);
    assert_eq!(
        SpendBundleConditions::from_parts(1 << 63, 1 << 63, 0, 0, 0),
        None
    );
    assert_eq!(
        SpendBundleConditions::from_parts(0, 0, 0, 0, 0),
        Some(SpendBundleConditions::new(0))
    );
}

#[test]
fn empty_block_costs_what_the_evaluator_charged() {
    let t = aggregate_spends(&vec![], 100, 30, ConsensusFlags::empty(), 500).unwrap();
    assert_eq!(t, SpendBundleConditions::new(30));
    let t = aggregate_spends(&vec![], 100, 100, ConsensusFlags::all(), 500).unwrap();
    assert_eq!(t, SpendBundleConditions::new(100));
    let t = aggregate_spends(&vec![], 0, 0, ConsensusFlags::empty(), 0).unwrap();
    assert_eq!(t, SpendBundleConditions::new(0));
}

#[test]
fn execution_cost_over_budget_is_rejected_at_once() {
    assert_eq!(
        aggregate_spends(&vec![], 100, 101, ConsensusFlags::empty(), 0),
        Err(ErrorCode::CostExceeded)
    );
    assert_eq!(
        aggregate_spends(&block(), 0, 1, ConsensusFlags::empty(), 0),
        Err(ErrorCode::CostExceeded)
    );
}

#[test]
fn block_totals_are_sums() {
    let t = aggregate_spends(&block(), 11_000_000, 3_000_000, ConsensusFlags::empty(), 500).unwrap();
    assert_eq!(t.execution_cost(), 3_000_000);
    assert_eq!(t.condition_cost(), 4_800_000);
    assert_eq!(t.cost(), 7_800_000);
    assert_eq!(t.cost(), t.execution_cost() + t.condition_cost());
    assert_eq!(t.reserve_fee(), 35);
    assert_eq!(t.removal_amount(), 1057);
    assert_eq!(t.addition_amount(), 1000);
    assert_eq!(
        Some(t),
        SpendBundleConditions::from_parts(3_000_000, 4_800_000, 35, 1057, 1000)
    );
}

#[test]
fn flat_cost_is_charged_per_condition_when_the_flag_is_set() {
    let flags = ConsensusFlags::cost_conditions();
    let t = aggregate_spends(&block(), 11_000_000, 3_000_000, flags, 500).unwrap();
    assert_eq!(t.execution_cost(), 3_000_000);
    assert_eq!(t.condition_cost(), 4_800_000 + 5 * 500);
    assert_eq!(t.cost(), 7_802_500);
    assert_eq!(t.cost(), t.execution_cost() + t.condition_cost());
    assert_eq!(t.reserve_fee(), 35);
    assert_eq!(t.removal_amount(), 1057);
    assert_eq!(t.addition_amount(), 1000);
    // every other flag leaves the cost alone
    let flags = ConsensusFlags::all().difference(ConsensusFlags::cost_conditions());
    let t = aggregate_spends(&block(), 11_000_000, 3_000_000, flags, 500).unwrap();
    assert_eq!(t.cost(), 7_800_000);
}

#[test]
fn budget_is_exact() {
    for (flags, required) in [
        (ConsensusFlags::empty(), 7_800_000u64),
        (ConsensusFlags::cost_conditions(), 7_802_500u64),
    ] {
        let generous = aggregate_spends(&block(), u64::MAX, 3_000_000, flags, 500).unwrap();
        assert_eq!(generous.cost(), required);
        let exact = aggregate_spends(&block(), required, 3_000_000, flags, 500);
        assert_eq!(exact, Ok(generous));
        let short = aggregate_spends(&block(), required - 1, 3_000_000, flags, 500);
        assert_eq!(short, Err(ErrorCode::CostExceeded));
    }
}

#[test]
fn budget_of_the_execution_cost_alone() {
    let free = vec![Spend {
        coin_amount: 5,
        conditions: vec![condition(0, 1, 2), condition(0, 3, 4)],
    }];
    let t = aggregate_spends(&free, 9, 9, ConsensusFlags::empty(), 500).unwrap();
    assert_eq!(t.cost(), 9);
    assert_eq!(t.condition_cost(), 0);
    assert_eq!(t.reserve_fee(), 4);
    assert_eq!(t.addition_amount(), 6);
    assert_eq!(t.removal_amount(), 5);
    assert_eq!(
        aggregate_spends(&free, 8, 9, ConsensusFlags::empty(), 500),
        Err(ErrorCode::CostExceeded)
    );
    assert_eq!(
        aggregate_spends(&free, 9, 9, ConsensusFlags::cost_conditions(), 1),
        Err(ErrorCode::CostExceeded)
    );
    let t = aggregate_spends(&free, 11, 9, ConsensusFlags::cost_conditions(), 1).unwrap();
    assert_eq!(t.cost(), 11);
    assert_eq!(t.condition_cost(), 2);
}

#[test]
fn cost_that_overflows_is_over_budget() {
    let heavy = vec![Spend {
        coin_amount: 0,
        conditions: vec![condition(u64::MAX, 0, 0), condition(u64::MAX, 0, 0)],
    }];
    assert_eq!(
        aggregate_spends(&heavy, u64::MAX, 0, ConsensusFlags::empty(), 0),
        Err(ErrorCode::CostExceeded)
    );
    assert_eq!(
        aggregate_spends(&heavy, u64::MAX, 1, ConsensusFlags::empty(), 0),
        Err(ErrorCode::CostExceeded)
    );
    let flat = vec![Spend {
        coin_amount: 0,
        conditions: vec![condition(u64::MAX, 0, 0)],
    }];
    assert_eq!(
        aggregate_spends(&flat, u64::MAX, 0, ConsensusFlags::cost_conditions(), u64::MAX),
        Err(ErrorCode::CostExceeded)
    );
    let t = aggregate_spends(&flat, u64::MAX, 0, ConsensusFlags::empty(), u64::MAX).unwrap();
    assert_eq!(t.cost(), u64::MAX);
}

#[test]
fn fee_overflow_is_rejected() {
    let greedy = vec![
        Spend {
            coin_amount: 1,
            conditions: vec![condition(1, u64::MAX, 0)],
        },
        Spend {
            coin_amount: 1,
            conditions: vec![condition(1, 1, 0)],
        },
    ];
    assert_eq!(
        aggregate_spends(&greedy, 100, 0, ConsensusFlags::empty(), 0),
        Err(ErrorCode::ArithmeticOverflow)
    );
    let t = aggregate_spends(&greedy[..1].to_vec(), 100, 0, ConsensusFlags::empty(), 0).unwrap();
    assert_eq!(t.reserve_fee(), u64::MAX);
}

#[test]
fn first_failure_decides() {
    // the second condition breaks the budget before the third overflows the fee
    let spends = vec![Spend {
        coin_amount: 1,
        conditions: vec![
            condition(1, u64::MAX, 0),
            condition(100, 0, 0),
            condition(0, 1, 0),
        ],
    }];
    assert_eq!(
        aggregate_spends(&spends, 100, 0, ConsensusFlags::empty(), 0),
        Err(ErrorCode::CostExceeded)
    );
    // with room for the cost, the fee decides
    assert_eq!(
        aggregate_spends(&spends, 101, 0, ConsensusFlags::empty(), 0),
        Err(ErrorCode::ArithmeticOverflow)
    );
    // within one condition the cost is charged before the fee is added
    let spends = vec![Spend {
        coin_amount: 1,
        conditions: vec![condition(1, u64::MAX, 0), condition(100, 1, 0)],
    }];
    assert_eq!(
        aggregate_spends(&spends, 100, 0, ConsensusFlags::empty(), 0),
        Err(ErrorCode::CostExceeded)
    );
}

#[test]
fn conditions_are_folded_one_by_one() {
    let mut t = SpendBundleConditions::new(10);
    assert_eq!(t.add_condition(&condition(5, 1, 2), 20, 0), Ok(()));
    assert_eq!(
        Some(t),
        SpendBundleConditions::from_parts(10, 5, 1, 0, 2)
    );
    assert_eq!(t.add_condition(&condition(3, 0, 0), 20, 2), Ok(()));
    assert_eq!(
        Some(t),
        SpendBundleConditions::from_parts(10, 10, 1, 0, 2)
    );
    // a failure leaves the totals as they were
    let before = t;
    assert_eq!(
        t.add_condition(&condition(1, 0, 0), 20, 0),
        Err(ErrorCode::CostExceeded)
    );
    assert_eq!(t, before);
    assert_eq!(
        t.add_condition(&condition(0, u64::MAX, 0), 20, 0),
        Err(ErrorCode::ArithmeticOverflow)
    );
    assert_eq!(t, before);
    assert_eq!(t.add_condition(&condition(0, u64::MAX - 1, 0), 20, 0), Ok(()));
    assert_eq!(t.reserve_fee(), u64::MAX);
}

#[test]
fn created_amount_overflow_is_rejected() {
    let mut t = SpendBundleConditions::from_parts(0, 0, 0, 0, u128::MAX - 1).unwrap();
    let before = t;
    assert_eq!(
        t.add_condition(&condition(0, 0, 2), 10, 0),
        Err(ErrorCode::ArithmeticOverflow)
    );
    assert_eq!(t, before);
    assert_eq!(t.add_condition(&condition(0, 0, 1), 10, 0), Ok(()));
    assert_eq!(t.addition_amount(), u128::MAX);
}

#[test]
fn spends_are_folded_one_by_one() {
    let spends = block();
    let mut t = SpendBundleConditions::new(3_000_000);
    assert_eq!(t.add_spend(&spends[0], 11_000_000, 0), Ok(()));
    assert_eq!(
        Some(t),
        SpendBundleConditions::from_parts(3_000_000, 1_800_000, 25, 1000, 600)
    );
    assert_eq!(t.add_spend(&spends[1], 11_000_000, 0), Ok(()));
    assert_eq!(
        Some(t),
        SpendBundleConditions::from_parts(3_000_000, 1_800_000, 25, 1050, 600)
    );
    // the last spend fails on its second condition: nothing of it is kept
    let before = t;
    assert_eq!(
        t.add_spend(&spends[2], 6_000_000, 0),
        Err(ErrorCode::CostExceeded)
    );
    assert_eq!(t, before);
    assert_eq!(t.add_spend(&spends[2], 7_800_000, 0), Ok(()));
    assert_eq!(
        Some(t),
        SpendBundleConditions::from_parts(3_000_000, 4_800_000, 35, 1057, 1000)
    );
}

#[test]
fn removed_amount_overflow_is_rejected() {
    let mut t = SpendBundleConditions::from_parts(0, 0, 0, u128::MAX, 0).unwrap();
    let before = t;
    let spend = Spend {
        coin_amount: 1,
        conditions: vec![],
    };
    assert_eq!(
        t.add_spend(&spend, 10, 0),
        Err(ErrorCode::ArithmeticOverflow)
    );
    assert_eq!(t, before);
    let nothing = Spend {
        coin_amount: 0,
        conditions: vec![],
    };
    assert_eq!(t.add_spend(&nothing, 10, 0), Ok(()));
    assert_eq!(t, before);
}
