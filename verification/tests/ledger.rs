use order_creator::ledger::BalanceEntry;
use order_creator::ledger::ContributionEntry;
use order_creator::ledger::Ledger;
use order_creator::ledger::Order;
use order_creator::ledger::TotalEntry;
use order_creator::types::Error;
use order_creator::types::Event;
use order_creator::types::OrderRequirements;

const ALICE: u64 = 1;
const BOB: u64 = 2;
const CHARLIE: u64 = 3;

const MINIMUM_CONTRIBUTION: u128 = 10;
const ORDER_CREATION_COST: u128 = 5;

const PARA_ID: u32 = 2_000;

fn requirements() -> OrderRequirements {
    OrderRequirements { begin: 100, end: 1_360, core_occupancy: 28_800 }
}

fn ledger() -> Ledger {
    let mut ledger = Ledger::new(MINIMUM_CONTRIBUTION, ORDER_CREATION_COST);
    ledger.endow(ALICE, 1_000);
    ledger.endow(BOB, 1_000);
    ledger
}

/// The spendable balance recorded for an account, zero when absent.
fn balance_of(ledger: &Ledger, who: u64) -> u128 {
    ledger
        .balances
        .iter()
        .find(|entry| entry.account == who)
        .map(|entry| entry.amount)
        .unwrap_or(0)
}

/// The contribution recorded for an order and contributor, zero when
/// absent.
fn contribution_of(ledger: &Ledger, order_id: u32, who: u64) -> u128 {
    ledger
        .contributions
        .iter()
        .find(|entry| entry.order_id == order_id && entry.contributor == who)
        .map(|entry| entry.amount)
        .unwrap_or(0)
}

/// The aggregate recorded for an order, zero when absent.
fn total_of(ledger: &Ledger, order_id: u32) -> u128 {
    ledger
        .total_contributions
        .iter()
        .find(|entry| entry.order_id == order_id)
        .map(|entry| entry.amount)
        .unwrap_or(0)
}

/// The aggregate equals the sum of the per-contributor entries, for every
/// order id that any record mentions.
fn assert_aggregates_match(ledger: &Ledger) {
    let mut ids: Vec<u32> = ledger
        .total_contributions
        .iter()
        .map(|entry| entry.order_id)
        .chain(ledger.contributions.iter().map(|entry| entry.order_id))
        .collect();
    ids.sort();
    ids.dedup();
    for id in ids {
        let sum: u128 = ledger
            .contributions
            .iter()
            .filter(|entry| entry.order_id == id)
            .map(|entry| entry.amount)
            .sum();
        assert_eq!(total_of(ledger, id), sum);
    }
}

#[test]
fn create_order_assigns_sequential_ids_and_charges_the_fee() {
    let mut ledger = ledger();

    assert_eq!(ledger.create_order(ALICE, PARA_ID, requirements()), Ok(0));
    assert_eq!(ledger.create_order(ALICE, PARA_ID, requirements()), Ok(1));
    assert_eq!(ledger.create_order(BOB, PARA_ID, requirements()), Ok(2));

    assert_eq!(balance_of(&ledger, ALICE), 1_000 - 2 * ORDER_CREATION_COST);
    assert_eq!(balance_of(&ledger, BOB), 1_000 - ORDER_CREATION_COST);
    assert_eq!(
        ledger.orders.first(),
        Some(&Order { id: 0, creator: ALICE, para_id: PARA_ID, requirements: requirements() })
    );
    assert_eq!(
        ledger.events.last(),
        Some(&Event::OrderCreated {
            order_id: 2,
            creator: BOB,
            para_id: PARA_ID,
            requirements: requirements(),
        })
    );
}

#[test]
fn create_order_fails_when_the_fee_cannot_be_paid() {
    let mut ledger = Ledger::new(MINIMUM_CONTRIBUTION, ORDER_CREATION_COST);
    ledger.endow(ALICE, ORDER_CREATION_COST - 1);

    assert_eq!(
        ledger.create_order(ALICE, PARA_ID, requirements()),
        Err(Error::InvalidAmount)
    );
    assert!(ledger.orders.is_empty());
    assert_eq!(balance_of(&ledger, ALICE), ORDER_CREATION_COST - 1);
}

#[test]
fn cancel_order_is_creator_only() {
    let mut ledger = ledger();
    ledger.create_order(ALICE, PARA_ID, requirements()).unwrap();

    assert_eq!(ledger.cancel_order(ALICE, 7), Err(Error::InvalidOrderId));
    assert_eq!(ledger.cancel_order(BOB, 0), Err(Error::NotAllowed));
    assert_eq!(ledger.cancel_order(ALICE, 0), Ok(()));
    assert!(ledger.orders.is_empty());
    assert_eq!(ledger.events.last(), Some(&Event::OrderRemoved { order_id: 0 }));
    // Gone for good: a second cancellation no longer finds it.
    assert_eq!(ledger.cancel_order(ALICE, 0), Err(Error::InvalidOrderId));
}

#[test]
fn contribute_validates_order_amount_and_balance() {
    let mut ledger = ledger();
    ledger.create_order(ALICE, PARA_ID, requirements()).unwrap();

    assert_eq!(ledger.contribute(BOB, 9, 100), Err(Error::InvalidOrderId));
    assert_eq!(
        ledger.contribute(BOB, 0, MINIMUM_CONTRIBUTION - 1),
        Err(Error::InvalidAmount)
    );
    assert_eq!(ledger.contribute(BOB, 0, 1_001), Err(Error::InvalidAmount));
    assert_eq!(ledger.contribute(CHARLIE, 0, 100), Err(Error::InvalidAmount));
    assert_eq!(contribution_of(&ledger, 0, BOB), 0);
    assert_eq!(total_of(&ledger, 0), 0);

    assert_eq!(ledger.contribute(BOB, 0, 100), Ok(()));
    assert_eq!(contribution_of(&ledger, 0, BOB), 100);
    assert_eq!(total_of(&ledger, 0), 100);
    assert_eq!(balance_of(&ledger, BOB), 900);
    assert_eq!(
        ledger.events.last(),
        Some(&Event::Contributed { order_id: 0, who: BOB, amount: 100 })
    );
}

#[test]
fn contributions_accumulate_and_refund_in_full() {
    let mut ledger = ledger();
    // Give order number 7 to contribute to.
    for _ in 0..8 {
        ledger.create_order(ALICE, PARA_ID, requirements()).unwrap();
    }

    // A contributes 50, then 30, to order 7.
    assert_eq!(ledger.contribute(BOB, 7, 50), Ok(()));
    assert_eq!(ledger.contribute(BOB, 7, 30), Ok(()));
    assert_eq!(contribution_of(&ledger, 7, BOB), 80);
    assert_eq!(total_of(&ledger, 7), 80);
    assert_eq!(balance_of(&ledger, BOB), 920);
    assert_aggregates_match(&ledger);

    // Order 7 is cancelled; A removes the contribution and is refunded 80.
    assert_eq!(ledger.cancel_order(ALICE, 7), Ok(()));
    assert_eq!(ledger.remove_contribution(BOB, 7), Ok(()));
    assert_eq!(balance_of(&ledger, BOB), 1_000);
    assert_eq!(contribution_of(&ledger, 7, BOB), 0);
    assert_eq!(total_of(&ledger, 7), 0);
    assert_eq!(
        ledger.events.last(),
        Some(&Event::ContributionRemoved { order_id: 7, who: BOB, amount: 80 })
    );
    assert_aggregates_match(&ledger);
}

#[test]
fn remove_contribution_only_after_cancellation_and_only_once() {
    let mut ledger = ledger();
    ledger.create_order(ALICE, PARA_ID, requirements()).unwrap();
    ledger.contribute(BOB, 0, 300).unwrap();

    // While the order is active, refunds are refused.
    assert_eq!(ledger.remove_contribution(BOB, 0), Err(Error::OrderNotCancelled));

    ledger.cancel_order(ALICE, 0).unwrap();

    // Without a recorded contribution there is nothing to refund.
    assert_eq!(ledger.remove_contribution(CHARLIE, 0), Err(Error::NoContribution));

    // The refund succeeds exactly once.
    assert_eq!(ledger.remove_contribution(BOB, 0), Ok(()));
    assert_eq!(balance_of(&ledger, BOB), 1_000);
    assert_eq!(ledger.remove_contribution(BOB, 0), Err(Error::NoContribution));
    assert_eq!(balance_of(&ledger, BOB), 1_000);
}

#[test]
fn aggregates_match_under_mixed_traffic() {
    let mut ledger = ledger();
    ledger.endow(CHARLIE, 500);
    ledger.create_order(ALICE, PARA_ID, requirements()).unwrap();
    ledger.create_order(ALICE, PARA_ID, requirements()).unwrap();

    ledger.contribute(BOB, 0, 40).unwrap();
    ledger.contribute(CHARLIE, 0, 60).unwrap();
    ledger.contribute(BOB, 1, 25).unwrap();
    ledger.contribute(BOB, 0, 15).unwrap();
    assert_aggregates_match(&ledger);
    assert_eq!(total_of(&ledger, 0), 115);
    assert_eq!(total_of(&ledger, 1), 25);

    ledger.cancel_order(ALICE, 0).unwrap();
    ledger.remove_contribution(CHARLIE, 0).unwrap();
    assert_aggregates_match(&ledger);
    assert_eq!(total_of(&ledger, 0), 55);
    assert_eq!(contribution_of(&ledger, 0, BOB), 55);
    assert_eq!(total_of(&ledger, 1), 25);

    ledger.remove_contribution(BOB, 0).unwrap();
    assert_aggregates_match(&ledger);
    assert_eq!(total_of(&ledger, 0), 0);
    assert_eq!(balance_of(&ledger, BOB), 1_000 - 25);
    assert_eq!(balance_of(&ledger, CHARLIE), 500);
}

#[test]
fn ledger_entries_expose_their_fields() {
    let mut ledger = Ledger::new(0, 0);
    ledger.endow(ALICE, 75);
    ledger.create_order(ALICE, PARA_ID, requirements()).unwrap();
    ledger.contribute(ALICE, 0, 75).unwrap();

    assert_eq!(ledger.balances, vec![BalanceEntry { account: ALICE, amount: 0 }]);
    assert_eq!(
        ledger.contributions,
        vec![ContributionEntry { order_id: 0, contributor: ALICE, amount: 75 }]
    );
    assert_eq!(
        ledger.total_contributions,
        vec![TotalEntry { order_id: 0, amount: 75 }]
    );
}
