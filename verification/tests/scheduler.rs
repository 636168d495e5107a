use order_creator::dispatcher::RecordingDispatcher;
use order_creator::scheduler::Pallet;
use order_creator::scheduler::SkipReason;
use order_creator::scheduler::TickOutcome;
use order_creator::types::AdminOrRoot;
use order_creator::types::ConfigRecord;
use order_creator::types::Error;
use order_creator::types::Event;
use order_creator::types::GenericRequirements;
use order_creator::types::OrderRequirements;
use order_creator::types::Origin;
use order_creator::types::Perbill;

const ALICE: u64 = 1;
const TIMESLICE_PERIOD: u64 = 80;

fn root_only() -> AdminOrRoot {
    AdminOrRoot { admin: None }
}

fn test_configuration() -> ConfigRecord {
    ConfigRecord {
        advance_notice: 10,
        interlude_length: 7_200,
        leadin_length: 21_600,
        region_length: 1_260,
        ideal_bulk_proportion: Perbill::from_percent(40),
        limit_cores_offered: None,
        renewal_bump: Perbill::from_percent(40),
        contribution_timeout: 1_260,
    }
}

#[test]
fn set_configuration_works() {
    let mut pallet = Pallet::new(TIMESLICE_PERIOD);
    let admin = root_only();
    assert!(pallet.configuration.is_none());

    let configuration = test_configuration();
    // Failure: Bad origin
    assert_eq!(
        pallet.set_configuration(&admin, Origin::Signed(ALICE), configuration),
        Err(Error::BadOrigin)
    );
    assert!(pallet.configuration.is_none());

    // Should be working fine
    assert_eq!(pallet.set_configuration(&admin, Origin::Root, configuration), Ok(()));

    // Check the storage item
    assert_eq!(pallet.configuration, Some(configuration));

    // Check the emitted events
    assert_eq!(pallet.events.last(), Some(&Event::ConfigurationSet { configuration }));
}

#[test]
fn schedule_next_order_works() {
    let mut pallet = Pallet::new(TIMESLICE_PERIOD);
    let admin = root_only();
    assert!(pallet.next_order.is_none());

    // Failure: Bad origin
    assert_eq!(
        pallet.schedule_next_order(&admin, Origin::Signed(ALICE), 1),
        Err(Error::BadOrigin)
    );
    assert!(pallet.next_order.is_none());

    // Should work
    assert_eq!(pallet.schedule_next_order(&admin, Origin::Root, 1), Ok(()));

    // Check the storage item
    assert_eq!(pallet.next_order, Some(1));

    // Check the emitted events
    assert_eq!(pallet.events.last(), Some(&Event::NextOrderScheduled { next_order: 1 }));
}

#[test]
fn set_coretime_requirements_works() {
    let mut pallet = Pallet::new(TIMESLICE_PERIOD);
    let admin = root_only();
    assert!(pallet.coretime_requirements.is_none());

    // Failure: Bad Origin
    assert_eq!(
        pallet.set_coretime_requirements(&admin, Origin::Signed(ALICE), None),
        Err(Error::BadOrigin)
    );

    let requirements = Some(GenericRequirements { core_occupancy: 28_800 }); // 50%

    // Should work
    assert_eq!(pallet.set_coretime_requirements(&admin, Origin::Root, requirements), Ok(()));

    // Check the storage item
    assert_eq!(pallet.coretime_requirements, requirements);

    // Check the emitted events
    assert_eq!(pallet.events.last(), Some(&Event::CoretimeRequirementSet { requirements }));
}

#[test]
fn current_timeslice_works() {
    let pallet = Pallet::new(TIMESLICE_PERIOD);

    assert_eq!(pallet.current_timeslice(0), 0);

    assert_eq!(pallet.current_timeslice(5 * TIMESLICE_PERIOD), 5);

    assert_eq!(pallet.current_timeslice(6 * TIMESLICE_PERIOD - 1), 5);
}

#[test]
fn current_timeslice_is_idempotent_and_monotonic() {
    let pallet = Pallet::new(TIMESLICE_PERIOD);
    assert_eq!(pallet.current_timeslice(399), pallet.current_timeslice(399));
    let mut previous: u32 = 0;
    for block in 0..1_000u64 {
        let now = pallet.current_timeslice(block);
        assert!(now >= previous);
        previous = now;
    }
}

#[test]
fn current_timeslice_saturates() {
    let pallet = Pallet::new(1);
    assert_eq!(pallet.current_timeslice(u64::MAX), u32::MAX);
}

/// A designated admin account passes the capability check; any other
/// signed account does not.
#[test]
fn admin_account_is_authorized() {
    let mut pallet = Pallet::new(TIMESLICE_PERIOD);
    let admin = AdminOrRoot { admin: Some(ALICE) };
    assert_eq!(pallet.schedule_next_order(&admin, Origin::Signed(ALICE), 7), Ok(()));
    assert_eq!(
        pallet.schedule_next_order(&admin, Origin::Signed(2), 9),
        Err(Error::BadOrigin)
    );
    assert_eq!(pallet.next_order, Some(7));
}

fn ready_pallet() -> Pallet {
    let mut pallet = Pallet::new(TIMESLICE_PERIOD);
    let admin = root_only();
    pallet.set_configuration(&admin, Origin::Root, test_configuration()).unwrap();
    pallet.schedule_next_order(&admin, Origin::Root, 100).unwrap();
    pallet
        .set_coretime_requirements(
            &admin,
            Origin::Root,
            Some(GenericRequirements { core_occupancy: 28_800 }),
        )
        .unwrap();
    pallet
}

#[test]
fn on_initialize_dispatches_when_due() {
    let mut pallet = ready_pallet();
    let mut dispatcher = RecordingDispatcher::new(false);

    // Timeslice 100 is exactly the scheduled one.
    let outcome = pallet.on_initialize(100 * TIMESLICE_PERIOD, &mut dispatcher);

    assert_eq!(outcome, TickOutcome::Dispatched);
    assert_eq!(
        dispatcher.attempts,
        vec![OrderRequirements { begin: 100, end: 1_360, core_occupancy: 28_800 }]
    );
    assert_eq!(pallet.next_order, Some(1_360));
}

#[test]
fn on_initialize_advances_even_when_dispatch_fails() {
    let mut pallet = ready_pallet();
    let mut dispatcher = RecordingDispatcher::new(true);

    let outcome = pallet.on_initialize(100 * TIMESLICE_PERIOD, &mut dispatcher);

    assert_eq!(outcome, TickOutcome::DispatchFailed);
    assert_eq!(dispatcher.attempts.len(), 1);
    assert_eq!(pallet.next_order, Some(1_360));
}

#[test]
fn on_initialize_skips_when_not_due() {
    let mut pallet = ready_pallet();
    let mut dispatcher = RecordingDispatcher::new(false);

    // Timeslice 99 is one before the scheduled one.
    let outcome = pallet.on_initialize(100 * TIMESLICE_PERIOD - 1, &mut dispatcher);

    assert_eq!(outcome, TickOutcome::Skipped(SkipReason::NotDue));
    assert!(dispatcher.attempts.is_empty());
    assert_eq!(pallet.next_order, Some(100));
}

#[test]
fn on_initialize_skips_without_configuration() {
    let mut pallet = Pallet::new(TIMESLICE_PERIOD);
    let mut dispatcher = RecordingDispatcher::new(false);

    let outcome = pallet.on_initialize(100 * TIMESLICE_PERIOD, &mut dispatcher);

    assert_eq!(outcome, TickOutcome::Skipped(SkipReason::ConfigurationNotSet));
    assert!(dispatcher.attempts.is_empty());
}

#[test]
fn on_initialize_skips_without_next_order() {
    let mut pallet = Pallet::new(TIMESLICE_PERIOD);
    let admin = root_only();
    pallet.set_configuration(&admin, Origin::Root, test_configuration()).unwrap();
    let mut dispatcher = RecordingDispatcher::new(false);

    let outcome = pallet.on_initialize(100 * TIMESLICE_PERIOD, &mut dispatcher);

    assert_eq!(outcome, TickOutcome::Skipped(SkipReason::NextOrderNotSet));
    assert!(dispatcher.attempts.is_empty());
}

#[test]
fn on_initialize_halts_without_requirements() {
    let mut pallet = ready_pallet();
    let admin = root_only();
    pallet.set_coretime_requirements(&admin, Origin::Root, None).unwrap();
    let mut dispatcher = RecordingDispatcher::new(false);

    let outcome = pallet.on_initialize(100 * TIMESLICE_PERIOD, &mut dispatcher);

    // Procurement is halted, and the tracker is not advanced: the pallet
    // re-checks on every subsequent tick until requirements are supplied.
    assert_eq!(outcome, TickOutcome::Skipped(SkipReason::RequirementsNotSet));
    assert!(dispatcher.attempts.is_empty());
    assert_eq!(pallet.next_order, Some(100));
}

#[test]
fn on_initialize_fires_once_per_region() {
    let mut pallet = ready_pallet();
    let mut dispatcher = RecordingDispatcher::new(false);

    // Ticks across many blocks of the same region dispatch exactly once.
    let mut dispatched: u32 = 0;
    for block in 8_000..9_000u64 {
        if pallet.on_initialize(block, &mut dispatcher) == TickOutcome::Dispatched {
            dispatched += 1;
        }
    }
    assert_eq!(dispatched, 1);
    assert_eq!(dispatcher.attempts.len(), 1);
    assert_eq!(pallet.next_order, Some(1_360));
}

#[test]
fn on_initialize_saturates_at_the_largest_timeslice() {
    let mut pallet = ready_pallet();
    let admin = root_only();
    pallet
        .schedule_next_order(&admin, Origin::Root, u32::MAX - 100)
        .unwrap();
    let mut dispatcher = RecordingDispatcher::new(false);

    let outcome = pallet.on_initialize(u64::MAX, &mut dispatcher);

    assert_eq!(outcome, TickOutcome::Dispatched);
    assert_eq!(
        dispatcher.attempts,
        vec![OrderRequirements { begin: u32::MAX - 100, end: u32::MAX, core_occupancy: 28_800 }]
    );
    assert_eq!(pallet.next_order, Some(u32::MAX));
}
