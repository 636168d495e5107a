//! The order-creation pallet: three singleton stores and the
//! timeslice-driven scheduler that fires an order-creation action exactly
//! once per bulk period, although it is invoked on every tick of an
//! unrelated external clock.

use vstd::prelude::*;

use crate::dispatcher::OrderDispatcher;
use crate::types::ConfigRecord;
use crate::types::Error;
use crate::types::Event;
use crate::types::GenericRequirements;
use crate::types::OrderRequirements;
use crate::types::Origin;
use crate::types::RelayBlockNumber;
use crate::types::Timeslice;
use crate::types::Authorizer;

verus! {

/// Why a tick did not dispatch an order. Each reason reflects one of the
/// staged checks, in the order they are made.
#[derive(Clone, Copy, PartialEq, Eq, Structural, Debug)]
pub enum SkipReason {
    /// The Coretime chain configuration is not set.
    ConfigurationNotSet,
    /// The timeslice for the next order is not set.
    NextOrderNotSet,
    /// The next order is not yet due.
    NotDue,
    /// The Coretime requirements are not set: procurement is halted.
    RequirementsNotSet,
}

/// The outcome of one tick of the scheduler.
#[derive(Clone, Copy, PartialEq, Eq, Structural, Debug)]
pub enum TickOutcome {
    /// No dispatch was attempted.
    Skipped(SkipReason),
    /// An order was dispatched.
    Dispatched,
    /// A dispatch was attempted and failed; the schedule tracker advanced
    /// regardless.
    DispatchFailed,
}

/// The timeslice containing the given relay-chain block: the block number
/// divided by the timeslice period, rounding down, saturating at the
/// largest timeslice.
pub open spec fn timeslice_of(block: RelayBlockNumber, period: RelayBlockNumber) -> Timeslice
    recommends
        period >= 1,
{
    if block / period > u32::MAX as u64 {
        u32::MAX
    } else {
        (block / period) as u32
    }
}

/// The schedule tracker after one dispatch: advanced by one region length,
/// saturating at the largest timeslice.
pub open spec fn advanced_tracker(begin: Timeslice, region_length: Timeslice) -> Timeslice {
    if begin + region_length > u32::MAX {
        u32::MAX
    } else {
        (begin + region_length) as u32
    }
}

/// The derived timeslice is a pure function of the relay-chain block
/// number and the timeslice period: repeated reads under the same block
/// number yield the same timeslice.
pub proof fn lemma_timeslice_idempotent(block: RelayBlockNumber, period: RelayBlockNumber)
    requires
        period >= 1,
    ensures
        timeslice_of(block, period) == timeslice_of(block, period),
{
}

/// The derived timeslice never decreases as the relay-chain block number
/// increases.
pub proof fn lemma_timeslice_monotonic(
    earlier: RelayBlockNumber,
    later: RelayBlockNumber,
    period: RelayBlockNumber,
)
    requires
        period >= 1,
        earlier <= later,
    ensures
        timeslice_of(earlier, period) <= timeslice_of(later, period),
{
    vstd::arithmetic::div_mod::lemma_div_is_ordered(
        earlier as int,
        later as int,
        period as int,
    );
}

/// Floor semantics of the derived timeslice: the last relay-chain block of
/// timeslice `k - 1` is block `k * period - 1`.
pub proof fn lemma_timeslice_floor(k: u64, period: RelayBlockNumber)
    requires
        1 <= k,
        1 <= period,
        k - 1 <= u32::MAX,
        k * period - 1 <= u64::MAX,
    ensures
        timeslice_of((k * period - 1) as u64, period) == k - 1,
{
    assert(k * period - 1 == (k - 1) * period + (period - 1)) by (nonlinear_arith);
    vstd::arithmetic::div_mod::lemma_fundamental_div_mod_converse(
        k * period - 1,
        period as int,
        k - 1,
        period - 1,
    );
}

/// The order-creation pallet: the procurement configuration, the schedule
/// tracker, the coretime requirements, and the stream of emitted events.
/// Each store is independently optional until first administered.
pub struct Pallet {
    /// The configuration of the Coretime chain, mirrored locally.
    pub configuration: Option<ConfigRecord>,
    /// The timeslice at which the next order should be made.
    pub next_order: Option<Timeslice>,
    /// The coretime requirements of the parachain. `None` halts order
    /// creation without altering the schedule tracker.
    pub coretime_requirements: Option<GenericRequirements>,
    /// The number of relay-chain blocks per timeslice.
    pub timeslice_period: RelayBlockNumber,
    /// Every event emitted so far, oldest first.
    pub events: Vec<Event>,
}

impl Pallet {
    /// The timeslice period is positive and all stored records are valid.
    pub open spec fn well_formed(self) -> bool {
        &&& self.timeslice_period >= 1
        &&& (self.configuration matches Some(c) ==> c.valid())
        &&& (self.coretime_requirements matches Some(g) ==> g.valid())
    }

    /// Whether a tick at the given relay-chain block finds the next order
    /// due: configuration and tracker are set, and the current timeslice
    /// has reached the tracker.
    pub open spec fn due(self, relay_block_number: RelayBlockNumber) -> bool {
        &&& self.configuration is Some
        &&& self.next_order is Some
        &&& timeslice_of(relay_block_number, self.timeslice_period) >= self.next_order->0
    }

    /// Whether a tick at the given relay-chain block dispatches an order:
    /// the order is due and the requirements are set.
    pub open spec fn fires(self, relay_block_number: RelayBlockNumber) -> bool {
        self.due(relay_block_number) && self.coretime_requirements is Some
    }

    /// The order the scheduler places when it fires: the region begins at
    /// the schedule tracker and ends one region length later.
    pub open spec fn planned_requirements(self) -> OrderRequirements
        recommends
            self.configuration is Some,
            self.next_order is Some,
            self.coretime_requirements is Some,
    {
        OrderRequirements {
            begin: self.next_order->0,
            end: advanced_tracker(self.next_order->0, self.configuration->0.region_length),
            core_occupancy: self.coretime_requirements->0.core_occupancy,
        }
    }

    /// A pallet with the given timeslice period and no store set.
    pub fn new(timeslice_period: RelayBlockNumber) -> (pallet: Pallet)
        requires
            timeslice_period >= 1,
        ensures
            pallet.well_formed(),
            pallet.configuration is None,
            pallet.next_order is None,
            pallet.coretime_requirements is None,
            pallet.timeslice_period == timeslice_period,
            pallet.events@.len() == 0,
    {
        Pallet {
            configuration: None,
            next_order: None,
            coretime_requirements: None,
            timeslice_period,
            events: Vec::new(),
        }
    }

    /// The timeslice containing the given relay-chain block, the single
    /// source of truth for "now" in timeslice units.
    pub fn current_timeslice(&self, relay_block_number: RelayBlockNumber) -> (r: Timeslice)
        requires
            self.timeslice_period >= 1,
        ensures
            r == timeslice_of(relay_block_number, self.timeslice_period),
    {
        let quotient = relay_block_number / self.timeslice_period;
        if quotient > u32::MAX as u64 {
            u32::MAX
        } else {
            quotient as u32
        }
    }

    /// Set the configuration of the Coretime chain.
    ///
    /// Only an origin accepted by the authorizer may call this. The caller
    /// is responsible for keeping the configuration synchronized with the
    /// Coretime chain's actual sale geometry.
    pub fn set_configuration<A: Authorizer>(
        &mut self,
        authorizer: &A,
        origin: Origin,
        configuration: ConfigRecord,
    ) -> (r: Result<(), Error>)
        requires
            old(self).well_formed(),
            configuration.valid(),
        ensures
            final(self).well_formed(),
            r is Ok <==> authorizer.spec_authorize(origin),
            r is Err ==> r == Err::<(), Error>(Error::BadOrigin) && *final(self) == *old(self),
            r is Ok ==> *final(self) == (Pallet {
                configuration: Some(configuration),
                events: final(self).events,
                ..*old(self)
            }) && final(self).events@ == old(self).events@.push(
                (Event::ConfigurationSet { configuration }),
            ),
    {
        if !authorizer.authorize(origin) {
            return Err(Error::BadOrigin);
        }
        self.configuration = Some(configuration);
        self.events.push(Event::ConfigurationSet { configuration });
        Ok(())
    }

    /// Set the timeslice at which the next order is created.
    ///
    /// Used at bootstrap or to correct drift; a reset to a past value is
    /// accepted.
    pub fn schedule_next_order<A: Authorizer>(
        &mut self,
        authorizer: &A,
        origin: Origin,
        next_order: Timeslice,
    ) -> (r: Result<(), Error>)
        requires
            old(self).well_formed(),
        ensures
            final(self).well_formed(),
            r is Ok <==> authorizer.spec_authorize(origin),
            r is Err ==> r == Err::<(), Error>(Error::BadOrigin) && *final(self) == *old(self),
            r is Ok ==> *final(self) == (Pallet {
                next_order: Some(next_order),
                events: final(self).events,
                ..*old(self)
            }) && final(self).events@ == old(self).events@.push(
                (Event::NextOrderScheduled { next_order }),
            ),
    {
        if !authorizer.authorize(origin) {
            return Err(Error::BadOrigin);
        }
        self.next_order = Some(next_order);
        self.events.push(Event::NextOrderScheduled { next_order });
        Ok(())
    }

    /// Set or clear the coretime requirements on which orders are based.
    ///
    /// Clearing them halts future dispatches without altering the schedule
    /// tracker.
    pub fn set_coretime_requirements<A: Authorizer>(
        &mut self,
        authorizer: &A,
        origin: Origin,
        requirements: Option<GenericRequirements>,
    ) -> (r: Result<(), Error>)
        requires
            old(self).well_formed(),
            requirements matches Some(g) ==> g.valid(),
        ensures
            final(self).well_formed(),
            r is Ok <==> authorizer.spec_authorize(origin),
            r is Err ==> r == Err::<(), Error>(Error::BadOrigin) && *final(self) == *old(self),
            r is Ok ==> *final(self) == (Pallet {
                coretime_requirements: requirements,
                events: final(self).events,
                ..*old(self)
            }) && final(self).events@ == old(self).events@.push(
                (Event::CoretimeRequirementSet { requirements }),
            ),
    {
        if !authorizer.authorize(origin) {
            return Err(Error::BadOrigin);
        }
        self.coretime_requirements = requirements;
        self.events.push(Event::CoretimeRequirementSet { requirements });
        Ok(())
    }

    /// One tick of the external clock.
    ///
    /// When configuration, schedule tracker and requirements are set and
    /// the current timeslice has reached the tracker, exactly one dispatch
    /// is attempted and the tracker advances by one region length — whether
    /// or not the dispatch succeeds, trading guaranteed delivery for the
    /// absence of duplicate orders. On any other tick nothing changes.
    pub fn on_initialize<D: OrderDispatcher>(
        &mut self,
        relay_block_number: RelayBlockNumber,
        dispatcher: &mut D,
    ) -> (outcome: TickOutcome)
        requires
            old(self).well_formed(),
        ensures
            final(self).well_formed(),
            final(self).configuration == old(self).configuration,
            final(self).coretime_requirements == old(self).coretime_requirements,
            final(self).timeslice_period == old(self).timeslice_period,
            final(self).events == old(self).events,
            !old(self).fires(relay_block_number) ==> *final(self) == *old(self)
                && *final(dispatcher) == *old(dispatcher) && outcome is Skipped,
            old(self).configuration is None ==> outcome == TickOutcome::Skipped(
                SkipReason::ConfigurationNotSet,
            ),
            old(self).configuration is Some && old(self).next_order is None
                ==> outcome == TickOutcome::Skipped(SkipReason::NextOrderNotSet),
            old(self).configuration is Some && old(self).next_order is Some && !old(self).due(
                relay_block_number,
            ) ==> outcome == TickOutcome::Skipped(SkipReason::NotDue),
            old(self).due(relay_block_number) && old(self).coretime_requirements is None
                ==> outcome == TickOutcome::Skipped(SkipReason::RequirementsNotSet),
            old(self).fires(relay_block_number) ==> final(dispatcher).attempted() == old(
                dispatcher,
            ).attempted().push(old(self).planned_requirements()) && final(self).next_order == Some(
                advanced_tracker(old(self).next_order->0, old(self).configuration->0.region_length),
            ) && (outcome == TickOutcome::Dispatched <==> old(dispatcher).succeeds(
                old(self).planned_requirements(),
            )) && (outcome is Dispatched || outcome is DispatchFailed),
    {
        let config = match self.configuration {
            Some(config) => config,
            None => {
                return TickOutcome::Skipped(SkipReason::ConfigurationNotSet);
            },
        };
        let current_order = match self.next_order {
            Some(current_order) => current_order,
            None => {
                return TickOutcome::Skipped(SkipReason::NextOrderNotSet);
            },
        };
        if self.current_timeslice(relay_block_number) >= current_order {
            let generic = match self.coretime_requirements {
                Some(generic) => generic,
                None => {
                    return TickOutcome::Skipped(SkipReason::RequirementsNotSet);
                },
            };
            let requirements = OrderRequirements {
                begin: current_order,
                end: current_order.saturating_add(config.region_length),
                core_occupancy: generic.core_occupancy,
            };
            let dispatched = dispatcher.dispatch(requirements);
            self.next_order = Some(current_order.saturating_add(config.region_length));
            match dispatched {
                Ok(_) => TickOutcome::Dispatched,
                Err(_) => TickOutcome::DispatchFailed,
            }
        } else {
            TickOutcome::Skipped(SkipReason::NotDue)
        }
    }
}

} // verus!
