//! The plain data model: time units, fractions, the mirrored Coretime
//! configuration, order requirements, call origins, errors and events.

use vstd::prelude::*;

verus! {

/// A timeslice index on the Coretime chain.
pub type Timeslice = u32;

/// A relay-chain block number.
pub type RelayBlockNumber = u64;

/// A local parachain block number.
pub type BlockNumber = u64;

/// The index of a Coretime core.
pub type CoreIndex = u16;

/// The identifier of a parachain.
pub type ParaId = u32;

/// A relay-chain balance.
pub type Balance = u128;

/// An account identifier.
pub type AccountId = u64;

/// An order identifier.
pub type OrderId = u32;

/// A fraction of a core, expressed in parts per 57 600.
pub type PartsOf57600 = u16;

/// A full core, in parts per 57 600.
pub const FULL_CORE: u16 = 57600;

/// The number of parts that make up a whole `Perbill`.
pub const PERBILL_ONE: u32 = 1_000_000_000;

/// A fraction in `[0, 1]`, stored as parts per billion.
#[derive(Clone, Copy, PartialEq, Eq, Structural, Debug)]
pub struct Perbill {
    pub parts: u32,
}

impl Perbill {
    /// The fraction is at most one.
    pub open spec fn valid(self) -> bool {
        self.parts <= PERBILL_ONE
    }

    /// The fraction `parts / 1_000_000_000`.
    pub fn from_parts(parts: u32) -> (r: Perbill)
        requires
            parts <= PERBILL_ONE,
        ensures
            r.parts == parts,
            r.valid(),
    {
        Perbill { parts }
    }

    /// The fraction `percent / 100`.
    pub fn from_percent(percent: u32) -> (r: Perbill)
        requires
            percent <= 100,
        ensures
            r.parts == percent * 10_000_000,
            r.valid(),
    {
        Perbill { parts: percent * 10_000_000 }
    }
}

/// The configuration of the Coretime chain, mirrored locally.
///
/// The admin is responsible for keeping this synchronized with the actual
/// sale geometry on the Coretime chain; the pallet has no mechanism to
/// detect drift.
#[derive(Clone, Copy, PartialEq, Eq, Debug)]
pub struct ConfigRecord {
    /// The number of relay-chain blocks in advance which a region must be
    /// assigned before its sale period begins.
    pub advance_notice: RelayBlockNumber,
    /// The length in blocks of the interlude portion of the sale period.
    pub interlude_length: BlockNumber,
    /// The length in blocks of the lead-in portion of the sale period.
    pub leadin_length: BlockNumber,
    /// The length in timeslices of regions sold in bulk.
    pub region_length: Timeslice,
    /// The proportion of cores available for sale which should be sold in
    /// order for the price to remain the same.
    pub ideal_bulk_proportion: Perbill,
    /// An artificial limit to the number of cores which are allowed to be
    /// sold, if set.
    pub limit_cores_offered: Option<CoreIndex>,
    /// The amount by which the renewal price increases each sale period.
    pub renewal_bump: Perbill,
    /// The duration in timeslices by which rewards for contributions to the
    /// instantaneous Coretime pool must be collected.
    pub contribution_timeout: Timeslice,
}

impl ConfigRecord {
    /// Both proportion fields are fractions in `[0, 1]`.
    pub open spec fn valid(self) -> bool {
        &&& self.ideal_bulk_proportion.valid()
        &&& self.renewal_bump.valid()
    }
}

/// Generic Coretime region requirements for the parachain.
///
/// Based on this, one `OrderRequirements` value is constructed per order.
/// Only requirements based on core occupancy are supported, not ones based
/// on region duration.
#[derive(Clone, Copy, PartialEq, Eq, Structural, Debug)]
pub struct GenericRequirements {
    /// The minimum fraction of the core that the region should occupy.
    pub core_occupancy: PartsOf57600,
}

impl GenericRequirements {
    /// The occupancy is at most a full core.
    pub open spec fn valid(self) -> bool {
        self.core_occupancy <= FULL_CORE
    }
}

/// The requirements of a single Coretime order.
#[derive(Clone, Copy, PartialEq, Eq, Structural, Debug)]
pub struct OrderRequirements {
    /// The timeslice at which the region begins.
    pub begin: Timeslice,
    /// The timeslice at which the region ends.
    pub end: Timeslice,
    /// The minimum fraction of the core that the region should occupy.
    pub core_occupancy: PartsOf57600,
}

/// The origin of a call: the unconditional root override, or a signed
/// account.
#[derive(Clone, Copy, PartialEq, Eq, Structural, Debug)]
pub enum Origin {
    /// The root override: passes every capability check.
    Root,
    /// A call signed by the given account.
    Signed(AccountId),
}

/// A rejected call. Every error leaves all state unchanged, and the call
/// may be retried after correcting the input.
#[derive(Clone, Copy, PartialEq, Eq, Structural, Debug)]
pub enum Error {
    /// The origin may not perform the operation.
    BadOrigin,
    /// No active order has the given identifier.
    InvalidOrderId,
    /// The amount is below the configured minimum or cannot be paid.
    InvalidAmount,
    /// Only the creator of an order may cancel it.
    NotAllowed,
    /// Contributions are only refundable once the order has been cancelled.
    OrderNotCancelled,
    /// There is no contribution to refund.
    NoContribution,
}

/// A notification emitted for external observers, carrying a snapshot of
/// the relevant entity.
#[derive(Clone, Copy, PartialEq, Eq, Debug)]
#[allow(inconsistent_fields)]
pub enum Event {
    /// The configuration of the Coretime chain was set.
    ConfigurationSet { configuration: ConfigRecord },
    /// The timeslice for the next order was set.
    NextOrderScheduled { next_order: Timeslice },
    /// The Coretime requirements were set.
    ///
    /// `None` means that the parachain will stop with Coretime procurement.
    CoretimeRequirementSet { requirements: Option<GenericRequirements> },
    /// An order was created.
    OrderCreated { order_id: OrderId, creator: AccountId, para_id: ParaId, requirements: OrderRequirements },
    /// An order was cancelled and removed from the active set.
    OrderRemoved { order_id: OrderId },
    /// A contribution was recorded for an order.
    Contributed { order_id: OrderId, who: AccountId, amount: Balance },
    /// A contribution was refunded after cancellation of its order.
    ContributionRemoved { order_id: OrderId, who: AccountId, amount: Balance },
}

/// A capability check for administrative calls: decides which origins may
/// administer the pallet.
pub trait Authorizer {
    /// The origins that the capability accepts.
    spec fn spec_authorize(&self, origin: Origin) -> bool;

    /// Decides whether `origin` may administer the pallet.
    fn authorize(&self, origin: Origin) -> (r: bool)
        ensures
            r == self.spec_authorize(origin),
    ;
}

/// Accepts the root override and, if one is designated, the admin account.
#[derive(Clone, Copy, PartialEq, Eq, Debug)]
pub struct AdminOrRoot {
    /// The designated admin account, if any.
    pub admin: Option<AccountId>,
}

impl Authorizer for AdminOrRoot {
    open spec fn spec_authorize(&self, origin: Origin) -> bool {
        match origin {
            Origin::Root => true,
            Origin::Signed(who) => self.admin == Some(who),
        }
    }

    fn authorize(&self, origin: Origin) -> (r: bool) {
        match origin {
            Origin::Root => true,
            Origin::Signed(who) => match self.admin {
                Some(admin) => admin == who,
                None => false,
            },
        }
    }
}

/// A strategy returning the encoded remote-runtime call which will create
/// an order on the coretime marketplace chain. Supplied by the runtime;
/// the scheduler core stays decoupled from the remote chain's encoding.
pub trait CallEncoder {
    /// The exact bytes of the encoded order-creation call.
    spec fn spec_order_creation_call(order_requirements: OrderRequirements) -> Seq<u8>;

    /// Returns the runtime call which will create an order on the coretime
    /// marketplace chain.
    fn order_creation_call(order_requirements: OrderRequirements) -> (call: Vec<u8>)
        ensures
            call@ == Self::spec_order_creation_call(order_requirements),
    ;
}

} // verus!
