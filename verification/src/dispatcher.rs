//! Dispatching of Coretime orders: the abstract order parameters become a
//! fee-bearing cross-chain message, addressed to the configured coretime
//! marketplace chain.
//!
//! Cross-chain delivery is one-way fire-and-forget: successful local
//! enqueue of the outbound message is the only observable outcome, so the
//! default dispatcher owns the outbound queue itself.

use core::marker::PhantomData;
use vstd::prelude::*;

use crate::types::Balance;
use crate::types::CallEncoder;
use crate::types::OrderRequirements;
use crate::types::ParaId;

verus! {

/// A two-dimensional weight bound: computation time and proof size.
#[derive(Clone, Copy, PartialEq, Eq, Structural, Debug)]
pub struct Weight {
    /// The weight of computational time used, in picoseconds.
    pub ref_time: u64,
    /// The weight of the storage proof size, in bytes.
    pub proof_size: u64,
}

/// A bound on the weight an instruction may purchase.
#[derive(Clone, Copy, PartialEq, Eq, Debug)]
pub enum WeightLimit {
    /// No weight limit.
    Unlimited,
    /// At most the given weight.
    Limited(Weight),
}

/// The kind of remote origin a transacted call executes under.
#[derive(Clone, Copy, PartialEq, Eq, Structural, Debug)]
pub enum OriginKind {
    /// The native dispatch origin representation of the sender.
    Native,
    /// The sovereign account of the sending system.
    SovereignAccount,
    /// The superuser origin.
    Superuser,
    /// The origin of the cross-chain message queue itself.
    Xcm,
}

/// The location of a remote system, as seen from this parachain.
#[derive(Clone, Copy, PartialEq, Eq, Debug)]
pub struct Location {
    /// The number of parent junctions to ascend: 1 reaches the relay chain.
    pub parents: u8,
    /// The sibling parachain to descend into, if any.
    pub para_id: Option<ParaId>,
}

/// One instruction of an outbound cross-chain message. The asset withdrawn
/// and spent is always the relay-chain currency.
#[derive(Clone, PartialEq, Eq, Debug)]
pub enum Instruction {
    /// Withdraw the given amount from the sending system's sovereign
    /// balance into holding.
    WithdrawAsset { amount: Balance },
    /// Use the assets in holding to buy execution on the remote system.
    BuyExecution { fees: Balance, weight_limit: WeightLimit },
    /// Execute the encoded call on the remote system, under the given
    /// origin kind and within the given weight bound.
    Transact { origin_kind: OriginKind, require_weight_at_most: Weight, call: Vec<u8> },
}

/// An outbound cross-chain message: a sequence of instructions.
#[derive(Clone, PartialEq, Eq, Debug)]
pub struct Xcm {
    /// The instructions, executed in order by the receiving system.
    pub instructions: Vec<Instruction>,
}

/// Failure to dispatch an order: it could not be handed to the transport.
/// Non-fatal; the scheduler logs it and continues.
#[derive(Clone, Copy, PartialEq, Eq, Structural, Debug)]
pub struct DispatchFailure;

/// Conservative upper bound on the computational time of the remote
/// order-creation call, in picoseconds.
pub const ORDER_CALL_REF_TIME: u64 = 100_000_000;

/// Conservative upper bound on the proof size of the remote order-creation
/// call, in bytes.
pub const ORDER_CALL_PROOF_SIZE: u64 = 10_000;

/// The fixed declared weight bound for the remote order-creation call.
/// A conservative fixed upper bound is used rather than metering actual
/// remote execution, because the true remote cost is unobservable locally.
pub open spec fn order_call_weight() -> Weight {
    Weight { ref_time: ORDER_CALL_REF_TIME, proof_size: ORDER_CALL_PROOF_SIZE }
}

/// The message dispatched for one order: withdraw the fee from the sending
/// system's sovereign balance, buy execution with it, then transact the
/// encoded order-creation call within the declared weight bound.
pub open spec fn is_order_message(message: Xcm, fee: Balance, call: Seq<u8>) -> bool {
    &&& message.instructions@.len() == 3
    &&& message.instructions@[0] == (Instruction::WithdrawAsset { amount: fee })
    &&& message.instructions@[1] == (Instruction::BuyExecution {
        fees: fee,
        weight_limit: WeightLimit::Unlimited,
    })
    &&& (message.instructions@[2] matches Instruction::Transact {
        origin_kind,
        require_weight_at_most,
        call: encoded,
    } && origin_kind == OriginKind::SovereignAccount
        && require_weight_at_most == order_call_weight() && encoded@ == call)
}

/// A strategy converting a weight bound into an execution-fee budget on the
/// coretime marketplace chain. Supplied by the runtime.
pub trait WeightToFee {
    /// The fee charged for a call of the given weight.
    spec fn spec_weight_to_fee(weight: Weight) -> Balance;

    /// Computes the fee for a call of the given weight.
    fn weight_to_fee(weight: &Weight) -> (fee: Balance)
        ensures
            fee == Self::spec_weight_to_fee(*weight),
    ;
}

/// The price charged per unit of `ref_time` by `LinearWeightToFee`.
pub const FEE_PER_REF_TIME: u128 = 1;

/// A linear fee: a fixed price per unit of computational time, ignoring
/// proof size.
pub struct LinearWeightToFee;

impl WeightToFee for LinearWeightToFee {
    open spec fn spec_weight_to_fee(weight: Weight) -> Balance {
        (weight.ref_time * FEE_PER_REF_TIME) as Balance
    }

    fn weight_to_fee(weight: &Weight) -> (fee: Balance) {
        (weight.ref_time as u128) * FEE_PER_REF_TIME
    }
}

/// A type able to dispatch Coretime orders to the coretime marketplace
/// chain. Every dispatcher records the orders whose dispatch it attempted,
/// whether or not the attempt succeeded.
pub trait OrderDispatcher {
    /// The requirements of every order whose dispatch was attempted, in
    /// order of attempt.
    spec fn attempted(&self) -> Seq<OrderRequirements>;

    /// Whether dispatching the given order from the current state
    /// succeeds.
    spec fn succeeds(&self, requirements: OrderRequirements) -> bool;

    /// Constructs the order based on the requirements and dispatches it to
    /// the coretime marketplace chain. Exactly one attempt is recorded,
    /// whatever the result.
    fn dispatch(&mut self, requirements: OrderRequirements) -> (r: Result<(), DispatchFailure>)
        ensures
            final(self).attempted() == old(self).attempted().push(requirements),
            r is Ok <==> old(self).succeeds(requirements),
    ;
}

/// The default dispatcher: encodes the order-creation call through the
/// supplied encoder, computes the execution-fee budget for the fixed
/// declared weight bound through the supplied fee strategy, assembles the
/// outbound message and enqueues it for the configured destination.
pub struct DefaultOrderDispatcher<E: CallEncoder, W: WeightToFee> {
    /// The location of the coretime marketplace chain to which the orders
    /// are sent.
    pub destination: Location,
    /// The outbound message queue, oldest first. Successful enqueue is the
    /// only locally observable outcome of a dispatch.
    pub queue: Vec<(Location, Xcm)>,
    /// The requirements of every attempted order, in order of attempt.
    pub attempted_orders: Ghost<Seq<OrderRequirements>>,
    /// The injected encoding and fee strategies.
    pub strategies: PhantomData<(E, W)>,
}

impl<E: CallEncoder, W: WeightToFee> DefaultOrderDispatcher<E, W> {
    /// A dispatcher with an empty outbound queue.
    pub fn new(destination: Location) -> (d: DefaultOrderDispatcher<E, W>)
        ensures
            d.destination == destination,
            d.queue@.len() == 0,
            d.attempted() == Seq::<OrderRequirements>::empty(),
    {
        DefaultOrderDispatcher {
            destination,
            queue: Vec::new(),
            attempted_orders: Ghost(Seq::empty()),
            strategies: PhantomData,
        }
    }
}

impl<E: CallEncoder, W: WeightToFee> OrderDispatcher for DefaultOrderDispatcher<E, W> {
    open spec fn attempted(&self) -> Seq<OrderRequirements> {
        self.attempted_orders@
    }

    /// Local enqueue always succeeds.
    open spec fn succeeds(&self, requirements: OrderRequirements) -> bool {
        true
    }

    fn dispatch(&mut self, requirements: OrderRequirements) -> (r: Result<(), DispatchFailure>)
        ensures
            r is Ok,
            final(self).destination == old(self).destination,
            final(self).queue@.len() == old(self).queue@.len() + 1,
            final(self).queue@ == old(self).queue@.push(final(self).queue@.last()),
            final(self).queue@.last().0 == old(self).destination,
            is_order_message(
                final(self).queue@.last().1,
                W::spec_weight_to_fee(order_call_weight()),
                E::spec_order_creation_call(requirements),
            ),
    {
        let call = E::order_creation_call(requirements);
        let call_weight = Weight {
            ref_time: ORDER_CALL_REF_TIME,
            proof_size: ORDER_CALL_PROOF_SIZE,
        };
        let fee = W::weight_to_fee(&call_weight);
        let mut instructions: Vec<Instruction> = Vec::new();
        instructions.push(Instruction::WithdrawAsset { amount: fee });
        instructions.push(Instruction::BuyExecution {
            fees: fee,
            weight_limit: WeightLimit::Unlimited,
        });
        instructions.push(Instruction::Transact {
            origin_kind: OriginKind::SovereignAccount,
            require_weight_at_most: call_weight,
            call,
        });
        let message = Xcm { instructions };
        let destination = self.destination;
        self.queue.push((destination, message));
        self.attempted_orders = Ghost(self.attempted_orders@.push(requirements));
        Ok(())
    }
}

/// A dispatcher that records every attempt and succeeds or fails as
/// instructed: an in-memory stand-in for a transport that may reject
/// messages.
pub struct RecordingDispatcher {
    /// The requirements of every attempted order, in order of attempt.
    pub attempts: Vec<OrderRequirements>,
    /// Whether dispatch attempts should fail.
    pub should_fail: bool,
}

impl RecordingDispatcher {
    /// A dispatcher with no recorded attempts.
    pub fn new(should_fail: bool) -> (d: RecordingDispatcher)
        ensures
            d.attempts@.len() == 0,
            d.should_fail == should_fail,
    {
        RecordingDispatcher { attempts: Vec::new(), should_fail }
    }
}

impl OrderDispatcher for RecordingDispatcher {
    open spec fn attempted(&self) -> Seq<OrderRequirements> {
        self.attempts@
    }

    /// Succeeds unless instructed to fail.
    open spec fn succeeds(&self, requirements: OrderRequirements) -> bool {
        !self.should_fail
    }

    fn dispatch(&mut self, requirements: OrderRequirements) -> (r: Result<(), DispatchFailure>)
        ensures
            final(self).should_fail == old(self).should_fail,
    {
        self.attempts.push(requirements);
        if self.should_fail {
            Err(DispatchFailure)
        } else {
            Ok(())
        }
    }
}

} // verus!
