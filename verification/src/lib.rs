//! Coretime order creation.
//!
//! A timeslice-driven scheduler decides when a parachain should place a
//! renewable, time-bounded Coretime procurement order against a remote
//! coretime marketplace; a dispatcher turns the abstract order parameters
//! into a fee-bearing cross-chain message; and a crowdfunding ledger lets
//! third parties jointly fund such orders, with the invariant that the
//! aggregate recorded for an order always equals the sum of the
//! per-contributor entries.

pub mod dispatcher;
pub mod encoding;
pub mod ledger;
pub mod scheduler;
pub mod types;

pub use crate::encoding::OrderCallEncoder;
pub use crate::ledger::BalanceEntry;
pub use crate::ledger::ContributionEntry;
pub use crate::ledger::Ledger;
pub use crate::ledger::Order;
pub use crate::ledger::TotalEntry;
pub use crate::scheduler::Pallet;
pub use crate::scheduler::SkipReason;
pub use crate::scheduler::TickOutcome;

pub use crate::dispatcher::DefaultOrderDispatcher;
pub use crate::dispatcher::DispatchFailure;
pub use crate::dispatcher::Instruction;
pub use crate::dispatcher::LinearWeightToFee;
pub use crate::dispatcher::Location;
pub use crate::dispatcher::OrderDispatcher;
pub use crate::dispatcher::OriginKind;
pub use crate::dispatcher::RecordingDispatcher;
pub use crate::dispatcher::Weight;
pub use crate::dispatcher::WeightLimit;
pub use crate::dispatcher::WeightToFee;
pub use crate::dispatcher::Xcm;
pub use crate::types::AccountId;
pub use crate::types::AdminOrRoot;
pub use crate::types::Authorizer;
pub use crate::types::Balance;
pub use crate::types::BlockNumber;
pub use crate::types::CallEncoder;
pub use crate::types::ConfigRecord;
pub use crate::types::CoreIndex;
pub use crate::types::Error;
pub use crate::types::Event;
pub use crate::types::GenericRequirements;
pub use crate::types::OrderId;
pub use crate::types::OrderRequirements;
pub use crate::types::Origin;
pub use crate::types::ParaId;
pub use crate::types::PartsOf57600;
pub use crate::types::Perbill;
pub use crate::types::RelayBlockNumber;
pub use crate::types::Timeslice;
