//! A group-scoped leadership and liveness registry.
//!
//! The registry keeps a dense table of the node identities it has seen, the
//! latest heartbeat of each node, and, per group, the node that currently
//! leads it. Every operation is a deterministic state transition on
//! already-authenticated caller identities and an externally supplied
//! logical clock.

pub mod accounts;
pub mod leadership;
pub mod liveness;
pub mod pallet;
pub mod types;

pub use accounts::{AccountRegistry, AccountsView};
pub use leadership::{Leadership, LeadershipView};
pub use liveness::LivenessTracker;
pub use pallet::{Pallet, PalletView};
pub use types::{BlockNumber, Event, HeartbeatRecord, LeadershipError, NodeId};
