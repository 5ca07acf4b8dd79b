//! Client-side request compilation and session rules for a replicated,
//! revision-versioned key-value coordination service.
//!
//! The crate turns option values into wire-level request messages, guards the
//! order in which a compare-and-branch transaction is assembled, and decides
//! how the watch and lease keep-alive sessions react to what their duplex
//! streams deliver. Every function carries a contract over the mathematical
//! view of its arguments.

pub mod byte_sequence;
pub mod client;
pub mod error;
pub mod factory;
pub mod kv;
pub mod lease;
pub mod namespace;
pub mod options;
pub mod order;
pub mod transport;
pub mod txn;
pub mod watch;
pub mod wire;

pub use byte_sequence::ByteSequence;
pub use error::Error;
pub use factory::DefaultClientFactory;
pub use lease::{KeepAliveSession, KeepAliveState};
pub use options::client::{ClientOptions, ClientOptionsBuilder};
pub use options::compact::{CompactOptions, CompactOptionsBuilder};
pub use options::delete::{DeleteOptions, DeleteOptionsBuilder};
pub use options::get::{GetOptions, GetOptionsBuilder};
pub use options::kv::{KVOptions, KVOptionsBuilder};
pub use options::lease::grant::{GrantOptions, GrantOptionsBuilder};
pub use options::lease::{
    LeaseOptions, LeaseOptionsBuilder, TimeToLiveOptions, TimeToLiveOptionsBuilder,
};
pub use options::put::{PutOptions, PutOptionsBuilder};
pub use options::txn::compare::{Compare, CompareBuilder, CompareResult, CompareTarget};
pub use options::txn::op::RequestOp;
pub use options::watch::{
    FilterType, WatchClientOptions, WatchClientOptionsBuilder, WatchCreateOptions,
    WatchCreateOptionsBuilder, WatchRequestType,
};
pub use options::{NamespaceBuilder, Namespaceable};
pub use txn::{DefaultTxn, TxnPhase};
pub use watch::{WatchAck, WatchSession, WatchState};
pub use wire::{SortOrder, SortTarget};
