//! Block ingestion for a blockchain node.
//!
//! Headers and blocks reach a node from its own leader task, from peers that
//! announce a header, from peers that push a block, and as the answer to a
//! pull of headers. For each of these sources this crate holds the decisions
//! of the flow that takes the input in: what to ask of the chain index next,
//! what to hand to the network task, and how the flow ends.
//!
//! The chain index, the consensus rules and the stream of headers suspend the
//! caller, so a flow does not call them. It is a function from its state and
//! the reply to its last request to the next state and the next request; the
//! caller carries the request out and comes back with the reply. Handing a
//! message to the network task never suspends, and the flow does that itself.

pub mod announcement;
pub mod chain;
pub mod classifier;
pub mod collaborator;
pub mod error;
pub mod header_chain;
pub mod leadership;
pub mod network;
pub mod network_block;

pub use announcement::{process_block_announcement, AnnouncementState};
pub use chain::{Block, Branch, Header, HeaderHash, PostCheckedHeader, Ref};
pub use classifier::{pre_check_header, PreCheckedHeader};
pub use collaborator::{Reply, Request};
pub use error::{Error, Failure};
pub use header_chain::{process_chain_headers_into_block_request, HeaderChainState};
pub use leadership::{process_leadership_block, LeadershipState};
pub use network::{MessageBox, NetworkMsg, NodeId, SendOutcome};
pub use network_block::{process_network_block, NetworkBlockState};
