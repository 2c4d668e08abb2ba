//! A hash-linked ledger of transactions: blocks and their digests, the
//! search that mines new blocks, the check of a chain's links, and the rule
//! that picks between two chains that disagree.

pub mod timestamp;
pub mod encoding;
pub mod digest;
pub mod transaction;
pub mod block;
pub mod mining;
pub mod blockchain;
pub mod node;
pub mod p2p;
pub mod display;
