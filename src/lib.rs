//! A replicated, append-only ledger of proof-of-work blocks: the ledger and
//! its admission rule, the cancellable nonce search, and the decisions of the
//! node that keeps peers in step.

pub mod block;
pub mod cancel;
pub mod error;
pub mod hashing;
pub mod sync;
