use std::sync::atomic::{AtomicBool, Ordering};
use std::sync::Arc;
use vstd::prelude::*;

verus! {

/// Abandons one particular search: each search gets a token of its own, and
/// cancelling sets the very flag that the search's worker reads.
#[derive(Debug, Clone)]
pub struct CancelToken {
    round: u64,
    flag: Arc<AtomicBool>,
}

impl CancelToken {
    /// The round this token was minted for; no two tokens of one node share it.
    pub closed spec fn spec_round(&self) -> u64 {
        self.round
    }

    /// A fresh, uncancelled token for the given round.
    pub fn new(round: u64) -> (r: CancelToken)
        ensures
            r.spec_round() == round,
    {
        CancelToken { round, flag: Arc::new(AtomicBool::new(false)) }
    }

    pub fn round(&self) -> (r: u64)
        ensures
            r == self.spec_round(),
    {
        self.round
    }

    /// Signals every holder of this token (clones share the flag).
    pub fn cancel(&self) {
        self.flag.store(true, Ordering::SeqCst);
    }

    /// Whether the token has been signalled; another thread may signal it at
    /// any moment, so nothing is promised of the answer.
    pub fn is_cancelled(&self) -> bool {
        self.flag.load(Ordering::SeqCst)
    }
}

/// Cancels the search that holds `token` and mints the token of the next
/// round, distinct from all before it.
pub fn signal_control(token: CancelToken) -> (r: CancelToken)
    requires
        token.spec_round() < u64::MAX,
    ensures
        r.spec_round() == token.spec_round() + 1,
{
    token.cancel();
    CancelToken::new(token.round + 1)
}

} // verus!
