use crate::block::{admission, ledger_wf, Block, BlockState, BlockView};
use crate::error::Error;
use vstd::prelude::*;

verus! {

/// A point-to-point catch-up request.
#[derive(Debug, Clone, Copy, PartialEq, Eq)]
pub enum BlockRequest {
    /// Asks for the block at a height (0 is genesis).
    GetBlock(u64),
}

/// The answer to a catch-up request.
#[derive(Debug, Clone)]
pub enum BlockResponse {
    FoundBlock(Block),
    BlockNotFound(u64),
}

/// What the caller of a [`Node`] must do after an event. `P` identifies a peer.
pub struct Reaction<P> {
    /// Broadcast this block to all peers.
    pub publish: Option<Block>,
    /// Cancel the search in flight and start one on the new tip, under the
    /// node's new round.
    pub restart: bool,
    /// Send this catch-up request to this peer.
    pub request: Option<(P, BlockRequest)>,
    /// Report this admission failure.
    pub failure: Option<Error>,
    /// Report that the peer had no block at this height; catch-up stops.
    pub not_found: Option<u64>,
}

impl<P> Reaction<P> {
    /// The reaction that asks for nothing.
    pub fn idle() -> (r: Reaction<P>)
        ensures
            r.publish is None,
            !r.restart,
            r.request is None,
            r.failure is None,
            r.not_found is None,
    {
        Reaction { publish: None, restart: false, request: None, failure: None, not_found: None }
    }
}

/// The single owner of a ledger: it decides, event by event, what is admitted,
/// which search result counts, and which catch-up request goes out next.
pub struct Node {
    ledger: BlockState,
    pending: Option<u64>,
    search: u64,
}

impl Node {
    /// The blocks of the ledger.
    pub closed spec fn chain(&self) -> Seq<BlockView> {
        self.ledger@
    }

    /// The height of the outstanding catch-up request, if any.
    pub closed spec fn pending(&self) -> Option<u64> {
        self.pending
    }

    /// The round of the one search whose result the node accepts.
    pub closed spec fn spec_round(&self) -> u64 {
        self.search
    }

    /// The node's invariant: a well-formed ledger, and no catch-up request
    /// beyond its length.
    pub closed spec fn wf(&self) -> bool {
        &&& ledger_wf(self.ledger@)
        &&& self.pending matches Some(h) ==> h <= self.ledger@.len()
    }

    /// A node whose ledger holds only genesis; its first search has round 1.
    pub fn new() -> (r: Node)
        ensures
            r.wf(),
            r.chain().len() == 1,
            r.pending() is None,
            r.spec_round() == 1,
    {
        let mut ledger = BlockState::new();
        ledger.create_genesis_block();
        Node { ledger, pending: None, search: 1 }
    }

    pub fn ledger(&self) -> (r: &BlockState)
        ensures
            r@ == self.chain(),
    {
        &self.ledger
    }

    pub fn round(&self) -> (r: u64)
        ensures
            r == self.spec_round(),
    {
        self.search
    }

    pub fn pending_height(&self) -> (r: Option<u64>)
        ensures
            r == self.pending(),
    {
        self.pending
    }

    /// Abandons the search in flight without any change of tip: its result
    /// will be discarded. Returns the round of the search to start instead.
    pub fn begin_search(&mut self) -> (r: u64)
        requires
            old(self).spec_round() < u64::MAX,
        ensures
            r == old(self).spec_round() + 1,
            final(self).spec_round() == r,
            final(self).chain() == old(self).chain(),
            final(self).pending() == old(self).pending(),
            old(self).wf() ==> final(self).wf(),
    {
        self.search = self.search + 1;
        self.search
    }

    /// A block that the search of `round` found. Only the current round's
    /// result is offered to the ledger; any other is discarded unseen. Once
    /// admitted, the block is to be broadcast and the search restarted.
    pub fn on_mined<P>(&mut self, round: u64, block: Block) -> (r: Reaction<P>)
        requires
            old(self).wf(),
            old(self).spec_round() < u64::MAX,
        ensures
            final(self).wf(),
            final(self).pending() == old(self).pending(),
            r.request is None,
            r.not_found is None,
            round != old(self).spec_round() ==> {
                &&& final(self).chain() == old(self).chain()
                &&& final(self).spec_round() == old(self).spec_round()
                &&& r.publish is None && !r.restart && r.failure is None
            },
            round == old(self).spec_round() && admission(old(self).chain(), block@) is Ok ==> {
                &&& final(self).chain() == old(self).chain().push(block@)
                &&& final(self).spec_round() == old(self).spec_round() + 1
                &&& r.publish matches Some(p) && p@ == block@
                &&& r.restart && r.failure is None
            },
            round == old(self).spec_round() && admission(old(self).chain(), block@) is Err ==> {
                &&& final(self).chain() == old(self).chain()
                &&& final(self).spec_round() == old(self).spec_round()
                &&& r.publish is None && !r.restart
                &&& r.failure == Some(admission(old(self).chain(), block@)->Err_0)
            },
    {
        let mut r = Reaction::idle();
        if round != self.search {
            return r;
        }
        let copy = block.duplicate();
        match self.ledger.add_block(block) {
            Ok(()) => {
                self.search = self.search + 1;
                r.publish = Some(copy);
                r.restart = true;
            },
            Err(e) => {
                r.failure = Some(e);
            },
        }
        r
    }

    /// A block broadcast by a peer. If admitted, the search restarts; if not,
    /// and the origin is known, the node asks that peer for the block at its
    /// own length, the first height it lacks.
    pub fn on_broadcast<P>(&mut self, origin: Option<P>, block: Block) -> (r: Reaction<P>)
        requires
            old(self).wf(),
            old(self).spec_round() < u64::MAX,
        ensures
            final(self).wf(),
            r.publish is None,
            r.not_found is None,
            admission(old(self).chain(), block@) is Ok ==> {
                &&& final(self).chain() == old(self).chain().push(block@)
                &&& final(self).spec_round() == old(self).spec_round() + 1
                &&& final(self).pending() == old(self).pending()
                &&& r.restart && r.request is None && r.failure is None
            },
            admission(old(self).chain(), block@) is Err ==> {
                &&& final(self).chain() == old(self).chain()
                &&& final(self).spec_round() == old(self).spec_round()
                &&& !r.restart
                &&& r.failure == Some(admission(old(self).chain(), block@)->Err_0)
            },
            admission(old(self).chain(), block@) is Err && origin is Some ==> {
                &&& r.request == Some(
                    (origin->Some_0, BlockRequest::GetBlock(old(self).chain().len() as u64)),
                )
                &&& final(self).pending() == Some(old(self).chain().len() as u64)
            },
            admission(old(self).chain(), block@) is Err && origin is None ==> {
                &&& r.request is None
                &&& final(self).pending() == old(self).pending()
            },
    {
        let mut r = Reaction::idle();
        match self.ledger.add_block(block) {
            Ok(()) => {
                self.search = self.search + 1;
                r.restart = true;
            },
            Err(e) => {
                r.failure = Some(e);
                match origin {
                    Some(peer) => {
                        let height = self.ledger.len() as u64;
                        self.pending = Some(height);
                        r.request = Some((peer, BlockRequest::GetBlock(height)));
                    },
                    None => {},
                }
            },
        }
        r
    }

    /// A peer's answer to a catch-up request. An admitted block restarts the
    /// search and asks the same peer for the next height; a rejected block or
    /// a missing one ends this catch-up.
    pub fn on_response<P>(&mut self, peer: P, response: BlockResponse) -> (r: Reaction<P>)
        requires
            old(self).wf(),
            old(self).spec_round() < u64::MAX,
        ensures
            final(self).wf(),
            r.publish is None,
            old(self).pending() is Some && r.request is Some ==> r.request->Some_0.1->GetBlock_0
                > old(self).pending()->Some_0,
            match response {
                BlockResponse::FoundBlock(b) => {
                    &&& r.not_found is None
                    &&& admission(old(self).chain(), b@) is Ok ==> {
                        &&& final(self).chain() == old(self).chain().push(b@)
                        &&& final(self).spec_round() == old(self).spec_round() + 1
                        &&& final(self).pending() == Some(final(self).chain().len() as u64)
                        &&& r.request == Some(
                            (peer, BlockRequest::GetBlock(final(self).chain().len() as u64)),
                        )
                        &&& r.restart && r.failure is None
                    }
                    &&& admission(old(self).chain(), b@) is Err ==> {
                        &&& final(self).chain() == old(self).chain()
                        &&& final(self).spec_round() == old(self).spec_round()
                        &&& final(self).pending() is None
                        &&& r.request is None && !r.restart
                        &&& r.failure == Some(admission(old(self).chain(), b@)->Err_0)
                    }
                },
                BlockResponse::BlockNotFound(h) => {
                    &&& final(self).chain() == old(self).chain()
                    &&& final(self).spec_round() == old(self).spec_round()
                    &&& final(self).pending() is None
                    &&& r.request is None && !r.restart && r.failure is None
                    &&& r.not_found == Some(h)
                },
            },
    {
        let mut r = Reaction::idle();
        match response {
            BlockResponse::FoundBlock(block) => {
                match self.ledger.add_block(block) {
                    Ok(()) => {
                        self.search = self.search + 1;
                        let height = self.ledger.len() as u64;
                        assert(height == old(self).ledger@.len() + 1);
                        self.pending = Some(height);
                        r.restart = true;
                        r.request = Some((peer, BlockRequest::GetBlock(height)));
                    },
                    Err(e) => {
                        self.pending = None;
                        r.failure = Some(e);
                    },
                }
            },
            BlockResponse::BlockNotFound(h) => {
                self.pending = None;
                r.not_found = Some(h);
            },
        }
        r
    }

    /// Serves a peer's catch-up request from the ledger.
    pub fn on_request(&self, request: BlockRequest) -> (r: BlockResponse)
        ensures
            match request {
                BlockRequest::GetBlock(h) => if h < self.chain().len() {
                    r matches BlockResponse::FoundBlock(b) && b@ == self.chain()[h as int]
                } else {
                    r == BlockResponse::BlockNotFound(h)
                },
            },
    {
        match request {
            BlockRequest::GetBlock(h) => match self.ledger.get(h) {
                Some(b) => BlockResponse::FoundBlock(b.duplicate()),
                None => BlockResponse::BlockNotFound(h),
            },
        }
    }
}

} // verus!
