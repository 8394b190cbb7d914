use crate::cancel::CancelToken;
use crate::error::Error;
use crate::hashing::{block_digest, calculate_hash, fresh_id, now_seconds};
use vstd::prelude::*;
use vstd::string::*;

verus! {

/// A ledger entry: immutable once made.
#[derive(Debug, Clone)]
pub struct Block {
    /// Globally unique identifier (the 128 bits of a UUID).
    pub id: u128,
    /// Creation time in seconds since the Unix epoch; informational only.
    pub timestamp: i64,
    /// Opaque payload.
    pub data: String,
    /// Hash of the block this one extends.
    pub previous_hash: String,
    /// Proof-of-work output, a lowercase hex digest.
    pub hash: String,
    /// The value that produced `hash` together with `id`, `data` and `previous_hash`.
    pub nonce: u64,
}

/// The mathematical content of a [`Block`].
pub struct BlockView {
    pub id: u128,
    pub timestamp: i64,
    pub data: Seq<char>,
    pub previous_hash: Seq<char>,
    pub hash: Seq<char>,
    pub nonce: u64,
}

impl View for Block {
    type V = BlockView;

    open spec fn view(&self) -> BlockView {
        BlockView {
            id: self.id,
            timestamp: self.timestamp,
            data: self.data@,
            previous_hash: self.previous_hash@,
            hash: self.hash@,
            nonce: self.nonce,
        }
    }
}

impl Block {
    /// A copy of this block, field by field.
    pub fn duplicate(&self) -> (r: Block)
        ensures
            r@ == self@,
    {
        Block {
            id: self.id,
            timestamp: self.timestamp,
            data: self.data.clone(),
            previous_hash: self.previous_hash.clone(),
            hash: self.hash.clone(),
            nonce: self.nonce,
        }
    }
}

/// A block still without its nonce and hash: the input of the nonce search.
#[derive(Debug, Clone)]
pub struct BlockCandidate {
    pub id: u128,
    pub timestamp: i64,
    pub data: String,
    pub previous_hash: String,
}

/// The difficulty prefix that every admitted hash begins with.
pub open spec fn difficulty_prefix() -> Seq<char> {
    seq!['6', '7', '6', '7']
}

/// Whether a hash begins with the difficulty prefix.
pub open spec fn has_prefix(hash: Seq<char>) -> bool {
    hash.len() >= 4 && hash.subrange(0, 4) == difficulty_prefix()
}

/// The digest recomputed from a block's own fields.
pub open spec fn digest_of(b: BlockView) -> Seq<char> {
    block_digest(b.id, b.data, b.previous_hash, b.nonce)
}

/// The per-block invariant: the hash carries the prefix and is the block's digest.
pub open spec fn proof_of_work_ok(b: BlockView) -> bool {
    has_prefix(b.hash) && b.hash == digest_of(b)
}

/// The outcome of the admission rule, its checks taken in order.
pub open spec fn admission(chain: Seq<BlockView>, b: BlockView) -> Result<(), Error> {
    if chain.len() == 0 {
        Err(Error::OutOfBounds)
    } else if b.previous_hash != chain.last().hash {
        Err(Error::InvalidHash)
    } else if !has_prefix(b.hash) {
        Err(Error::InvalidPrefix)
    } else if b.hash != digest_of(b) {
        Err(Error::InvalidHash)
    } else {
        Ok(())
    }
}

/// The ledger invariants: a genesis block whose hash has the prefix, each
/// later block linked to the one before it and carrying a valid proof of work.
pub open spec fn ledger_wf(chain: Seq<BlockView>) -> bool {
    &&& chain.len() >= 1
    &&& has_prefix(chain[0].hash)
    &&& forall|i: int|
        1 <= i < chain.len() ==> {
            &&& #[trigger] chain[i].previous_hash == chain[i - 1].hash
            &&& proof_of_work_ok(chain[i])
        }
}

/// The block a search yields for a candidate at a given nonce.
pub open spec fn mined(c: BlockCandidate, nonce: u64) -> BlockView {
    BlockView {
        id: c.id,
        timestamp: c.timestamp,
        data: c.data@,
        previous_hash: c.previous_hash@,
        hash: block_digest(c.id, c.data@, c.previous_hash@, nonce),
        nonce,
    }
}

/// Whether a nonce solves the puzzle for a candidate.
pub open spec fn solves(c: BlockCandidate, nonce: u64) -> bool {
    has_prefix(block_digest(c.id, c.data@, c.previous_hash@, nonce))
}

/// Whether a string begins with the difficulty prefix.
pub fn starts_with_prefix(hash: &str) -> (r: bool)
    ensures
        r == has_prefix(hash@),
{
    if hash.unicode_len() < 4 {
        return false;
    }
    let r = hash.get_char(0) == '6' && hash.get_char(1) == '7' && hash.get_char(2) == '6'
        && hash.get_char(3) == '7';
    assert(r == (hash@.subrange(0, 4) =~= difficulty_prefix()));
    r
}

/// The proof-of-work check of a block's fields: `InvalidPrefix` where the
/// hash lacks the prefix, else `InvalidHash` where it is not the recomputed
/// digest.
pub fn check_prefix(id: u128, data: &str, hash: &str, previous_hash: &str, nonce: u64) -> (r:
    Result<(), Error>)
    ensures
        !has_prefix(hash@) ==> r == Err::<(), Error>(Error::InvalidPrefix),
        has_prefix(hash@) && hash@ != block_digest(id, data@, previous_hash@, nonce) ==> r == Err::<
            (),
            Error,
        >(Error::InvalidHash),
        has_prefix(hash@) && hash@ == block_digest(id, data@, previous_hash@, nonce) ==> r is Ok,
{
    if starts_with_prefix(hash) {
        let recalc = calculate_hash(id, data, previous_hash, nonce);
        if recalc != hash.to_owned() {
            return Err(Error::InvalidHash);
        }
        Ok(())
    } else {
        Err(Error::InvalidPrefix)
    }
}

/// The ledger: an append-only sequence of blocks, genesis first.
pub struct BlockState {
    blocks: Vec<Block>,
}

impl View for BlockState {
    type V = Seq<BlockView>;

    closed spec fn view(&self) -> Seq<BlockView> {
        self.blocks@.map_values(|b: Block| b@)
    }
}

/// Appending an admitted block keeps the ledger invariants.
pub proof fn lemma_admit_keeps_wf(chain: Seq<BlockView>, b: BlockView)
    requires
        ledger_wf(chain),
        admission(chain, b) is Ok,
    ensures
        ledger_wf(chain.push(b)),
{
    let next = chain.push(b);
    assert forall|i: int| 1 <= i < next.len() implies {
        &&& #[trigger] next[i].previous_hash == next[i - 1].hash
        &&& proof_of_work_ok(next[i])
    } by {
        if i < chain.len() {
            assert(next[i] == chain[i]);
            assert(next[i - 1] == chain[i - 1]);
        }
    }
}

/// Any run of successful admissions on a well-formed ledger (genesis, or
/// genesis and earlier admissions) keeps every ledger invariant, and only
/// appends: the earlier blocks stay where they were.
pub proof fn lemma_admissions_keep_ledger_wf(chain: Seq<BlockView>, added: Seq<BlockView>)
    requires
        ledger_wf(chain),
        forall|i: int|
            0 <= i < added.len() ==> #[trigger] admission(chain + added.take(i), added[i]) is Ok,
    ensures
        ledger_wf(chain + added),
        (chain + added).take(chain.len() as int) == chain,
    decreases added.len(),
{
    assert((chain + added).take(chain.len() as int) =~= chain);
    if added.len() > 0 {
        let init = added.drop_last();
        assert forall|i: int| 0 <= i < init.len() implies #[trigger] admission(
            chain + init.take(i),
            init[i],
        ) is Ok by {
            assert(init.take(i) =~= added.take(i));
            assert(admission(chain + added.take(i), added[i]) is Ok);
        }
        lemma_admissions_keep_ledger_wf(chain, init);
        let last_i = init.len() as int;
        assert(added.take(last_i) =~= init);
        assert(admission(chain + added.take(last_i), added[last_i]) is Ok);
        lemma_admit_keeps_wf(chain + init, added.last());
        assert(chain + added =~= (chain + init).push(added.last()));
    }
}

/// A block found by the search for a candidate that extends the tip is
/// admitted against that tip.
pub proof fn lemma_mined_block_admissible(chain: Seq<BlockView>, c: BlockCandidate, nonce: u64)
    requires
        chain.len() > 0,
        c.previous_hash@ == chain.last().hash,
        solves(c, nonce),
    ensures
        proof_of_work_ok(mined(c, nonce)),
        admission(chain, mined(c, nonce)) is Ok,
{
}

/// Submitting an admitted block a second time fails with `InvalidHash` (its
/// previous hash is no longer the tip's), so the ledger keeps its length;
/// this needs the block's hash to differ from its previous hash.
pub proof fn lemma_resubmission_rejected(chain: Seq<BlockView>, b: BlockView)
    requires
        admission(chain, b) is Ok,
        b.hash != b.previous_hash,
    ensures
        admission(chain.push(b), b) == Err::<(), Error>(Error::InvalidHash),
{
    assert(chain.push(b).last() == b);
}

impl BlockState {
    /// An empty ledger; `create_genesis_block` must come next.
    pub fn new() -> (r: BlockState)
        ensures
            r@.len() == 0,
    {
        BlockState { blocks: Vec::new() }
    }

    /// Seeds the empty ledger with the fixed genesis block, whose hash is a
    /// constant that carries the prefix and is not a mined digest.
    pub fn create_genesis_block(&mut self)
        requires
            old(self)@.len() == 0,
        ensures
            final(self)@.len() == 1,
            ledger_wf(final(self)@),
            final(self)@[0].hash == "676700000000000000000000000000000000000000000000000000000000000"@,
            final(self)@[0].data == "DAPProptech is the way"@,
            final(self)@[0].previous_hash == "0"@,
            final(self)@[0].nonce == 3694,
    {
        let hash = String::from_str("676700000000000000000000000000000000000000000000000000000000000");
        proof {
            reveal_strlit("676700000000000000000000000000000000000000000000000000000000000");
            assert(hash@.subrange(0, 4) =~= difficulty_prefix());
        }
        let genesis = Block {
            id: fresh_id(),
            timestamp: now_seconds(),
            data: String::from_str("DAPProptech is the way"),
            previous_hash: String::from_str("0"),
            hash,
            nonce: 3694,
        };
        self.blocks.push(genesis);
        assert(self@ =~= seq![genesis@]);
    }

    /// The number of blocks.
    pub fn len(&self) -> (r: usize)
        ensures
            r == self@.len(),
    {
        self.blocks.len()
    }

    /// The last admitted block.
    pub fn tip(&self) -> (r: &Block)
        requires
            self@.len() > 0,
        ensures
            r@ == self@.last(),
    {
        &self.blocks[self.blocks.len() - 1]
    }

    /// The block at a height, if the ledger is that long.
    pub fn get(&self, height: u64) -> (r: Option<&Block>)
        ensures
            height < self@.len() ==> (r matches Some(b) && b@ == self@[height as int]),
            height >= self@.len() ==> r is None,
    {
        if height < self.blocks.len() as u64 {
            Some(&self.blocks[height as usize])
        } else {
            None
        }
    }

    /// `InvalidHash` unless `hash` is the tip's hash.
    pub fn compare_hash(&self, hash: &str) -> (r: Result<(), Error>)
        requires
            self@.len() > 0,
        ensures
            self@.last().hash == hash@ ==> r is Ok,
            self@.last().hash != hash@ ==> r == Err::<(), Error>(Error::InvalidHash),
    {
        if self.blocks[self.blocks.len() - 1].hash != hash.to_owned() {
            return Err(Error::InvalidHash);
        }
        Ok(())
    }

    /// Admits a block that extends the tip with a valid proof of work; a
    /// rejected block leaves the ledger as it was.
    pub fn add_block(&mut self, block: Block) -> (r: Result<(), Error>)
        ensures
            r == admission(old(self)@, block@),
            r is Ok ==> final(self)@ == old(self)@.push(block@),
            r is Err ==> final(self)@ == old(self)@,
            ledger_wf(old(self)@) ==> ledger_wf(final(self)@),
            old(self)@.len() == 0 ==> r == Err::<(), Error>(Error::OutOfBounds),
            old(self)@.len() > 0 && block@.previous_hash != old(self)@.last().hash ==> r == Err::<
                (),
                Error,
            >(Error::InvalidHash),
            old(self)@.len() > 0 && block@.previous_hash == old(self)@.last().hash && !has_prefix(
                block@.hash,
            ) ==> r == Err::<(), Error>(Error::InvalidPrefix),
            old(self)@.len() > 0 && has_prefix(block@.hash) && block@.hash != digest_of(block@)
                ==> r is Err && r == Err::<(), Error>(Error::InvalidHash),
    {
        if self.blocks.len() == 0 {
            return Err(Error::OutOfBounds);
        }
        match self.compare_hash(block.previous_hash.as_str()) {
            Err(e) => {
                return Err(e);
            },
            Ok(()) => {},
        }
        match check_prefix(
            block.id,
            block.data.as_str(),
            block.hash.as_str(),
            block.previous_hash.as_str(),
            block.nonce,
        ) {
            Err(e) => {
                return Err(e);
            },
            Ok(()) => {},
        }
        proof {
            if ledger_wf(old(self)@) {
                lemma_admit_keeps_wf(old(self)@, block@);
            }
        }
        self.blocks.push(block);
        assert(self@ =~= old(self)@.push(block@));
        Ok(())
    }

    /// A candidate that extends the tip with the given payload, under a fresh
    /// identifier and the current time.
    pub fn next_candidate(&self, data: String) -> (r: BlockCandidate)
        requires
            self@.len() > 0,
        ensures
            r.previous_hash@ == self@.last().hash,
            r.data@ == data@,
    {
        BlockCandidate {
            id: fresh_id(),
            timestamp: now_seconds(),
            data,
            previous_hash: self.blocks[self.blocks.len() - 1].hash.clone(),
        }
    }
}

/// Nonces are tried in batches of this size between two looks at the token.
pub const SEARCH_BATCH: u64 = 4096;

/// Tries the nonces `start .. start + count` in increasing order and yields
/// the block of the first one that solves the puzzle.
pub fn search_nonces(candidate: &BlockCandidate, start: u64, count: u64) -> (r: Option<Block>)
    requires
        start + count <= u64::MAX + 1,
    ensures
        match r {
            Some(b) => {
                &&& start <= b.nonce < start + count
                &&& b@ == mined(*candidate, b.nonce)
                &&& solves(*candidate, b.nonce)
                &&& forall|n: u64| start <= n < b.nonce ==> !#[trigger] solves(*candidate, n)
            },
            None => forall|n: u64| start <= n < start + count ==> !#[trigger] solves(*candidate, n),
        },
{
    let mut i: u64 = 0;
    while i < count
        invariant
            i <= count,
            start + count <= u64::MAX + 1,
            forall|n: u64| start <= n < start + i ==> !#[trigger] solves(*candidate, n),
        decreases count - i,
    {
        let nonce = start + i;
        let hash = calculate_hash(
            candidate.id,
            candidate.data.as_str(),
            candidate.previous_hash.as_str(),
            nonce,
        );
        if starts_with_prefix(hash.as_str()) {
            return Some(
                Block {
                    id: candidate.id,
                    timestamp: candidate.timestamp,
                    data: candidate.data.clone(),
                    previous_hash: candidate.previous_hash.clone(),
                    hash,
                    nonce,
                },
            );
        }
        i = i + 1;
    }
    None
}

/// The proof-of-work search: from nonce 0 upward, the first nonce whose
/// digest carries the prefix. The token is looked at before each batch of
/// nonces; once it is seen signalled the search yields nothing. It also yields
/// nothing where no 64-bit nonce solves the candidate.
pub fn mine_block(candidate: BlockCandidate, token: &CancelToken) -> (r: Option<Block>)
    ensures
        r matches Some(b) ==> {
            &&& b@ == mined(candidate, b.nonce)
            &&& solves(candidate, b.nonce)
            &&& proof_of_work_ok(b@)
            &&& forall|n: u64| n < b.nonce ==> !#[trigger] solves(candidate, n)
        },
{
    let mut next: u64 = 0;
    loop
        invariant
            forall|n: u64| n < next ==> !#[trigger] solves(candidate, n),
        decreases u64::MAX - next,
    {
        if token.is_cancelled() {
            return None;
        }
        let remaining = u64::MAX - next;
        let count = if remaining < SEARCH_BATCH {
            remaining + 1
        } else {
            SEARCH_BATCH
        };
        match search_nonces(&candidate, next, count) {
            Some(b) => {
                return Some(b);
            },
            None => {},
        }
        if remaining < SEARCH_BATCH {
            assert forall|n: u64| !#[trigger] solves(candidate, n) by {
                if n >= next {
                    assert(n < next + count);
                }
            }
            return None;
        }
        next = next + SEARCH_BATCH;
    }
}

} // verus!
