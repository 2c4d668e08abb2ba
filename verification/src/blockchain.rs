use vstd::prelude::*;
use crate::block::{block_views, Block, BlockView};
use crate::digest::is_digest_text;
use crate::mining::{
    candidate, in_failed_round, lemma_candidate_is_mined, mined_from, random_target, round_failed,
    round_miss, search_round,
};
use crate::timestamp::{now, Timestamp};
use crate::transaction::{clone_transactions, transaction_views, Transaction};

verus! {

/// A chain of blocks together with the settings that mining goes by.
#[derive(PartialEq, Debug)]
pub struct Blockchain {
    pub chain: Vec<Block>,
    pub difficulty: usize,
    pub concurrent_hashes: u64,
    pub min_tx_per_block: u8,
}

/// What a ledger holds, as mathematical values.
pub struct BlockchainView {
    pub chain: Seq<BlockView>,
    pub difficulty: nat,
    pub concurrent_hashes: nat,
    pub min_tx_per_block: nat,
}

impl View for Blockchain {
    type V = BlockchainView;

    open spec fn view(&self) -> BlockchainView {
        BlockchainView {
            chain: block_views(self.chain@),
            difficulty: self.difficulty as nat,
            concurrent_hashes: self.concurrent_hashes as nat,
            min_tx_per_block: self.min_tx_per_block as nat,
        }
    }
}

/// Every block but the first names the hash of the block before it.
pub open spec fn links_hold(chain: Seq<BlockView>) -> bool {
    forall|i: int| 1 <= i < chain.len() ==> (#[trigger] chain[i]).prev_hash == chain[i - 1].hash
}

/// The hash that the next block has to name: that of the last block, or
/// the empty text where there is no block.
pub open spec fn tip_hash(chain: Seq<BlockView>) -> Seq<char> {
    if chain.len() == 0 {
        Seq::<char>::empty()
    } else {
        chain.last().hash
    }
}

/// The chain after an attempt to append `block`: the block is taken where
/// the chain has a last block and the block names its hash, and dropped
/// otherwise.
pub open spec fn appended(chain: Seq<BlockView>, block: BlockView) -> Seq<BlockView> {
    if chain.len() > 0 && block.prev_hash == chain.last().hash {
        chain.push(block)
    } else {
        chain
    }
}

/// Appending keeps a linked chain linked, whether the block is taken or
/// dropped.
pub proof fn lemma_append_keeps_links(chain: Seq<BlockView>, block: BlockView)
    requires
        links_hold(chain),
    ensures
        links_hold(appended(chain, block)),
{
}

/// A chain is linked exactly if every two neighbours are: a single broken
/// link anywhere makes the chain invalid.
pub proof fn lemma_broken_link(chain: Seq<BlockView>, i: int)
    requires
        1 <= i < chain.len(),
        chain[i].prev_hash != chain[i - 1].hash,
    ensures
        !links_hold(chain),
{
}

/// Copies a list of blocks, one by one.
pub fn clone_blocks(blocks: &Vec<Block>) -> (copy: Vec<Block>)
    ensures
        block_views(copy@) == block_views(blocks@),
{
    let mut copy: Vec<Block> = Vec::new();
    let mut i: usize = 0;
    while i < blocks.len()
        invariant
            i <= blocks.len(),
            copy@.len() == i,
            forall|k: int| 0 <= k < i ==> (#[trigger] copy@[k])@ == blocks@[k]@,
        decreases blocks.len() - i,
    {
        copy.push(blocks[i].clone());
        i = i + 1;
    }
    assert(block_views(copy@) =~= block_views(blocks@));
    copy
}

impl Clone for Blockchain {
    fn clone(&self) -> (copy: Self)
        ensures
            copy@ == self@,
    {
        Blockchain {
            chain: clone_blocks(&self.chain),
            difficulty: self.difficulty,
            concurrent_hashes: self.concurrent_hashes,
            min_tx_per_block: self.min_tx_per_block,
        }
    }
}

impl Blockchain {
    /// A ledger without blocks, with the given settings.
    pub fn new(min_tx_per_block: u8, difficulty: usize, concurrent_hashes: u64) -> (ledger: Self)
        ensures
            ledger@ == (BlockchainView {
                chain: Seq::<BlockView>::empty(),
                difficulty: difficulty as nat,
                concurrent_hashes: concurrent_hashes as nat,
                min_tx_per_block: min_tx_per_block as nat,
            }),
    {
        let ledger = Blockchain {
            chain: Vec::new(),
            difficulty,
            concurrent_hashes,
            min_tx_per_block,
        };
        assert(ledger@.chain =~= Seq::<BlockView>::empty());
        ledger
    }

    /// The number of blocks.
    pub fn len(&self) -> (n: usize)
        ensures
            n == self@.chain.len(),
    {
        self.chain.len()
    }

    /// Appends `block` if the chain has a last block and `block` names its
    /// hash; otherwise nothing happens. The settings stay.
    pub fn add_block(&mut self, block: Block)
        ensures
            final(self)@ == (BlockchainView {
                chain: appended(old(self)@.chain, block@),
                ..old(self)@
            }),
            old(self)@.chain.len() == 0 ==> final(self)@ == old(self)@,
            old(self)@.chain.len() > 0 ==> (final(self)@.chain.len() == old(self)@.chain.len() + 1
                <==> block@.prev_hash == old(self)@.chain.last().hash),
            final(self)@.chain.len() != old(self)@.chain.len() + 1 ==> final(self)@ == old(
                self,
            )@,
            links_hold(old(self)@.chain) ==> links_hold(final(self)@.chain),
    {
        if self.chain.len() == 0 {
            return;
        }
        let take = block.is_valid(&self.chain[self.chain.len() - 1]);
        if take {
            self.chain.push(block);
            assert(final(self)@.chain =~= old(self)@.chain.push(block@));
        }
    }

    /// Whether every block but the first names the hash of the block
    /// before it. A chain of no block or one block is valid.
    pub fn is_valid(&self) -> (valid: bool)
        ensures
            valid == links_hold(self@.chain),
    {
        let mut i: usize = 1;
        while i < self.chain.len()
            invariant
                1 <= i,
                forall|k: int| 1 <= k < i && k < self@.chain.len() ==> (#[trigger] self@.chain[k]).prev_hash
                    == self@.chain[k - 1].hash,
            decreases self.chain.len() - i,
        {
            if !self.chain[i].is_valid(&self.chain[i - 1]) {
                assert(self@.chain[i as int].prev_hash != self@.chain[i - 1].hash);
                return false;
            }
            i = i + 1;
        }
        true
    }

    /// One round of mining: a fresh random target of `difficulty`
    /// characters is drawn, and the `concurrent_hashes` nonces from `nonce`
    /// on are tried against it on top of the last block's hash. Any block
    /// that meets the target is returned; nothing is returned only where no
    /// nonce of the round meets the target that was drawn.
    ///
    /// At difficulty 0 every hash meets the target, so a round with at least
    /// one nonce finds a block; a round without nonces finds none.
    pub fn mine_block(&self, nonce: u64, time: Timestamp, txs: Vec<Transaction>) -> (found: Option<
        Block,
    >)
        requires
            nonce + self.concurrent_hashes <= u64::MAX,
        ensures
            found is Some ==> {
                &&& mined_from(
                    found.unwrap()@,
                    tip_hash(self@.chain),
                    transaction_views(txs@),
                    self@.difficulty,
                )
                &&& is_digest_text(found.unwrap()@.hash)
                &&& found.unwrap()@.time == time
                &&& nonce <= found.unwrap()@.nonce < nonce + self.concurrent_hashes
            },
            found is None ==> round_failed(
                tip_hash(self@.chain),
                transaction_views(txs@),
                nonce,
                self.concurrent_hashes,
                time,
                self@.difficulty,
            ),
            self.concurrent_hashes == 0 ==> found is None,
            self.difficulty == 0 && self.concurrent_hashes > 0 ==> found is Some,
    {
        let target = random_target(self.difficulty);
        let prev = if self.chain.len() == 0 {
            String::new()
        } else {
            self.chain[self.chain.len() - 1].hash.clone()
        };
        let found = search_round(&prev, &txs, nonce, self.concurrent_hashes, time, &target);
        proof {
            let views = transaction_views(txs@);
            if found is Some {
                let n = choose|n: u64|
                    nonce <= n && n < nonce + self.concurrent_hashes && #[trigger] candidate(
                        prev@,
                        views,
                        n,
                        time,
                        target@,
                    ) == Some(found.unwrap()@);
                lemma_candidate_is_mined(prev@, views, n, time, target@, found.unwrap()@);
            } else {
                assert(round_miss(prev@, views, nonce, self.concurrent_hashes, time, target@));
                if self.difficulty == 0 && self.concurrent_hashes > 0 {
                    assert(candidate(prev@, views, nonce, time, target@) is Some);
                }
            }
        }
        found
    }

    /// Mines a block from `txs` and appends it.
    ///
    /// With fewer transactions than `min_tx_per_block`, or with no nonce to
    /// try in a round, nothing is tried and the ledger stays as it is.
    /// Otherwise rounds are run, each on the next `concurrent_hashes` nonces,
    /// until one finds a block, which is appended: every nonce before that
    /// round has then been tried in vain. The search gives up only when the
    /// nonces are used up, that is when every nonce that starts a full round
    /// has been tried in vain; the ledger then stays as it is.
    pub fn try_mine(&mut self, txs: Vec<Transaction>) -> (success: bool)
        ensures
            txs@.len() < old(self)@.min_tx_per_block ==> !success,
            old(self)@.concurrent_hashes == 0 ==> !success,
            !success ==> final(self)@ == old(self)@,
            !success && txs@.len() >= old(self)@.min_tx_per_block && old(self)@.concurrent_hashes
                > 0 ==> {
                &&& exists|time: Timestamp| #[trigger]
                    round_failed(
                        tip_hash(old(self)@.chain),
                        transaction_views(txs@),
                        0,
                        old(self).concurrent_hashes,
                        time,
                        old(self)@.difficulty,
                    )
                &&& forall|n: u64|
                    n <= u64::MAX - old(self).concurrent_hashes ==> #[trigger] in_failed_round(
                        tip_hash(old(self)@.chain),
                        transaction_views(txs@),
                        n,
                        old(self).concurrent_hashes,
                        old(self)@.difficulty,
                    )
            },
            success ==> forall|n: u64|
                n + old(self).concurrent_hashes <= final(self)@.chain.last().nonce
                    ==> #[trigger] in_failed_round(
                    tip_hash(old(self)@.chain),
                    transaction_views(txs@),
                    n,
                    old(self).concurrent_hashes,
                    old(self)@.difficulty,
                ),
            success ==> {
                &&& final(self)@.chain.len() == old(self)@.chain.len() + 1
                &&& final(self)@ == (BlockchainView {
                    chain: old(self)@.chain.push(final(self)@.chain.last()),
                    ..old(self)@
                })
                &&& mined_from(
                    final(self)@.chain.last(),
                    tip_hash(old(self)@.chain),
                    transaction_views(txs@),
                    old(self)@.difficulty,
                )
                &&& is_digest_text(final(self)@.chain.last().hash)
            },
            txs@.len() >= old(self)@.min_tx_per_block && old(self)@.difficulty == 0 && old(
                self,
            )@.concurrent_hashes > 0 ==> success,
            links_hold(old(self)@.chain) ==> links_hold(final(self)@.chain),
    {
        if txs.len() < self.min_tx_per_block as usize {
            return false;
        }
        if self.concurrent_hashes == 0 {
            return false;
        }
        let ghost prev = tip_hash(self@.chain);
        let ghost views = transaction_views(txs@);
        let count = self.concurrent_hashes;
        let mut nonce: u64 = 0;
        while nonce <= u64::MAX - count
            invariant
                self@ == old(self)@,
                self.concurrent_hashes == count,
                self.difficulty == old(self).difficulty,
                prev == tip_hash(old(self)@.chain),
                views == transaction_views(txs@),
                txs@.len() >= self@.min_tx_per_block,
                count > 0,
                self.difficulty == 0 ==> nonce == 0,
                nonce > 0 ==> exists|time: Timestamp| #[trigger]
                    round_failed(prev, views, 0, count, time, self@.difficulty),
                forall|n: u64|
                    n < nonce ==> #[trigger] in_failed_round(prev, views, n, count, self@.difficulty),
            decreases u64::MAX - nonce,
        {
            let time = now();
            let found = self.mine_block(nonce, time, clone_transactions(&txs));
            match found {
                Some(block) => {
                    self.chain.push(block);
                    assert(final(self)@.chain =~= old(self)@.chain.push(block@));
                    return true;
                },
                None => {},
            }
            proof {
                assert(round_failed(prev, views, nonce, count, time, self@.difficulty));
                assert forall|n: u64| n < nonce + count implies #[trigger] in_failed_round(
                    prev,
                    views,
                    n,
                    count,
                    self@.difficulty,
                ) by {
                    if n >= nonce {
                        assert(nonce <= n && n < nonce + count && round_failed(
                            prev,
                            views,
                            nonce,
                            count,
                            time,
                            self@.difficulty,
                        ));
                    }
                }
            }
            nonce = nonce + count;
        }
        false
    }
}

} // verus!
