use vstd::prelude::*;
use vstd::string::*;
use crate::digest::{digest_of_text, is_digest_text, text_digest};
use crate::encoding::{decimal, push_decimal, push_quoted, push_timestamp, quoted, timestamp_text};
use crate::timestamp::Timestamp;
use crate::transaction::{
    clone_transactions, push_transactions, transaction_views, transactions_text, Transaction,
    TransactionView,
};

verus! {

/// A batch of transactions, linked to the block before it by that block's
/// hash.
#[derive(PartialEq, Debug)]
pub struct Block {
    pub hash: String,
    pub prev_hash: String,
    pub transactions: Vec<Transaction>,
    pub time: Timestamp,
    pub nonce: u64,
}

/// What a block holds, as mathematical values.
pub struct BlockView {
    pub hash: Seq<char>,
    pub prev_hash: Seq<char>,
    pub transactions: Seq<TransactionView>,
    pub time: Timestamp,
    pub nonce: u64,
}

impl View for Block {
    type V = BlockView;

    open spec fn view(&self) -> BlockView {
        BlockView {
            hash: self.hash@,
            prev_hash: self.prev_hash@,
            transactions: transaction_views(self.transactions@),
            time: self.time,
            nonce: self.nonce,
        }
    }
}

impl Clone for Block {
    fn clone(&self) -> (copy: Self)
        ensures
            copy@ == self@,
    {
        Block {
            hash: self.hash.clone(),
            prev_hash: self.prev_hash.clone(),
            transactions: clone_transactions(&self.transactions),
            time: self.time,
            nonce: self.nonce,
        }
    }
}

/// The views of a sequence of blocks, in order.
pub open spec fn block_views(blocks: Seq<Block>) -> Seq<BlockView> {
    blocks.map_values(|b: Block| b@)
}

/// The text that is hashed for a block: a JSON object with the fields
/// `hash`, `prev_hash`, `transactions`, `time` and `nonce`, in this order and
/// without whitespace, in which `hash` is the empty string whatever the
/// block's own hash is.
pub open spec fn canonical_text(b: BlockView) -> Seq<char> {
    "{\"hash\":\"\",\"prev_hash\":"@ + quoted(b.prev_hash) + ",\"transactions\":["@
        + transactions_text(b.transactions) + "],\"time\":"@ + timestamp_text(b.time)
        + ",\"nonce\":"@ + decimal(b.nonce as nat) + "}"@
}

/// The hash that belongs to a block's content: the hexadecimal SHA-256
/// digest of its canonical text.
pub open spec fn block_digest(b: BlockView) -> Seq<char> {
    text_digest(canonical_text(b))
}

/// Two blocks that agree on the previous hash, the transactions, the time
/// and the nonce have the same digest, whatever their `hash` fields hold.
pub proof fn lemma_digest_deterministic(a: BlockView, b: BlockView)
    requires
        a.prev_hash == b.prev_hash,
        a.transactions == b.transactions,
        a.time == b.time,
        a.nonce == b.nonce,
    ensures
        block_digest(a) == block_digest(b),
{
}

/// Writing a hash into a block does not change the block's digest, so
/// hashing a block a second time gives the same hash.
pub proof fn lemma_digest_ignores_hash(b: BlockView, hash: Seq<char>)
    ensures
        block_digest(BlockView { hash, ..b }) == block_digest(b),
{
}

impl Block {
    /// A block with the given content and no hash yet.
    pub fn new(prev: String, txs: Vec<Transaction>, nonce: u64, ms: Timestamp) -> (block: Self)
        ensures
            block@ == (BlockView {
                hash: Seq::<char>::empty(),
                prev_hash: prev@,
                transactions: transaction_views(txs@),
                time: ms,
                nonce: nonce,
            }),
    {
        Block { hash: String::new(), prev_hash: prev, transactions: txs, nonce: nonce, time: ms }
    }

    /// The text that is hashed for this block.
    pub fn canonical_text(&self) -> (text: String)
        ensures
            text@ == canonical_text(self@),
    {
        let mut text = String::new();
        text.append("{\"hash\":\"\",\"prev_hash\":");
        push_quoted(&mut text, self.prev_hash.as_str());
        text.append(",\"transactions\":[");
        push_transactions(&mut text, &self.transactions);
        text.append("],\"time\":");
        push_timestamp(&mut text, self.time);
        text.append(",\"nonce\":");
        push_decimal(&mut text, self.nonce);
        text.append("}");
        assert(text@ =~= canonical_text(self@));
        text
    }

    /// Computes the digest of this block's content, writes it into `hash`
    /// and returns it. Nothing else changes.
    pub fn generate_hash(&mut self) -> (hash: String)
        ensures
            hash@ == block_digest(old(self)@),
            final(self)@ == (BlockView { hash: hash@, ..old(self)@ }),
            is_digest_text(hash@),
    {
        let text = self.canonical_text();
        let hash = digest_of_text(&text);
        self.hash = hash.clone();
        hash
    }

    /// Whether this block names the hash of `prev_block` as its previous
    /// hash. Nothing else is looked at.
    pub fn is_valid(&self, prev_block: &Block) -> (valid: bool)
        ensures
            valid == (self@.prev_hash == prev_block@.hash),
    {
        self.prev_hash == prev_block.hash
    }
}

} // verus!
