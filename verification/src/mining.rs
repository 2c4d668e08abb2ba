use rand::Rng;
use rayon::iter::{IntoParallelRefIterator, ParallelIterator};
use vstd::prelude::*;
use vstd::string::*;
use crate::block::{block_digest, Block, BlockView};
use crate::digest::is_digest_text;
use crate::encoding::{hex_digit, hex_digit_of, is_hex_char};
use crate::timestamp::Timestamp;
use crate::transaction::{clone_transactions, transaction_views, Transaction, TransactionView};

verus! {

/// Draws a number below `bound` with `thread_rng` and `gen_range` of the
/// crate rand. Trusted: the number is below the bound. Which number comes
/// is left open.
#[verifier::external_body]
pub(crate) fn random_index(bound: usize) -> (i: usize)
    requires
        bound > 0,
    ensures
        i < bound,
{
    rand::thread_rng().gen_range(0..bound)
}

/// The character at place `i` of the alphabet `abcdef0123456789`, from
/// which targets are drawn.
pub open spec fn alphabet_char(i: int) -> char {
    if i < 6 {
        hex_digit(i + 10)
    } else {
        hex_digit(i - 6)
    }
}

/// The character of the target alphabet at place `i`.
pub fn alphabet_char_at(i: usize) -> (c: char)
    requires
        i < 16,
    ensures
        c == alphabet_char(i as int),
        is_hex_char(c),
{
    if i < 6 {
        hex_digit_of((i + 10) as u8)
    } else {
        hex_digit_of((i - 6) as u8)
    }
}

/// A target that a round of the search may draw at the given difficulty:
/// as many characters as the difficulty says, each a lowercase hexadecimal
/// digit.
pub open spec fn admissible_target(target: Seq<char>, difficulty: nat) -> bool {
    &&& target.len() == difficulty
    &&& forall|i: int| 0 <= i < target.len() ==> is_hex_char(#[trigger] target[i])
}

/// Draws a fresh target of `difficulty` characters, each one picked at
/// random from the target alphabet.
pub fn random_target(difficulty: usize) -> (target: String)
    ensures
        admissible_target(target@, difficulty as nat),
{
    let mut target = String::new();
    let mut i: usize = 0;
    while i < difficulty
        invariant
            i <= difficulty,
            admissible_target(target@, i as nat),
        decreases difficulty - i,
    {
        let idx = random_index(16);
        target.push(alphabet_char_at(idx));
        i = i + 1;
    }
    target
}

/// Whether `text` begins with `prefix`.
pub fn starts_with(text: &String, prefix: &String) -> (yes: bool)
    ensures
        yes == prefix@.is_prefix_of(text@),
{
    let n: usize = prefix.as_str().unicode_len();
    let m: usize = text.as_str().unicode_len();
    if n > m {
        return false;
    }
    let mut i: usize = 0;
    while i < n
        invariant
            i <= n,
            n <= m,
            n == prefix@.len(),
            m == text@.len(),
            forall|k: int| 0 <= k < i ==> prefix@[k] == text@[k],
        decreases n - i,
    {
        if prefix.as_str().get_char(i) != text.as_str().get_char(i) {
            assert(text@.subrange(0, n as int)[i as int] == text@[i as int]);
            return false;
        }
        i = i + 1;
    }
    assert(prefix@ =~= text@.subrange(0, n as int));
    true
}

/// The block that comes of the given content once its hash is computed.
pub open spec fn sealed(
    prev: Seq<char>,
    txs: Seq<TransactionView>,
    nonce: u64,
    time: Timestamp,
) -> BlockView {
    let content = BlockView {
        hash: Seq::<char>::empty(),
        prev_hash: prev,
        transactions: txs,
        time: time,
        nonce: nonce,
    };
    BlockView { hash: block_digest(content), ..content }
}

/// What one nonce yields against a target: the sealed block where its hash
/// begins with the target, nothing otherwise.
pub open spec fn candidate(
    prev: Seq<char>,
    txs: Seq<TransactionView>,
    nonce: u64,
    time: Timestamp,
    target: Seq<char>,
) -> Option<BlockView> {
    let block = sealed(prev, txs, nonce, time);
    if target.is_prefix_of(block.hash) {
        Some(block)
    } else {
        None
    }
}

/// The view of a block that may be absent.
pub open spec fn option_view(block: Option<Block>) -> Option<BlockView> {
    match block {
        Some(b) => Some(b@),
        None => None,
    }
}

/// Builds the block for one nonce, hashes it, and keeps it if the hash
/// begins with the target. A block that is kept carries a hash of 64
/// hexadecimal digits.
pub fn try_candidate(
    prev: &String,
    txs: &Vec<Transaction>,
    nonce: u64,
    time: Timestamp,
    target: &String,
) -> (found: Option<Block>)
    ensures
        option_view(found) == candidate(prev@, transaction_views(txs@), nonce, time, target@),
        found is Some ==> is_digest_text(found.unwrap()@.hash),
{
    let mut block = Block::new(prev.clone(), clone_transactions(txs), nonce, time);
    let hash = block.generate_hash();
    if starts_with(&hash, target) {
        Some(block)
    } else {
        None
    }
}

/// Runs `try_candidate` on every nonce of `nonces` through `par_iter` and
/// `find_map_any` of the crate rayon. Trusted: what comes back is what
/// `try_candidate` gave for one of the nonces, so it is the candidate of that
/// nonce and, like every block that `try_candidate` gives, carries a hash of
/// 64 hexadecimal digits; and nothing comes back only where `try_candidate`
/// gave nothing for each of the nonces. Where several nonces yield a block,
/// which of them is returned is left open.
#[verifier::external_body]
pub(crate) fn find_any_candidate(
    nonces: &Vec<u64>,
    prev: &String,
    txs: &Vec<Transaction>,
    time: Timestamp,
    target: &String,
) -> (found: Option<Block>)
    ensures
        found is Some ==> exists|i: int|
            0 <= i < nonces@.len() && #[trigger] candidate(
                prev@,
                transaction_views(txs@),
                nonces@[i],
                time,
                target@,
            ) == option_view(found),
        found is Some ==> is_digest_text(found.unwrap()@.hash),
        found is None ==> forall|i: int|
            0 <= i < nonces@.len() ==> (#[trigger] candidate(
                prev@,
                transaction_views(txs@),
                nonces@[i],
                time,
                target@,
            )) is None,
{
    nonces.par_iter().find_map_any(|n| try_candidate(prev, txs, *n, time, target))
}

/// Some nonce among the `count` nonces from `first` on yields `block`
/// against the target.
pub open spec fn round_hit(
    prev: Seq<char>,
    txs: Seq<TransactionView>,
    first: u64,
    count: u64,
    time: Timestamp,
    target: Seq<char>,
    block: BlockView,
) -> bool {
    exists|n: u64|
        first <= n && n < first + count && #[trigger] candidate(prev, txs, n, time, target)
            == Some(block)
}

/// None of the `count` nonces from `first` on yields a block against the
/// target.
pub open spec fn round_miss(
    prev: Seq<char>,
    txs: Seq<TransactionView>,
    first: u64,
    count: u64,
    time: Timestamp,
    target: Seq<char>,
) -> bool {
    forall|n: u64|
        first <= n && n < first + count ==> (#[trigger] candidate(prev, txs, n, time, target))
            is None
}

/// The round of `count` nonces from `first` on, run at `time`, found
/// nothing: it drew an admissible target of the given difficulty, and none
/// of its nonces yields a block against that target.
pub open spec fn round_failed(
    prev: Seq<char>,
    txs: Seq<TransactionView>,
    first: u64,
    count: u64,
    time: Timestamp,
    difficulty: nat,
) -> bool {
    exists|target: Seq<char>|
        admissible_target(target, difficulty) && #[trigger] round_miss(
            prev,
            txs,
            first,
            count,
            time,
            target,
        )
}

/// The nonce `n` was tried in vain: it belongs to a round of `count`
/// nonces that found nothing.
pub open spec fn in_failed_round(
    prev: Seq<char>,
    txs: Seq<TransactionView>,
    n: u64,
    count: u64,
    difficulty: nat,
) -> bool {
    exists|first: u64, time: Timestamp|
        first <= n && n < first + count && #[trigger] round_failed(
            prev,
            txs,
            first,
            count,
            time,
            difficulty,
        )
}

/// The nonces `first`, `first + 1`, ... of one round, `count` of them.
pub fn round_nonces(first: u64, count: u64) -> (nonces: Vec<u64>)
    requires
        first + count <= u64::MAX,
    ensures
        nonces@.len() == count,
        forall|i: int| 0 <= i < count ==> #[trigger] nonces@[i] == first + i,
{
    let mut nonces: Vec<u64> = Vec::new();
    let mut x: u64 = 0;
    while x < count
        invariant
            x <= count,
            first + count <= u64::MAX,
            nonces@.len() == x,
            forall|i: int| 0 <= i < x ==> #[trigger] nonces@[i] == first + i,
        decreases count - x,
    {
        nonces.push(x + first);
        x = x + 1;
    }
    nonces
}

/// One round of the search against a given target: every nonce of the
/// round is tried on top of the hash `prev`, and any block whose hash begins
/// with the target is returned.
pub fn search_round(
    prev: &String,
    txs: &Vec<Transaction>,
    first: u64,
    count: u64,
    time: Timestamp,
    target: &String,
) -> (found: Option<Block>)
    requires
        first + count <= u64::MAX,
    ensures
        found is Some ==> round_hit(
            prev@,
            transaction_views(txs@),
            first,
            count,
            time,
            target@,
            found.unwrap()@,
        ),
        found is Some ==> is_digest_text(found.unwrap()@.hash),
        found is None ==> round_miss(prev@, transaction_views(txs@), first, count, time, target@),
{
    let nonces = round_nonces(first, count);
    let found = find_any_candidate(&nonces, prev, txs, time, target);
    proof {
        let views = transaction_views(txs@);
        if found is Some {
            let i = choose|i: int|
                0 <= i < nonces@.len() && #[trigger] candidate(
                    prev@,
                    views,
                    nonces@[i],
                    time,
                    target@,
                ) == option_view(found);
            assert(candidate(prev@, views, nonces@[i], time, target@) == Some(found.unwrap()@));
        } else {
            assert forall|n: u64| first <= n && n < first + count implies (#[trigger] candidate(
                prev@,
                views,
                n,
                time,
                target@,
            )) is None by {
                let i = n - first;
                assert(nonces@[i] == n);
            }
        }
    }
    found
}

/// `block` is a block that mining on top of the hash `prev` can produce
/// from the transactions `txs` at the given difficulty: its hash is the
/// digest of its content, and the hash begins with an admissible target of
/// that difficulty.
pub open spec fn mined_from(
    block: BlockView,
    prev: Seq<char>,
    txs: Seq<TransactionView>,
    difficulty: nat,
) -> bool {
    &&& block == sealed(prev, txs, block.nonce, block.time)
    &&& block.hash.len() >= difficulty
    &&& admissible_target(block.hash.take(difficulty as int), difficulty)
}

/// A block that a nonce yields against an admissible target is a mined
/// block of that target's difficulty, with that nonce and time.
pub proof fn lemma_candidate_is_mined(
    prev: Seq<char>,
    txs: Seq<TransactionView>,
    nonce: u64,
    time: Timestamp,
    target: Seq<char>,
    block: BlockView,
)
    requires
        candidate(prev, txs, nonce, time, target) == Some(block),
        admissible_target(target, target.len()),
    ensures
        block.nonce == nonce,
        block.time == time,
        mined_from(block, prev, txs, target.len()),
{
    assert(block.hash.take(target.len() as int) =~= target) by {
        assert(target =~= block.hash.subrange(0, target.len() as int));
    }
}

} // verus!
