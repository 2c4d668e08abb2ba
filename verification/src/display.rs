use vstd::prelude::*;
use vstd::string::*;
use crate::block::{Block, BlockView};
use crate::encoding::{decimal, push_decimal};

verus! {

/// The lines that describe a block: a rule, the hash, the previous hash, the
/// number of transactions, the nonce, the time as the caller has rendered
/// it, and a closing rule.
pub open spec fn block_text(block: BlockView, time: Seq<char>) -> Seq<char> {
    "==============================\r\n"@ + "Hash: "@ + block.hash + "\r\n"@ + "Prev Hash: "@ + block.prev_hash + "\r\n"@
        + "Tx len: "@ + decimal(block.transactions.len()) + "\r\n"@ + "Nonce: "@ + decimal(
        block.nonce as nat,
    ) + "\r\n"@ + "Time: "@ + time + "\r\n"@ + "==============================\r\r\n\n"@
}

/// The heading that stands before the block at place `index`, followed by
/// that block's lines.
pub open spec fn chain_entry(index: nat, block: Seq<char>) -> Seq<char> {
    "--------------"@ + decimal(index) + "---------------\r\n"@ + block
}

/// The entries of the blocks, one after the other.
pub open spec fn chain_entries(blocks: Seq<Seq<char>>) -> Seq<char>
    decreases blocks.len(),
{
    if blocks.len() == 0 {
        Seq::<char>::empty()
    } else {
        chain_entries(blocks.drop_last()) + chain_entry((blocks.len() - 1) as nat, blocks.last())
    }
}

/// The description of a chain from the descriptions of its blocks: the
/// entries, or a notice where there is no block, and a line feed.
pub open spec fn chain_text(blocks: Seq<Seq<char>>) -> Seq<char> {
    if blocks.len() == 0 {
        "Chain is empty for now. Try to generate few transactions"@ + "\n"@
    } else {
        chain_entries(blocks) + "\n"@
    }
}

/// The texts of a list of strings, in order.
pub open spec fn texts(lines: Seq<String>) -> Seq<Seq<char>> {
    lines.map_values(|s: String| s@)
}

/// Describes `block`; `time` is the block's time as it is to be shown.
pub fn describe_block(block: &Block, time: &str) -> (text: String)
    ensures
        text@ == block_text(block@, time@),
{
    let mut text = String::new();
    text.append("==============================\r\n");
    text.append("Hash: ");
    text.append(block.hash.as_str());
    text.append("\r\n");
    text.append("Prev Hash: ");
    text.append(block.prev_hash.as_str());
    text.append("\r\n");
    text.append("Tx len: ");
    push_decimal(&mut text, block.transactions.len() as u64);
    text.append("\r\n");
    text.append("Nonce: ");
    push_decimal(&mut text, block.nonce);
    text.append("\r\n");
    text.append("Time: ");
    text.append(time);
    text.append("\r\n");
    text.append("==============================\r\r\n\n");
    assert(text@ =~= block_text(block@, time@));
    text
}

/// Describes a chain whose blocks are described by `blocks`, in order.
pub fn describe_chain(blocks: &Vec<String>) -> (text: String)
    ensures
        text@ == chain_text(texts(blocks@)),
{
    let mut text = String::new();
    let ghost all = texts(blocks@);
    let mut i: usize = 0;
    while i < blocks.len()
        invariant
            i <= blocks.len(),
            all == texts(blocks@),
            text@ == chain_entries(all.take(i as int)),
        decreases blocks.len() - i,
    {
        let ghost before = text@;
        text.append("--------------");
        push_decimal(&mut text, i as u64);
        text.append("---------------\r\n");
        text.append(blocks[i].as_str());
        proof {
            let next = all.take(i + 1);
            assert(next.drop_last() =~= all.take(i as int));
            assert(next.last() == blocks@[i as int]@);
            assert(text@ =~= before + chain_entry(i as nat, blocks@[i as int]@));
        }
        i = i + 1;
    }
    proof {
        assert(all.take(blocks.len() as int) =~= all);
    }
    if blocks.len() == 0 {
        text.append("Chain is empty for now. Try to generate few transactions");
        assert(text@ =~= "Chain is empty for now. Try to generate few transactions"@);
    }
    text.append("\n");
    text
}

} // verus!
