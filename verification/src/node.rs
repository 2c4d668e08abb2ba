use vstd::prelude::*;
use crate::block::BlockView;
use crate::blockchain::{clone_blocks, links_hold, Blockchain, BlockchainView};
use crate::timestamp::{now, Timestamp};

verus! {

/// A ledger together with the time at which it was last reconciled with
/// another one.
pub struct Node {
    pub blockchain: Blockchain,
    pub last_time_synced: Timestamp,
}

/// The chain that is kept when the chains `own` and `other` disagree. Of
/// two valid chains the longer one wins, and `own` where they are equally
/// long; where only one is valid, that one wins. (Where neither is valid
/// there is no winner: the value is `own` there and means nothing.)
pub open spec fn winner(own: Seq<BlockView>, other: Seq<BlockView>) -> Seq<BlockView> {
    if links_hold(own) && links_hold(other) {
        if own.len() >= other.len() {
            own
        } else {
            other
        }
    } else if links_hold(other) {
        other
    } else {
        own
    }
}

/// The rule of reconciliation, case by case: a valid chain always beats an
/// invalid one; of two valid chains the strictly longer one wins and a tie
/// goes to `own`; and the winner is valid whenever one of the two is.
pub proof fn lemma_winner_cases(own: Seq<BlockView>, other: Seq<BlockView>)
    ensures
        links_hold(own) && links_hold(other) && other.len() > own.len() ==> winner(own, other)
            == other,
        links_hold(own) && links_hold(other) && other.len() <= own.len() ==> winner(own, other)
            == own,
        links_hold(own) && !links_hold(other) ==> winner(own, other) == own,
        !links_hold(own) && links_hold(other) ==> winner(own, other) == other,
        links_hold(own) || links_hold(other) ==> links_hold(winner(own, other)),
{
}

impl Node {
    /// Reconciles the node's ledger with `other` at the time `at`: the
    /// node's chain becomes the winner of the two, its settings stay, and
    /// `at` is recorded as the time of the last reconciliation.
    pub fn resolve_chain_conflict_at(&mut self, other: &Blockchain, at: Timestamp)
        requires
            links_hold(old(self).blockchain@.chain) || links_hold(other@.chain),
        ensures
            final(self).blockchain@ == (BlockchainView {
                chain: winner(old(self).blockchain@.chain, other@.chain),
                ..old(self).blockchain@
            }),
            links_hold(final(self).blockchain@.chain),
            final(self).last_time_synced == at,
    {
        let own_valid = self.blockchain.is_valid();
        let other_valid = other.is_valid();
        let take_other = if own_valid && other_valid {
            self.blockchain.len() < other.len()
        } else {
            other_valid
        };
        self.last_time_synced = at;
        if take_other {
            self.blockchain.chain = clone_blocks(&other.chain);
        }
    }

    /// Reconciles the node's ledger with `other` now: the node's chain
    /// becomes the winner of the two, its settings stay, and the current
    /// time is recorded.
    pub fn resolve_chain_conflict(&mut self, other: &Blockchain)
        requires
            links_hold(old(self).blockchain@.chain) || links_hold(other@.chain),
        ensures
            final(self).blockchain@ == (BlockchainView {
                chain: winner(old(self).blockchain@.chain, other@.chain),
                ..old(self).blockchain@
            }),
            links_hold(final(self).blockchain@.chain),
    {
        let at = now();
        self.resolve_chain_conflict_at(other, at);
    }
}

} // verus!
