use vstd::prelude::*;
use crate::block::Block;
use crate::blockchain::{appended, links_hold, Blockchain, BlockchainView};
use crate::node::{winner, Node};

verus! {

/// A ledger sent to the peer named by `receiver`.
#[derive(Debug)]
pub struct ChainResponse {
    pub blockchain: Blockchain,
    pub receiver: String,
}

/// A request for the ledger of the peer named by `from_peer_id`.
#[derive(Debug)]
pub struct LocalChainRequest {
    pub from_peer_id: String,
}

/// What the node's main loop reacts to.
pub enum EventType {
    LocalChainResponse(ChainResponse),
    Init,
    Cli,
}

/// A message that arrived from another peer, once it is decoded.
pub enum Message {
    Response(ChainResponse),
    Request(LocalChainRequest),
    NewBlock(Block),
}

/// Picks the reading of a message from the three attempts to decode it: a
/// ledger response comes before a request, and a request before a block.
/// Where no attempt succeeded there is no message.
pub fn select_message(
    response: Option<ChainResponse>,
    request: Option<LocalChainRequest>,
    block: Option<Block>,
) -> (message: Option<Message>)
    ensures
        message == (match (response, request, block) {
            (Some(r), _, _) => Some(Message::Response(r)),
            (None, Some(q), _) => Some(Message::Request(q)),
            (None, None, Some(b)) => Some(Message::NewBlock(b)),
            (None, None, None) => None,
        }),
{
    match response {
        Some(r) => Some(Message::Response(r)),
        None => match request {
            Some(q) => Some(Message::Request(q)),
            None => match block {
                Some(b) => Some(Message::NewBlock(b)),
                None => None,
            },
        },
    }
}

/// Whether `node` can take in `message` as the peer `own_id`: the one
/// message it cannot handle is a ledger addressed to it that is invalid
/// while its own ledger is invalid too.
pub open spec fn can_handle(node: Node, own_id: Seq<char>, message: Message) -> bool {
    match message {
        Message::Response(response) => response.receiver@ == own_id ==> links_hold(
            node.blockchain@.chain,
        ) || links_hold(response.blockchain@.chain),
        _ => true,
    }
}

/// Lets `node`, known to its peers as `own_id`, take in a message that
/// came from the peer `source`.
///
/// A ledger addressed to this peer is reconciled with the node's own; one
/// addressed to another peer is ignored. A request addressed to this peer is
/// answered with a copy of the node's ledger, addressed to `source`; one
/// addressed to another peer is ignored. A block is appended if it extends
/// the chain and dropped otherwise.
pub fn handle_message(node: &mut Node, own_id: &String, source: String, message: Message) -> (reply:
    Option<ChainResponse>)
    requires
        can_handle(*old(node), own_id@, message),
    ensures
        match message {
            Message::Response(response) => {
                &&& reply is None
                &&& response.receiver@ == own_id@ ==> final(node).blockchain@ == (BlockchainView {
                    chain: winner(old(node).blockchain@.chain, response.blockchain@.chain),
                    ..old(node).blockchain@
                })
                &&& response.receiver@ != own_id@ ==> final(node).blockchain@ == old(
                    node,
                ).blockchain@ && final(node).last_time_synced == old(node).last_time_synced
            },
            Message::Request(request) => {
                &&& final(node).blockchain@ == old(node).blockchain@
                &&& final(node).last_time_synced == old(node).last_time_synced
                &&& reply is Some <==> request.from_peer_id@ == own_id@
                &&& reply is Some ==> reply.unwrap().blockchain@ == old(node).blockchain@
                    && reply.unwrap().receiver@ == source@
            },
            Message::NewBlock(block) => {
                &&& reply is None
                &&& final(node).blockchain@ == (BlockchainView {
                    chain: appended(old(node).blockchain@.chain, block@),
                    ..old(node).blockchain@
                })
                &&& final(node).last_time_synced == old(node).last_time_synced
            },
        },
{
    match message {
        Message::Response(response) => {
            if response.receiver == *own_id {
                node.resolve_chain_conflict(&response.blockchain);
            }
            None
        },
        Message::Request(request) => {
            if request.from_peer_id == *own_id {
                Some(ChainResponse { blockchain: node.blockchain.clone(), receiver: source })
            } else {
                None
            }
        },
        Message::NewBlock(block) => {
            node.blockchain.add_block(block);
            None
        },
    }
}

} // verus!
