//! Typed output conditions and announcement commitments.
//!
//! Conditions are the only channel through which one coin's spend can
//! affect ledger state or be correlated with another spend in the same
//! bundle. An announcement id is the digest of a coin id or puzzle hash
//! and a message; a bundle is valid only if every assertion has a matching
//! creation elsewhere in the bundle.

use vstd::prelude::*;
use crate::bytes::clvm_int_bytes;
use crate::coin::{clone_bytes, Bytes32};
use crate::hashing::{concat_bytes, sha256, sha256_spec};
use crate::node::{atom, list_from, list_v, node_view, Node, NodeV};

verus! {

/// A typed output condition.
#[derive(Debug)]
pub enum Condition {
    /// Creates a child coin, recording memo bytes alongside it.
    CreateCoinWithMemos { puzzle_hash: Bytes32, amount: u64, memos: Vec<Vec<u8>> },
    /// Creates a child coin with no memos.
    CreateCoinWithoutMemos { puzzle_hash: Bytes32, amount: u64 },
    /// Requires a coin announcement with the given id elsewhere in the
    /// bundle.
    AssertCoinAnnouncement { announcement_id: Vec<u8> },
    /// Emits a puzzle announcement of the given message.
    CreatePuzzleAnnouncement { message: Vec<u8> },
    /// Requires a puzzle announcement with the given id elsewhere in the
    /// bundle.
    AssertPuzzleAnnouncement { announcement_id: Vec<u8> },
    /// The ownership layer's owner-change directive.
    NewNftOwner {
        new_owner: Option<Bytes32>,
        trade_prices_list: Vec<Node>,
        new_did_inner_hash: Option<Bytes32>,
    },
}

/// A one-byte vector.
fn byte_vec1(b: u8) -> (r: Vec<u8>)
    ensures
        r@ =~= seq![b],
{
    let mut r: Vec<u8> = Vec::new();
    r.push(b);
    r
}

/// The node an optional 32-byte value encodes to: the value's atom, or
/// the empty atom.
pub open spec fn opt_bytes_node_v(o: Option<Bytes32>) -> NodeV {
    match o {
        Option::Some(b) => NodeV::Atom(b@),
        Option::None => NodeV::Atom(Seq::<u8>::empty()),
    }
}

/// The node a condition encodes to: a proper list headed by the
/// condition's opcode atom.
pub open spec fn condition_node_v(c: Condition) -> NodeV {
    match c {
        Condition::CreateCoinWithMemos { puzzle_hash, amount, memos } => list_v(
            seq![
                NodeV::Atom(seq![51u8]),
                NodeV::Atom(puzzle_hash@),
                NodeV::Atom(clvm_int_bytes(amount as nat)),
                list_v(memos@.map_values(|m: Vec<u8>| NodeV::Atom(m@))),
            ],
        ),
        Condition::CreateCoinWithoutMemos { puzzle_hash, amount } => list_v(
            seq![
                NodeV::Atom(seq![51u8]),
                NodeV::Atom(puzzle_hash@),
                NodeV::Atom(clvm_int_bytes(amount as nat)),
            ],
        ),
        Condition::AssertCoinAnnouncement { announcement_id } => list_v(
            seq![NodeV::Atom(seq![61u8]), NodeV::Atom(announcement_id@)],
        ),
        Condition::CreatePuzzleAnnouncement { message } => list_v(
            seq![NodeV::Atom(seq![62u8]), NodeV::Atom(message@)],
        ),
        Condition::AssertPuzzleAnnouncement { announcement_id } => list_v(
            seq![NodeV::Atom(seq![63u8]), NodeV::Atom(announcement_id@)],
        ),
        Condition::NewNftOwner { new_owner, trade_prices_list, new_did_inner_hash } => list_v(
            seq![
                NodeV::Atom(seq![0xf6u8]),
                opt_bytes_node_v(new_owner),
                list_v(trade_prices_list@.map_values(|n: Node| node_view(n))),
                opt_bytes_node_v(new_did_inner_hash),
            ],
        ),
    }
}

/// Builds the node of an optional 32-byte value.
fn opt_bytes_node(o: &Option<Bytes32>) -> (r: Node)
    ensures
        node_view(r) == opt_bytes_node_v(*o),
{
    match o {
        Option::Some(b) => Node::Atom(clone_bytes(&b.bytes)),
        Option::None => crate::node::nil(),
    }
}

/// Builds the node a condition encodes to.
pub fn condition_node(c: &Condition) -> (r: Node)
    ensures
        node_view(r) == condition_node_v(*c),
{
    match c {
        Condition::CreateCoinWithMemos { puzzle_hash, amount, memos } => {
            let mut memo_nodes: Vec<Node> = Vec::new();
            let mut i: usize = 0;
            while i < memos.len()
                invariant
                    i <= memos@.len(),
                    memo_nodes@.len() == i,
                    forall|j: int|
                        0 <= j < i ==> node_view(memo_nodes@[j]) == NodeV::Atom(memos@[j]@),
                decreases memos@.len() - i,
            {
                memo_nodes.push(Node::Atom(clone_bytes(&memos[i])));
                proof {
                    assert(node_view(memo_nodes@[i as int]) == NodeV::Atom(memos@[i as int]@));
                }
                i = i + 1;
            }
            proof {
                assert(crate::node::nodes_view(memo_nodes@) =~= memos@.map_values(
                    |m: Vec<u8>| NodeV::Atom(m@),
                ));
            }
            let mut items: Vec<Node> = Vec::new();
            items.push(atom(byte_vec1(51u8)));
            items.push(Node::Atom(clone_bytes(&puzzle_hash.bytes)));
            items.push(Node::Atom(crate::bytes::u64_to_clvm_bytes(*amount)));
            items.push(list_from(memo_nodes));
            let r = list_from(items);
            proof {
                assert(crate::node::nodes_view(items@) =~= seq![
                    NodeV::Atom(seq![51u8]),
                    NodeV::Atom(puzzle_hash@),
                    NodeV::Atom(clvm_int_bytes(*amount as nat)),
                    list_v(memos@.map_values(|m: Vec<u8>| NodeV::Atom(m@))),
                ]);
            }
            r
        },
        Condition::CreateCoinWithoutMemos { puzzle_hash, amount } => {
            let mut items: Vec<Node> = Vec::new();
            items.push(atom(byte_vec1(51u8)));
            items.push(Node::Atom(clone_bytes(&puzzle_hash.bytes)));
            items.push(Node::Atom(crate::bytes::u64_to_clvm_bytes(*amount)));
            let r = list_from(items);
            proof {
                assert(crate::node::nodes_view(items@) =~= seq![
                    NodeV::Atom(seq![51u8]),
                    NodeV::Atom(puzzle_hash@),
                    NodeV::Atom(clvm_int_bytes(*amount as nat)),
                ]);
            }
            r
        },
        Condition::AssertCoinAnnouncement { announcement_id } => {
            let mut items: Vec<Node> = Vec::new();
            items.push(atom(byte_vec1(61u8)));
            items.push(Node::Atom(clone_bytes(announcement_id)));
            let r = list_from(items);
            proof {
                assert(crate::node::nodes_view(items@) =~= seq![
                    NodeV::Atom(seq![61u8]),
                    NodeV::Atom(announcement_id@),
                ]);
            }
            r
        },
        Condition::CreatePuzzleAnnouncement { message } => {
            let mut items: Vec<Node> = Vec::new();
            items.push(atom(byte_vec1(62u8)));
            items.push(Node::Atom(clone_bytes(message)));
            let r = list_from(items);
            proof {
                assert(crate::node::nodes_view(items@) =~= seq![
                    NodeV::Atom(seq![62u8]),
                    NodeV::Atom(message@),
                ]);
            }
            r
        },
        Condition::AssertPuzzleAnnouncement { announcement_id } => {
            let mut items: Vec<Node> = Vec::new();
            items.push(atom(byte_vec1(63u8)));
            items.push(Node::Atom(clone_bytes(announcement_id)));
            let r = list_from(items);
            proof {
                assert(crate::node::nodes_view(items@) =~= seq![
                    NodeV::Atom(seq![63u8]),
                    NodeV::Atom(announcement_id@),
                ]);
            }
            r
        },
        Condition::NewNftOwner { new_owner, trade_prices_list, new_did_inner_hash } => {
            let mut price_nodes: Vec<Node> = Vec::new();
            let mut i: usize = 0;
            while i < trade_prices_list.len()
                invariant
                    i <= trade_prices_list@.len(),
                    price_nodes@.len() == i,
                    forall|j: int|
                        0 <= j < i ==> node_view(price_nodes@[j]) == node_view(
                            trade_prices_list@[j],
                        ),
                decreases trade_prices_list@.len() - i,
            {
                price_nodes.push(crate::node::clone_node(&trade_prices_list[i]));
                proof {
                    assert(node_view(price_nodes@[i as int]) == node_view(
                        trade_prices_list@[i as int],
                    ));
                }
                i = i + 1;
            }
            proof {
                assert(crate::node::nodes_view(price_nodes@) =~= trade_prices_list@.map_values(
                    |n: Node| node_view(n),
                ));
            }
            let mut items: Vec<Node> = Vec::new();
            items.push(atom(byte_vec1(0xf6u8)));
            items.push(opt_bytes_node(new_owner));
            items.push(list_from(price_nodes));
            items.push(opt_bytes_node(new_did_inner_hash));
            let r = list_from(items);
            proof {
                assert(crate::node::nodes_view(items@) =~= seq![
                    NodeV::Atom(seq![0xf6u8]),
                    opt_bytes_node_v(*new_owner),
                    list_v(trade_prices_list@.map_values(|n: Node| node_view(n))),
                    opt_bytes_node_v(*new_did_inner_hash),
                ]);
            }
            r
        },
    }
}

/// The id of a coin announcement: the digest of the announcing coin's id
/// and the message.
pub open spec fn coin_announcement_id_v(coin_id: Seq<u8>, message: Seq<u8>) -> Seq<u8> {
    sha256_spec(coin_id + message)
}

/// The id of a puzzle announcement: the digest of the announcing coin's
/// puzzle hash and the message.
pub open spec fn puzzle_announcement_id_v(puzzle_hash: Seq<u8>, message: Seq<u8>) -> Seq<u8> {
    sha256_spec(puzzle_hash + message)
}

/// Computes a coin announcement id.
pub fn coin_announcement_id(coin_id: &[u8], message: &[u8]) -> (r: Vec<u8>)
    ensures
        r@ == coin_announcement_id_v(coin_id@, message@),
        r@.len() == 32,
{
    let buf = concat_bytes(coin_id, message);
    sha256(buf.as_slice())
}

/// Computes a puzzle announcement id.
pub fn puzzle_announcement_id(puzzle_hash: &[u8], message: &[u8]) -> (r: Vec<u8>)
    ensures
        r@ == puzzle_announcement_id_v(puzzle_hash@, message@),
        r@.len() == 32,
{
    let buf = concat_bytes(puzzle_hash, message);
    sha256(buf.as_slice())
}

} // verus!
