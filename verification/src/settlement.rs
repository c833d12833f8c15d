//! The settlement (offer) layer's payments and spends.

use vstd::prelude::*;
use crate::coin::{clone_bytes, Bytes32, Coin, CoinSpend};
use crate::bytes::clvm_int_bytes;
use crate::node::{list_v, node_view, pair, Node, NodeV};

verus! {

/// One payment a settlement puzzle must make: a recipient puzzle hash, an
/// amount, and an optional list of memo byte strings.
#[derive(Debug)]
pub struct Payment {
    pub puzzle_hash: Bytes32,
    pub amount: u64,
    pub memos: Option<Vec<Vec<u8>>>,
}

/// A list of payments bound to a nonce, so that the whole group is
/// asserted as one announcement.
#[derive(Debug)]
pub struct NotarizedPayment {
    pub nonce: Bytes32,
    pub payments: Vec<Payment>,
}

/// The node a payment encodes to: `(puzzle_hash amount)` without memos,
/// or `(puzzle_hash amount (memo ...))` with the memo list as the single
/// trailing element.
pub open spec fn payment_node_v(p: Payment) -> NodeV {
    match p.memos {
        Option::None => list_v(
            seq![NodeV::Atom(p.puzzle_hash@), NodeV::Atom(clvm_int_bytes(p.amount as nat))],
        ),
        Option::Some(ms) => list_v(
            seq![
                NodeV::Atom(p.puzzle_hash@),
                NodeV::Atom(clvm_int_bytes(p.amount as nat)),
                list_v(ms@.map_values(|m: Vec<u8>| NodeV::Atom(m@))),
            ],
        ),
    }
}

/// The node a notarized payment encodes to: `(nonce . payments)`.
pub open spec fn notarized_payment_node_v(np: NotarizedPayment) -> NodeV {
    NodeV::Pair(
        Box::new(NodeV::Atom(np.nonce@)),
        Box::new(list_v(np.payments@.map_values(|p: Payment| payment_node_v(p)))),
    )
}

/// Builds the node a payment encodes to.
pub fn payment_node(p: &Payment) -> (r: Node)
    ensures
        node_view(r) == payment_node_v(*p),
{
    match &p.memos {
        Option::None => {
            let mut items: Vec<Node> = Vec::new();
            items.push(Node::Atom(clone_bytes(&p.puzzle_hash.bytes)));
            items.push(Node::Atom(crate::bytes::u64_to_clvm_bytes(p.amount)));
            let r = crate::node::list_from(items);
            proof {
                assert(crate::node::nodes_view(items@) =~= seq![
                    NodeV::Atom(p.puzzle_hash@),
                    NodeV::Atom(clvm_int_bytes(p.amount as nat)),
                ]);
            }
            r
        },
        Option::Some(ms) => {
            let mut memo_nodes: Vec<Node> = Vec::new();
            let mut i: usize = 0;
            while i < ms.len()
                invariant
                    i <= ms@.len(),
                    memo_nodes@.len() == i,
                    forall|j: int|
                        0 <= j < i ==> node_view(memo_nodes@[j]) == NodeV::Atom(ms@[j]@),
                decreases ms@.len() - i,
            {
                memo_nodes.push(Node::Atom(clone_bytes(&ms[i])));
                proof {
                    assert(node_view(memo_nodes@[i as int]) == NodeV::Atom(ms@[i as int]@));
                }
                i = i + 1;
            }
            proof {
                assert(crate::node::nodes_view(memo_nodes@) =~= ms@.map_values(
                    |m: Vec<u8>| NodeV::Atom(m@),
                ));
            }
            let mut items: Vec<Node> = Vec::new();
            items.push(Node::Atom(clone_bytes(&p.puzzle_hash.bytes)));
            items.push(Node::Atom(crate::bytes::u64_to_clvm_bytes(p.amount)));
            items.push(crate::node::list_from(memo_nodes));
            let r = crate::node::list_from(items);
            proof {
                assert(crate::node::nodes_view(items@) =~= seq![
                    NodeV::Atom(p.puzzle_hash@),
                    NodeV::Atom(clvm_int_bytes(p.amount as nat)),
                    list_v(ms@.map_values(|m: Vec<u8>| NodeV::Atom(m@))),
                ]);
            }
            r
        },
    }
}

/// Builds the node a notarized payment encodes to.
pub fn notarized_payment_node(np: &NotarizedPayment) -> (r: Node)
    ensures
        node_view(r) == notarized_payment_node_v(*np),
{
    let mut payment_nodes: Vec<Node> = Vec::new();
    let mut i: usize = 0;
    while i < np.payments.len()
        invariant
            i <= np.payments@.len(),
            payment_nodes@.len() == i,
            forall|j: int|
                0 <= j < i ==> node_view(payment_nodes@[j]) == payment_node_v(np.payments@[j]),
        decreases np.payments@.len() - i,
    {
        payment_nodes.push(payment_node(&np.payments[i]));
        proof {
            assert(node_view(payment_nodes@[i as int]) == payment_node_v(
                np.payments@[i as int],
            ));
        }
        i = i + 1;
    }
    proof {
        assert(crate::node::nodes_view(payment_nodes@) =~= np.payments@.map_values(
            |p: Payment| payment_node_v(p),
        ));
    }
    pair(Node::Atom(clone_bytes(&np.nonce.bytes)), crate::node::list_from(payment_nodes))
}

/// A settlement spend in the making: the notarized payments the puzzle
/// must satisfy.
#[derive(Debug)]
pub struct SettlementSpend {
    pub notarized_payments: Vec<NotarizedPayment>,
}

/// The node a settlement solution encodes to: the list of notarized
/// payments itself — the settlement program takes them directly.
pub open spec fn settlement_solution_node_v(nps: Seq<NotarizedPayment>) -> NodeV {
    list_v(nps.map_values(|np: NotarizedPayment| notarized_payment_node_v(np)))
}

impl SettlementSpend {
    pub fn new(notarized_payments: Vec<NotarizedPayment>) -> (r: SettlementSpend)
        ensures
            r.notarized_payments@ == notarized_payments@,
    {
        SettlementSpend { notarized_payments }
    }

    /// The settlement puzzle and its solution node, before a coin is
    /// chosen.
    pub fn inner_spend(self, ctx: &crate::puzzles::SpendContext) -> (r: (Node, Node))
        ensures
            node_view(r.0) == ctx@.settlement_payments,
            node_view(r.1) == settlement_solution_node_v(self.notarized_payments@),
    {
        let mut np_nodes: Vec<Node> = Vec::new();
        let mut i: usize = 0;
        while i < self.notarized_payments.len()
            invariant
                i <= self.notarized_payments@.len(),
                np_nodes@.len() == i,
                forall|j: int|
                    0 <= j < i ==> node_view(np_nodes@[j]) == notarized_payment_node_v(
                        self.notarized_payments@[j],
                    ),
            decreases self.notarized_payments@.len() - i,
        {
            np_nodes.push(notarized_payment_node(&self.notarized_payments[i]));
            proof {
                assert(node_view(np_nodes@[i as int]) == notarized_payment_node_v(
                    self.notarized_payments@[i as int],
                ));
            }
            i = i + 1;
        }
        proof {
            assert(crate::node::nodes_view(np_nodes@) =~= self.notarized_payments@.map_values(
                |np: NotarizedPayment| notarized_payment_node_v(np),
            ));
        }
        let solution = crate::node::list_from(np_nodes);
        (crate::node::clone_node(&ctx.settlement_payments), solution)
    }

    /// Builds the full settlement coin spend: the bare settlement program
    /// as the puzzle reveal, and the notarized payments as the solution.
    pub fn finish(self, ctx: &crate::puzzles::SpendContext, coin: Coin) -> (r: CoinSpend)
        ensures
            r.coin@ == coin@,
            node_view(r.puzzle_reveal) == ctx@.settlement_payments,
            node_view(r.solution) == settlement_solution_node_v(self.notarized_payments@),
    {
        let (puzzle, solution) = self.inner_spend(ctx);
        CoinSpend::new(coin, puzzle, solution)
    }
}

} // verus!
