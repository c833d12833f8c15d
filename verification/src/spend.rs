//! Building single coin spends from composed layers.

use vstd::prelude::*;
use crate::bytes::{
    be_val,
    clvm_int_bytes,
    lemma_be_val_bound,
    lemma_be_val_min_be,
    lemma_min_be_first_nonzero,
    lemma_min_be_len_u64,
    min_be_bytes,
    pow256,
};
use crate::coin::{clone_bytes, Coin, CoinSpend, EveProof, LineageProof, Proof, ProofV, PublicKey};
use crate::conditions::{condition_node, condition_node_v, Condition};
use crate::errors::ParseError;
use crate::node::{atom, list_from, list_v, node_view, nodes_view, quote, quoted_v, Node, NodeV};

verus! {

/// The node a lineage proof encodes to: the eve form lists the parent id
/// and the amount; the full form also references the parent's inner
/// puzzle hash.
pub open spec fn proof_node_v(p: Proof) -> NodeV {
    match p {
        Proof::Lineage(lp) => list_v(
            seq![
                NodeV::Atom(lp.parent_coin_info@),
                NodeV::Atom(lp.inner_puzzle_hash@),
                NodeV::Atom(clvm_int_bytes(lp.amount as nat)),
            ],
        ),
        Proof::Eve(ep) => list_v(
            seq![
                NodeV::Atom(ep.parent_coin_info@),
                NodeV::Atom(clvm_int_bytes(ep.amount as nat)),
            ],
        ),
    }
}

/// Builds the node a lineage proof encodes to.
pub fn proof_node(p: &Proof) -> (r: Node)
    ensures
        node_view(r) == proof_node_v(*p),
{
    match p {
        Proof::Lineage(lp) => {
            let mut items: Vec<Node> = Vec::new();
            items.push(Node::Atom(clone_bytes(&lp.parent_coin_info.bytes)));
            items.push(Node::Atom(clone_bytes(&lp.inner_puzzle_hash.bytes)));
            items.push(Node::Atom(crate::bytes::u64_to_clvm_bytes(lp.amount)));
            let r = list_from(items);
            proof {
                assert(nodes_view(items@) =~= seq![
                    NodeV::Atom(lp.parent_coin_info@),
                    NodeV::Atom(lp.inner_puzzle_hash@),
                    NodeV::Atom(clvm_int_bytes(lp.amount as nat)),
                ]);
            }
            r
        },
        Proof::Eve(ep) => {
            let mut items: Vec<Node> = Vec::new();
            items.push(Node::Atom(clone_bytes(&ep.parent_coin_info.bytes)));
            items.push(Node::Atom(crate::bytes::u64_to_clvm_bytes(ep.amount)));
            let r = list_from(items);
            proof {
                assert(nodes_view(items@) =~= seq![
                    NodeV::Atom(ep.parent_coin_info@),
                    NodeV::Atom(clvm_int_bytes(ep.amount as nat)),
                ]);
            }
            r
        },
    }
}

/// The node list a sequence of conditions encodes to.
pub open spec fn conditions_list_v(conditions: Seq<Condition>) -> NodeV {
    list_v(conditions.map_values(|c: Condition| condition_node_v(c)))
}

/// Builds the node list of a sequence of conditions.
pub fn conditions_list(conditions: &Vec<Condition>) -> (r: Node)
    ensures
        node_view(r) == conditions_list_v(conditions@),
{
    let mut nodes: Vec<Node> = Vec::new();
    let mut i: usize = 0;
    while i < conditions.len()
        invariant
            i <= conditions@.len(),
            nodes@.len() == i,
            forall|j: int|
                0 <= j < i ==> node_view(nodes@[j]) == condition_node_v(conditions@[j]),
        decreases conditions@.len() - i,
    {
        nodes.push(condition_node(&conditions[i]));
        proof {
            assert(node_view(nodes@[i as int]) == condition_node_v(conditions@[i as int]));
        }
        i = i + 1;
    }
    proof {
        assert(nodes_view(nodes@) =~= conditions@.map_values(|c: Condition| condition_node_v(c)));
    }
    list_from(nodes)
}

/// The node of the standard pay-to-key solution that simply outputs the
/// given conditions: no original public key, the quoted condition list as
/// the delegated puzzle, and an empty solution.
pub open spec fn standard_solution_node_v(conditions: Seq<Condition>) -> NodeV {
    list_v(
        seq![
            NodeV::Atom(Seq::<u8>::empty()),
            quoted_v(conditions_list_v(conditions)),
            NodeV::Atom(Seq::<u8>::empty()),
        ],
    )
}

/// Builds the standard pay-to-key solution node for the given conditions.
pub fn standard_solution_node(conditions: &Vec<Condition>) -> (r: Node)
    ensures
        node_view(r) == standard_solution_node_v(conditions@),
{
    let delegated = quote(conditions_list(conditions));
    let mut items: Vec<Node> = Vec::new();
    items.push(crate::node::nil());
    items.push(delegated);
    items.push(crate::node::nil());
    let r = list_from(items);
    proof {
        assert(nodes_view(items@) =~= seq![
            NodeV::Atom(Seq::<u8>::empty()),
            quoted_v(conditions_list_v(conditions@)),
            NodeV::Atom(Seq::<u8>::empty()),
        ]);
    }
    r
}

/// The full solution node of a composed singleton, state and ownership
/// layer spend: the proof, the coin's re-asserted amount, and the inner
/// solutions nested one list deep per layer.
pub open spec fn nft_solution_node_v(p: Proof, amount: u64, conditions: Seq<Condition>) -> NodeV {
    list_v(
        seq![
            proof_node_v(p),
            NodeV::Atom(clvm_int_bytes(amount as nat)),
            list_v(seq![list_v(seq![standard_solution_node_v(conditions)])]),
        ],
    )
}

/// Builds a full coin spend for a composed singleton asset: the given
/// puzzle reveal, and the nested solution threading the lineage proof, the
/// coin's own amount, and the output conditions down to the pay-to-key
/// layer.
pub fn spend_nft(
    coin: Coin,
    puzzle_reveal: Node,
    lineage_proof: Proof,
    conditions: Vec<Condition>,
) -> (r: CoinSpend)
    ensures
        r.coin@ == coin@,
        r.coin.wf() == coin.wf(),
        node_view(r.puzzle_reveal) == node_view(puzzle_reveal),
        node_view(r.solution) == nft_solution_node_v(lineage_proof, coin.amount, conditions@),
{
    let p2_solution = standard_solution_node(&conditions);
    let mut ownership_items: Vec<Node> = Vec::new();
    ownership_items.push(p2_solution);
    let ownership_solution = list_from(ownership_items);
    proof {
        assert(nodes_view(ownership_items@) =~= seq![standard_solution_node_v(conditions@)]);
    }
    let mut state_items: Vec<Node> = Vec::new();
    state_items.push(ownership_solution);
    let state_solution = list_from(state_items);
    proof {
        assert(nodes_view(state_items@) =~= seq![
            list_v(seq![standard_solution_node_v(conditions@)]),
        ]);
    }
    let mut items: Vec<Node> = Vec::new();
    items.push(proof_node(&lineage_proof));
    items.push(Node::Atom(crate::bytes::u64_to_clvm_bytes(coin.amount)));
    items.push(state_solution);
    let solution = list_from(items);
    proof {
        assert(nodes_view(items@) =~= seq![
            proof_node_v(lineage_proof),
            NodeV::Atom(clvm_int_bytes(coin.amount as nat)),
            list_v(seq![list_v(seq![standard_solution_node_v(conditions@)])]),
        ]);
    }
    CoinSpend::new(coin, puzzle_reveal, solution)
}


/// A canonical unsigned 64-bit amount atom: empty for zero; otherwise the
/// minimal big-endian bytes, with one leading zero byte exactly when the
/// top bit of the first payload byte is set.
pub open spec fn clvm_u64_atom_valid(b: Seq<u8>) -> bool {
    ||| b.len() == 0
    ||| (b.len() <= 8 && b[0] != 0 && b[0] < 0x80)
    ||| (2 <= b.len() <= 9 && b[0] == 0 && b[1] >= 0x80)
}

/// The value of a canonical amount atom.
pub open spec fn decode_u64_v(b: Seq<u8>) -> u64 {
    if b.len() == 0 {
        0u64
    } else if b[0] == 0 {
        be_val(b.skip(1)) as u64
    } else {
        be_val(b) as u64
    }
}

/// The signed minimal encoding of an amount is a canonical atom and
/// decodes back to the amount.
pub proof fn lemma_decode_clvm_u64(n: u64)
    ensures
        clvm_u64_atom_valid(clvm_int_bytes(n as nat)),
        decode_u64_v(clvm_int_bytes(n as nat)) == n,
{
    if n == 0 {
        assert(clvm_int_bytes(0) =~= Seq::<u8>::empty());
    } else {
        lemma_min_be_first_nonzero(n as nat);
        lemma_be_val_min_be(n as nat);
        lemma_min_be_len_u64(n);
        let m = min_be_bytes(n as nat);
        if m[0] >= 0x80 {
            let b = clvm_int_bytes(n as nat);
            assert(b == seq![0u8] + m);
            assert(b.skip(1) =~= m);
        }
    }
}

/// Deconstructs a lineage-proof node: the eve form is a two-element list
/// of the parent id and the amount; the full form also carries the
/// parent's inner puzzle hash between them.
pub open spec fn parse_proof_v(n: NodeV) -> Option<ProofV> {
    match n {
        NodeV::Pair(first, rest) => match (*first, *rest) {
            (NodeV::Atom(parent), NodeV::Pair(second, rest2)) => {
                if parent.len() != 32 {
                    Option::None
                } else {
                    match (*second, *rest2) {
                        (NodeV::Atom(amt), NodeV::Atom(nil_bytes)) => {
                            if nil_bytes.len() == 0 && clvm_u64_atom_valid(amt) {
                                Option::Some(
                                    ProofV::Eve {
                                        parent_coin_info: parent,
                                        amount: decode_u64_v(amt),
                                    },
                                )
                            } else {
                                Option::None
                            }
                        },
                        (NodeV::Atom(inner_ph), NodeV::Pair(third, rest3)) => {
                            if inner_ph.len() != 32 {
                                Option::None
                            } else {
                                match (*third, *rest3) {
                                    (NodeV::Atom(amt), NodeV::Atom(nil_bytes)) => {
                                        if nil_bytes.len() == 0 && clvm_u64_atom_valid(amt) {
                                            Option::Some(
                                                ProofV::Lineage {
                                                    parent_coin_info: parent,
                                                    inner_puzzle_hash: inner_ph,
                                                    amount: decode_u64_v(amt),
                                                },
                                            )
                                        } else {
                                            Option::None
                                        }
                                    },
                                    _ => Option::None,
                                }
                            }
                        },
                        _ => Option::None,
                    }
                }
            },
            _ => Option::None,
        },
        _ => Option::None,
    }
}

/// Deconstructs a composed solution into its lineage proof, the coin's
/// re-asserted amount, and the pay-to-key inner solution below the state
/// and ownership layers.
pub open spec fn parse_nft_solution_v(n: NodeV) -> Result<(ProofV, u64, NodeV), ParseError> {
    match n {
        NodeV::Pair(proof_n, rest) => match *rest {
            NodeV::Pair(amount_n, rest2) => match (*amount_n, *rest2) {
                (NodeV::Atom(amt), NodeV::Pair(state_sol, nil1)) => {
                    if *nil1 != NodeV::Atom(Seq::<u8>::empty()) || !clvm_u64_atom_valid(amt) {
                        Result::Err(ParseError::DecodeError)
                    } else {
                        match parse_proof_v(*proof_n) {
                            Option::Some(p) => match *state_sol {
                                NodeV::Pair(ownership_sol, nil2) => {
                                    if *nil2 != NodeV::Atom(Seq::<u8>::empty()) {
                                        Result::Err(ParseError::DecodeError)
                                    } else {
                                        match *ownership_sol {
                                            NodeV::Pair(inner, nil3) => {
                                                if *nil3 != NodeV::Atom(Seq::<u8>::empty()) {
                                                    Result::Err(ParseError::DecodeError)
                                                } else {
                                                    Result::Ok((p, decode_u64_v(amt), *inner))
                                                }
                                            },
                                            _ => Result::Err(ParseError::DecodeError),
                                        }
                                    }
                                },
                                _ => Result::Err(ParseError::DecodeError),
                            },
                            Option::None => Result::Err(ParseError::DecodeError),
                        }
                    }
                },
                _ => Result::Err(ParseError::DecodeError),
            },
            _ => Result::Err(ParseError::DecodeError),
        },
        _ => Result::Err(ParseError::DecodeError),
    }
}

/// Decodes a canonical amount atom.
fn decode_clvm_u64(b: &Vec<u8>) -> (r: Option<u64>)
    ensures
        match r {
            Option::Some(v) => clvm_u64_atom_valid(b@) && v == decode_u64_v(b@),
            Option::None => !clvm_u64_atom_valid(b@),
        },
{
    if b.len() == 0 {
        return Option::Some(0u64);
    }
    let start: usize;
    if b[0] == 0 {
        if !(b.len() >= 2 && b.len() <= 9 && b[1] >= 0x80) {
            return Option::None;
        }
        start = 1;
    } else {
        if !(b.len() <= 8 && b[0] < 0x80) {
            return Option::None;
        }
        start = 0;
    }
    proof {
        reveal_with_fuel(pow256, 10);
        assert(b@.subrange(start as int, start as int) =~= Seq::<u8>::empty());
    }
    let mut acc: u64 = 0;
    let mut i: usize = start;
    while i < b.len()
        invariant
            start <= i <= b@.len(),
            b@.len() - start <= 8,
            acc == be_val(b@.subrange(start as int, i as int)),
        decreases b@.len() - i,
    {
        proof {
            reveal_with_fuel(pow256, 10);
            let prefix = b@.subrange(start as int, i as int);
            lemma_be_val_bound(prefix);
            crate::bytes::lemma_pow256_le(prefix.len() as nat, 7);
            assert(acc * 256 + (b@[i as int] as int) < pow256(8)) by (nonlinear_arith)
                requires
                    acc < pow256(7),
                    b@[i as int] < 256,
                    pow256(8) == 256 * pow256(7),
            ;
            assert(b@.subrange(start as int, i as int + 1).drop_last() =~= prefix);
            assert(b@.subrange(start as int, i as int + 1).last() == b@[i as int]);
        }
        acc = acc * 256 + (b[i] as u64);
        i = i + 1;
    }
    proof {
        assert(b@.subrange(start as int, b@.len() as int) =~= b@.skip(start as int));
        if start == 0 {
            assert(b@.skip(0) =~= b@);
        }
    }
    Option::Some(acc)
}

/// Deconstructs a lineage-proof node.
fn parse_proof(n: &Node) -> (r: Option<Proof>)
    ensures
        match r {
            Option::Some(p) => parse_proof_v(node_view(*n)) == Option::Some(p@) && p.wf(),
            Option::None => parse_proof_v(node_view(*n)) is None,
        },
{
    proof {
        reveal_with_fuel(node_view, 8);
    }
    match n {
        Node::Pair(first, rest) => match (&**first, &**rest) {
            (Node::Atom(parent), Node::Pair(second, rest2)) => {
                if parent.len() != 32 {
                    return Option::None;
                }
                match (&**second, &**rest2) {
                    (Node::Atom(amt), Node::Atom(nil_bytes)) => {
                        if nil_bytes.len() != 0 {
                            return Option::None;
                        }
                        match decode_clvm_u64(amt) {
                            Option::Some(amount) => Option::Some(
                                Proof::Eve(
                                    EveProof {
                                        parent_coin_info: crate::coin::Bytes32::new(
                                            clone_bytes(parent),
                                        ),
                                        amount,
                                    },
                                ),
                            ),
                            Option::None => Option::None,
                        }
                    },
                    (Node::Atom(inner_ph), Node::Pair(third, rest3)) => {
                        if inner_ph.len() != 32 {
                            return Option::None;
                        }
                        match (&**third, &**rest3) {
                            (Node::Atom(amt), Node::Atom(nil_bytes)) => {
                                if nil_bytes.len() != 0 {
                                    return Option::None;
                                }
                                match decode_clvm_u64(amt) {
                                    Option::Some(amount) => Option::Some(
                                        Proof::Lineage(
                                            LineageProof {
                                                parent_coin_info: crate::coin::Bytes32::new(
                                                    clone_bytes(parent),
                                                ),
                                                inner_puzzle_hash: crate::coin::Bytes32::new(
                                                    clone_bytes(inner_ph),
                                                ),
                                                amount,
                                            },
                                        ),
                                    ),
                                    Option::None => Option::None,
                                }
                            },
                            _ => Option::None,
                        }
                    },
                    _ => Option::None,
                }
            },
            _ => Option::None,
        },
        Node::Atom(_) => Option::None,
    }
}

/// Tests that a node is the empty atom.
fn is_nil_atom(n: &Node) -> (r: bool)
    ensures
        r == (node_view(*n) == NodeV::Atom(Seq::<u8>::empty())),
{
    match n {
        Node::Atom(b) => {
            proof {
                if b@.len() == 0 {
                    assert(b@ =~= Seq::<u8>::empty());
                }
            }
            b.len() == 0
        },
        Node::Pair(_, _) => false,
    }
}

/// Deconstructs a composed solution into its lineage proof, the coin's
/// re-asserted amount, and the pay-to-key inner solution; a shape that
/// does not deconstruct is a decode error.
pub fn parse_nft_solution(n: &Node) -> (r: Result<(Proof, u64, Node), ParseError>)
    ensures
        match r {
            Result::Ok(t) => parse_nft_solution_v(node_view(*n)) == Result::Ok::<
                (ProofV, u64, NodeV),
                ParseError,
            >((t.0@, t.1, node_view(t.2))) && t.0.wf(),
            Result::Err(e) => parse_nft_solution_v(node_view(*n)) == Result::Err::<
                (ProofV, u64, NodeV),
                ParseError,
            >(e),
        },
{
    proof {
        reveal_with_fuel(node_view, 8);
    }
    match n {
        Node::Pair(proof_n, rest) => match &**rest {
            Node::Pair(amount_n, rest2) => match (&**amount_n, &**rest2) {
                (Node::Atom(amt), Node::Pair(state_sol, nil1)) => {
                    let nil1_ok = is_nil_atom(nil1);
                    if !nil1_ok {
                        return Result::Err(ParseError::DecodeError);
                    }
                    let amount = match decode_clvm_u64(amt) {
                        Option::Some(v) => v,
                        Option::None => {
                            return Result::Err(ParseError::DecodeError);
                        },
                    };
                    let p = match parse_proof(proof_n) {
                        Option::Some(p) => p,
                        Option::None => {
                            return Result::Err(ParseError::DecodeError);
                        },
                    };
                    match &**state_sol {
                        Node::Pair(ownership_sol, nil2) => {
                            let nil2_ok = is_nil_atom(nil2);
                            if !nil2_ok {
                                return Result::Err(ParseError::DecodeError);
                            }
                            match &**ownership_sol {
                                Node::Pair(inner, nil3) => {
                                    let nil3_ok = is_nil_atom(nil3);
                                    if !nil3_ok {
                                        return Result::Err(ParseError::DecodeError);
                                    }
                                    Result::Ok((p, amount, crate::node::clone_node(inner)))
                                },
                                Node::Atom(_) => Result::Err(ParseError::DecodeError),
                            }
                        },
                        Node::Atom(_) => Result::Err(ParseError::DecodeError),
                    }
                },
                _ => Result::Err(ParseError::DecodeError),
            },
            Node::Atom(_) => Result::Err(ParseError::DecodeError),
        },
        Node::Atom(_) => Result::Err(ParseError::DecodeError),
    }
}

/// Round trip for solutions: deconstructing a constructed composed
/// solution recovers exactly the lineage proof, the amount, and the
/// pay-to-key solution that went in.
pub proof fn lemma_solution_roundtrip(p: Proof, amount: u64, conditions: Seq<Condition>)
    requires
        p.wf(),
    ensures
        parse_nft_solution_v(nft_solution_node_v(p, amount, conditions)) == Result::Ok::<
            (ProofV, u64, NodeV),
            ParseError,
        >((p@, amount, standard_solution_node_v(conditions))),
{
    reveal_with_fuel(crate::node::list_v, 6);
    lemma_decode_clvm_u64(amount);
    match p {
        Proof::Lineage(lp) => {
            lemma_decode_clvm_u64(lp.amount);
            assert(parse_proof_v(proof_node_v(p)) == Option::Some(p@));
        },
        Proof::Eve(ep) => {
            lemma_decode_clvm_u64(ep.amount);
            assert(parse_proof_v(proof_node_v(p)) == Option::Some(p@));
        },
    }
}

} // verus!
