//! Recognizing typed layers out of allocated puzzle nodes.
//!
//! Parsing is the inverse of construction: a node that matches a layer's
//! curried shape, with the layer's documented program hash at the program
//! position, is deconstructed into that layer; a shape miss is not an
//! error but a fall-through to the next candidate, ending in a raw layer;
//! a shape match with a wrong embedded structural constant is a hard
//! error, never retried.

use vstd::prelude::*;
use crate::bytes::{bytes_eq, min_be_bytes};
use crate::coin::{clone_bytes, Bytes32, PublicKey};
use crate::errors::ParseError;
use crate::layers::{
    singleton_struct_canonical,
    struct_wf_v,
    LayerV,
    OwnershipLayer,
    PuzzleLayer,
    RawLayer,
    RoyaltyTransferLayer,
    SettlementLayer,
    SingletonLayer,
    SingletonStruct,
    SingletonStructV,
    StandardLayer,
    StateLayer,
};
use crate::node::{clone_node, node_height, node_view, tree_hash, tree_hash_v, Node, NodeV};
use crate::puzzles::{
    nft_ownership_layer_hash,
    nft_royalty_transfer_hash,
    nft_state_layer_hash,
    settlement_payments_hash,
    settlement_payments_hash_bytes,
    singleton_top_layer_hash,
    standard_puzzle_hash,
};

verus! {

/// The outer shape of a curried application: the apply opcode, the quoted
/// program, and the environment. Yields the program and the environment.
pub open spec fn curried_shape_v(n: NodeV) -> Option<(NodeV, NodeV)> {
    match n {
        NodeV::Pair(op_a, rest) => {
            if *op_a == NodeV::Atom(seq![2u8]) {
                match *rest {
                    NodeV::Pair(quoted_program, rest2) => {
                        match *quoted_program {
                            NodeV::Pair(op_q, program) => {
                                if *op_q == NodeV::Atom(seq![1u8]) {
                                    match *rest2 {
                                        NodeV::Pair(env, nil_node) => {
                                            if *nil_node == NodeV::Atom(Seq::<u8>::empty()) {
                                                Option::Some((*program, *env))
                                            } else {
                                                Option::None
                                            }
                                        },
                                        _ => Option::None,
                                    }
                                } else {
                                    Option::None
                                }
                            },
                            _ => Option::None,
                        }
                    },
                    _ => Option::None,
                }
            } else {
                Option::None
            }
        },
        _ => Option::None,
    }
}

/// One argument step of a curried environment: the cons opcode, a quoted
/// argument, and the rest of the environment. Yields the argument and the
/// rest.
pub open spec fn env_step_v(env: NodeV) -> Option<(NodeV, NodeV)> {
    match env {
        NodeV::Pair(op_c, rest) => {
            if *op_c == NodeV::Atom(seq![4u8]) {
                match *rest {
                    NodeV::Pair(quoted_arg, rest2) => {
                        match *quoted_arg {
                            NodeV::Pair(op_q, arg) => {
                                if *op_q == NodeV::Atom(seq![1u8]) {
                                    match *rest2 {
                                        NodeV::Pair(tail, nil_node) => {
                                            if *nil_node == NodeV::Atom(Seq::<u8>::empty()) {
                                                Option::Some((*arg, *tail))
                                            } else {
                                                Option::None
                                            }
                                        },
                                        _ => Option::None,
                                    }
                                } else {
                                    Option::None
                                }
                            },
                            _ => Option::None,
                        }
                    },
                    _ => Option::None,
                }
            } else {
                Option::None
            }
        },
        _ => Option::None,
    }
}

/// The terminator of a curried environment.
pub open spec fn is_env_end_v(env: NodeV) -> bool {
    env == NodeV::Atom(seq![1u8])
}

/// The program and the environment of a curried shape are lower than the
/// whole node.
pub proof fn lemma_curried_shape_height(n: NodeV)
    ensures
        match curried_shape_v(n) {
            Option::Some(pe) => node_height(pe.0) < node_height(n) && node_height(pe.1)
                < node_height(n),
            Option::None => true,
        },
{
    reveal_with_fuel(node_height, 5);
}

/// The argument and the tail of an environment step are lower than the
/// environment.
pub proof fn lemma_env_step_height(env: NodeV)
    ensures
        match env_step_v(env) {
            Option::Some(at) => node_height(at.0) < node_height(env) && node_height(at.1)
                < node_height(env),
            Option::None => true,
        },
{
    reveal_with_fuel(node_height, 5);
}

/// Deconstructs a singleton struct node: three atoms of 32 bytes.
pub open spec fn parse_struct_v(n: NodeV) -> Option<SingletonStructV> {
    match n {
        NodeV::Pair(mod_hash, rest) => {
            match (*mod_hash, *rest) {
                (NodeV::Atom(m), NodeV::Pair(launcher_id, launcher_puzzle_hash)) => {
                    match (*launcher_id, *launcher_puzzle_hash) {
                        (NodeV::Atom(l), NodeV::Atom(p)) => {
                            if m.len() == 32 && l.len() == 32 && p.len() == 32 {
                                Option::Some(
                                    SingletonStructV {
                                        mod_hash: m,
                                        launcher_id: l,
                                        launcher_puzzle_hash: p,
                                    },
                                )
                            } else {
                                Option::None
                            }
                        },
                        _ => Option::None,
                    }
                },
                _ => Option::None,
            }
        },
        _ => Option::None,
    }
}

/// A canonical percentage atom: at most two bytes, with no leading zero.
pub open spec fn pct_valid_v(b: Seq<u8>) -> bool {
    b.len() <= 2 && (b.len() >= 1 ==> b[0] != 0)
}

/// The value of a big-endian percentage atom of at most two bytes.
pub open spec fn decode_u16_v(b: Seq<u8>) -> u16 {
    if b.len() == 0 {
        0u16
    } else if b.len() == 1 {
        b[0] as u16
    } else {
        (((b[0] as int) * 256 + (b[1] as int)) as u16)
    }
}

/// The minimal big-endian encoding of a 16-bit value decodes back to it.
pub proof fn lemma_decode_min_be(v: u16)
    ensures
        pct_valid_v(min_be_bytes(v as nat)),
        decode_u16_v(min_be_bytes(v as nat)) == v,
{
    reveal_with_fuel(crate::bytes::le_bytes, 4);
    if v == 0 {
        assert(min_be_bytes(0) =~= Seq::<u8>::empty());
    } else if v < 256 {
        assert(crate::bytes::le_bytes(v as nat) =~= seq![v as u8]);
        assert(min_be_bytes(v as nat) =~= seq![v as u8]);
    } else {
        let lo = (v as nat) % 256;
        let hi = (v as nat) / 256;
        assert(hi < 256 && hi > 0);
        assert(crate::bytes::le_bytes(v as nat) =~= seq![lo as u8, hi as u8]);
        assert(min_be_bytes(v as nat) =~= seq![hi as u8, lo as u8]);
        assert((hi as int) * 256 + (lo as int) == v as int);
    }
}

/// A valid percentage atom is the minimal big-endian encoding of its
/// value.
pub proof fn lemma_min_be_decode(b: Seq<u8>)
    requires
        pct_valid_v(b),
    ensures
        min_be_bytes(decode_u16_v(b) as nat) == b,
{
    reveal_with_fuel(crate::bytes::le_bytes, 4);
    let v = decode_u16_v(b);
    if b.len() == 0 {
        assert(min_be_bytes(0) =~= Seq::<u8>::empty());
        assert(min_be_bytes(v as nat) =~= b);
    } else if b.len() == 1 {
        assert(v == b[0] && v > 0);
        assert(crate::bytes::le_bytes(v as nat) =~= seq![v as u8]);
        assert(min_be_bytes(v as nat) =~= seq![b[0]]);
        assert(min_be_bytes(v as nat) =~= b);
    } else {
        assert(b[0] != 0);
        let vi = (b[0] as int) * 256 + (b[1] as int);
        assert(0 < vi < 0x10000);
        assert(v as int == vi);
        let lo = (v as nat) % 256;
        let hi = (v as nat) / 256;
        assert(lo == b[1] as int && hi == b[0] as int) by (nonlinear_arith)
            requires
                v as int == (b[0] as int) * 256 + (b[1] as int),
                lo == (v as nat) % 256,
                hi == (v as nat) / 256,
                b[0] as int <= 255,
                b[1] as int <= 255,
        ;
        assert(hi > 0);
        assert(crate::bytes::le_bytes(v as nat) =~= seq![lo as u8, hi as u8]);
        assert(min_be_bytes(v as nat) =~= seq![b[0], b[1]]);
        assert(min_be_bytes(v as nat) =~= b);
    }
}

/// An owner argument: the empty atom for no owner, or a 32-byte atom.
pub open spec fn parse_owner_v(n: NodeV) -> Option<Option<Seq<u8>>> {
    match n {
        NodeV::Atom(b) => {
            if b.len() == 0 {
                Option::Some(Option::None)
            } else if b.len() == 32 {
                Option::Some(Option::Some(b))
            } else {
                Option::None
            }
        },
        _ => Option::None,
    }
}

/// The terminal candidates: a node hashing to the settlement payments
/// program is that layer; anything else is kept raw.
pub open spec fn parse_terminal_v(n: NodeV) -> LayerV {
    if tree_hash_v(n) == settlement_payments_hash() {
        LayerV::Settlement
    } else {
        LayerV::Raw { puzzle: n }
    }
}

/// Parses a node into a typed layer. Candidates are tried in a fixed
/// order: each curried layer shape is recognized by the documented hash of
/// its program; a singleton whose embedded struct constants are wrong is a
/// structural error; an unrecognized node is kept raw, so parsing a shape
/// miss is total.
pub open spec fn parse_puzzle_v(n: NodeV) -> Result<LayerV, ParseError>
    decreases node_height(n),
{
    match curried_shape_v(n) {
        Option::Some(pe) => {
            let program = pe.0;
            let env = pe.1;
            let h = tree_hash_v(program);
            if h == singleton_top_layer_hash() {
                match env_step_v(env) {
                    Option::Some(s1) => match env_step_v(s1.1) {
                        Option::Some(s2) => if !is_env_end_v(s2.1) {
                            Result::Err(ParseError::DecodeError)
                        } else {
                            match parse_struct_v(s1.0) {
                                Option::Some(ss) => if !singleton_struct_canonical(ss) {
                                    Result::Err(ParseError::InvalidSingletonStruct)
                                } else {
                                    if node_height(s2.0) < node_height(n) {
                                        match parse_puzzle_v(s2.0) {
                                            Result::Ok(inner) => Result::Ok(
                                                LayerV::Singleton {
                                                    singleton_struct: ss,
                                                    inner_puzzle: Box::new(inner),
                                                },
                                            ),
                                            Result::Err(e) => Result::Err(e),
                                        }
                                    } else {
                                        Result::Err(ParseError::DecodeError)
                                    }
                                },
                                Option::None => Result::Err(ParseError::DecodeError),
                            }
                        },
                        Option::None => Result::Err(ParseError::DecodeError),
                    },
                    Option::None => Result::Err(ParseError::DecodeError),
                }
            } else if h == nft_state_layer_hash() {
                match env_step_v(env) {
                    Option::Some(s1) => match env_step_v(s1.1) {
                        Option::Some(s2) => match env_step_v(s2.1) {
                            Option::Some(s3) => match env_step_v(s3.1) {
                                Option::Some(s4) => if !is_env_end_v(s4.1) {
                                    Result::Err(ParseError::DecodeError)
                                } else if s1.0 != NodeV::Atom(nft_state_layer_hash()) {
                                    Result::Err(ParseError::StructuralMismatch)
                                } else {
                                    match s3.0 {
                                        NodeV::Atom(updater) => if updater.len() != 32 {
                                            Result::Err(ParseError::DecodeError)
                                        } else {
                                            if node_height(s4.0) < node_height(n) {
                                                match parse_puzzle_v(s4.0) {
                                                    Result::Ok(inner) => Result::Ok(
                                                        LayerV::State {
                                                            metadata: s2.0,
                                                            metadata_updater_hash: updater,
                                                            inner_puzzle: Box::new(inner),
                                                        },
                                                    ),
                                                    Result::Err(e) => Result::Err(e),
                                                }
                                            } else {
                                                Result::Err(ParseError::DecodeError)
                                            }
                                        },
                                        _ => Result::Err(ParseError::DecodeError),
                                    }
                                },
                                Option::None => Result::Err(ParseError::DecodeError),
                            },
                            Option::None => Result::Err(ParseError::DecodeError),
                        },
                        Option::None => Result::Err(ParseError::DecodeError),
                    },
                    Option::None => Result::Err(ParseError::DecodeError),
                }
            } else if h == nft_ownership_layer_hash() {
                match env_step_v(env) {
                    Option::Some(s1) => match env_step_v(s1.1) {
                        Option::Some(s2) => match env_step_v(s2.1) {
                            Option::Some(s3) => match env_step_v(s3.1) {
                                Option::Some(s4) => if !is_env_end_v(s4.1) {
                                    Result::Err(ParseError::DecodeError)
                                } else if s1.0 != NodeV::Atom(nft_ownership_layer_hash()) {
                                    Result::Err(ParseError::StructuralMismatch)
                                } else {
                                    match parse_owner_v(s2.0) {
                                        Option::Some(owner) => {
                                            if node_height(s3.0) < node_height(n) && node_height(
                                                s4.0,
                                            ) < node_height(n) {
                                                match parse_puzzle_v(s3.0) {
                                                    Result::Ok(transfer) => match parse_puzzle_v(
                                                        s4.0,
                                                    ) {
                                                        Result::Ok(inner) => Result::Ok(
                                                            LayerV::Ownership {
                                                                current_owner: owner,
                                                                transfer_program: Box::new(
                                                                    transfer,
                                                                ),
                                                                inner_puzzle: Box::new(inner),
                                                            },
                                                        ),
                                                        Result::Err(e) => Result::Err(e),
                                                    },
                                                    Result::Err(e) => Result::Err(e),
                                                }
                                            } else {
                                                Result::Err(ParseError::DecodeError)
                                            }
                                        },
                                        Option::None => Result::Err(ParseError::DecodeError),
                                    }
                                },
                                Option::None => Result::Err(ParseError::DecodeError),
                            },
                            Option::None => Result::Err(ParseError::DecodeError),
                        },
                        Option::None => Result::Err(ParseError::DecodeError),
                    },
                    Option::None => Result::Err(ParseError::DecodeError),
                }
            } else if h == nft_royalty_transfer_hash() {
                match env_step_v(env) {
                    Option::Some(s1) => match env_step_v(s1.1) {
                        Option::Some(s2) => match env_step_v(s2.1) {
                            Option::Some(s3) => if !is_env_end_v(s3.1) {
                                Result::Err(ParseError::DecodeError)
                            } else {
                                match parse_struct_v(s1.0) {
                                    Option::Some(ss) => match s2.0 {
                                        NodeV::Atom(ph) => if ph.len() != 32 {
                                            Result::Err(ParseError::DecodeError)
                                        } else {
                                            match s3.0 {
                                                NodeV::Atom(pct) => if !pct_valid_v(pct) {
                                                    Result::Err(ParseError::DecodeError)
                                                } else {
                                                    Result::Ok(
                                                        LayerV::RoyaltyTransfer {
                                                            singleton_struct: ss,
                                                            royalty_puzzle_hash: ph,
                                                            royalty_percentage: decode_u16_v(pct),
                                                        },
                                                    )
                                                },
                                                _ => Result::Err(ParseError::DecodeError),
                                            }
                                        },
                                        _ => Result::Err(ParseError::DecodeError),
                                    },
                                    Option::None => Result::Err(ParseError::DecodeError),
                                }
                            },
                            Option::None => Result::Err(ParseError::DecodeError),
                        },
                        Option::None => Result::Err(ParseError::DecodeError),
                    },
                    Option::None => Result::Err(ParseError::DecodeError),
                }
            } else if h == standard_puzzle_hash() {
                match env_step_v(env) {
                    Option::Some(s1) => if !is_env_end_v(s1.1) {
                        Result::Err(ParseError::DecodeError)
                    } else {
                        match s1.0 {
                            NodeV::Atom(key) => if key.len() != 48 {
                                Result::Err(ParseError::DecodeError)
                            } else {
                                Result::Ok(LayerV::Standard { synthetic_key: key })
                            },
                            _ => Result::Err(ParseError::DecodeError),
                        }
                    },
                    Option::None => Result::Err(ParseError::DecodeError),
                }
            } else {
                Result::Ok(parse_terminal_v(n))
            }
        },
        Option::None => Result::Ok(parse_terminal_v(n)),
    }
}


/// Tests that a node is the atom of exactly the given bytes.
fn is_atom_bytes(n: &Node, expected: &[u8]) -> (r: bool)
    ensures
        r == (node_view(*n) == NodeV::Atom(expected@)),
{
    match n {
        Node::Atom(b) => bytes_eq(b.as_slice(), expected),
        Node::Pair(_, _) => false,
    }
}

/// Deconstructs the outer curried shape, yielding the program and the
/// environment.
fn curried_shape<'a>(n: &'a Node) -> (r: Option<(&'a Node, &'a Node)>)
    ensures
        match r {
            Option::Some(pe) => curried_shape_v(node_view(*n)) == Option::Some(
                (node_view(*pe.0), node_view(*pe.1)),
            ),
            Option::None => curried_shape_v(node_view(*n)) is None,
        },
{
    let two: [u8; 1] = [2u8];
    let one: [u8; 1] = [1u8];
    let empty: [u8; 0] = [];
    proof {
        reveal_with_fuel(node_view, 6);
        assert(two@ =~= seq![2u8]);
        assert(one@ =~= seq![1u8]);
        assert(empty@ =~= Seq::<u8>::empty());
    }
    match n {
        Node::Pair(op_a, rest) => {
            if !is_atom_bytes(op_a, two.as_slice()) {
                return Option::None;
            }
            match &**rest {
                Node::Pair(quoted_program, rest2) => {
                    match &**quoted_program {
                        Node::Pair(op_q, program) => {
                            if !is_atom_bytes(op_q, one.as_slice()) {
                                return Option::None;
                            }
                            match &**rest2 {
                                Node::Pair(env, nil_node) => {
                                    if !is_atom_bytes(nil_node, empty.as_slice()) {
                                        return Option::None;
                                    }
                                    Option::Some((&**program, &**env))
                                },
                                Node::Atom(_) => Option::None,
                            }
                        },
                        Node::Atom(_) => Option::None,
                    }
                },
                Node::Atom(_) => Option::None,
            }
        },
        Node::Atom(_) => Option::None,
    }
}

/// Deconstructs one argument step of a curried environment.
fn env_step<'a>(env: &'a Node) -> (r: Option<(&'a Node, &'a Node)>)
    ensures
        match r {
            Option::Some(at) => env_step_v(node_view(*env)) == Option::Some(
                (node_view(*at.0), node_view(*at.1)),
            ),
            Option::None => env_step_v(node_view(*env)) is None,
        },
{
    let four: [u8; 1] = [4u8];
    let one: [u8; 1] = [1u8];
    let empty: [u8; 0] = [];
    proof {
        reveal_with_fuel(node_view, 6);
        assert(four@ =~= seq![4u8]);
        assert(one@ =~= seq![1u8]);
        assert(empty@ =~= Seq::<u8>::empty());
    }
    match env {
        Node::Pair(op_c, rest) => {
            if !is_atom_bytes(op_c, four.as_slice()) {
                return Option::None;
            }
            match &**rest {
                Node::Pair(quoted_arg, rest2) => {
                    match &**quoted_arg {
                        Node::Pair(op_q, arg) => {
                            if !is_atom_bytes(op_q, one.as_slice()) {
                                return Option::None;
                            }
                            match &**rest2 {
                                Node::Pair(tail, nil_node) => {
                                    if !is_atom_bytes(nil_node, empty.as_slice()) {
                                        return Option::None;
                                    }
                                    Option::Some((&**arg, &**tail))
                                },
                                Node::Atom(_) => Option::None,
                            }
                        },
                        Node::Atom(_) => Option::None,
                    }
                },
                Node::Atom(_) => Option::None,
            }
        },
        Node::Atom(_) => Option::None,
    }
}

/// Tests the terminator of a curried environment.
fn is_env_end(env: &Node) -> (r: bool)
    ensures
        r == is_env_end_v(node_view(*env)),
{
    let one: [u8; 1] = [1u8];
    proof {
        assert(one@ =~= seq![1u8]);
    }
    is_atom_bytes(env, one.as_slice())
}

/// Deconstructs a singleton struct node.
fn parse_struct(n: &Node) -> (r: Option<SingletonStruct>)
    ensures
        match r {
            Option::Some(ss) => parse_struct_v(node_view(*n)) == Option::Some(ss@) && ss.wf(),
            Option::None => parse_struct_v(node_view(*n)) is None,
        },
{
    proof {
        reveal_with_fuel(node_view, 6);
    }
    match n {
        Node::Pair(mod_hash, rest) => {
            match (&**mod_hash, &**rest) {
                (Node::Atom(m), Node::Pair(launcher_id, launcher_puzzle_hash)) => {
                    match (&**launcher_id, &**launcher_puzzle_hash) {
                        (Node::Atom(l), Node::Atom(p)) => {
                            if m.len() == 32 && l.len() == 32 && p.len() == 32 {
                                Option::Some(
                                    SingletonStruct {
                                        mod_hash: Bytes32::new(clone_bytes(m)),
                                        launcher_id: Bytes32::new(clone_bytes(l)),
                                        launcher_puzzle_hash: Bytes32::new(clone_bytes(p)),
                                    },
                                )
                            } else {
                                Option::None
                            }
                        },
                        _ => Option::None,
                    }
                },
                _ => Option::None,
            }
        },
        Node::Atom(_) => Option::None,
    }
}

/// Decodes a canonical percentage atom.
fn parse_pct(b: &Vec<u8>) -> (r: Option<u16>)
    ensures
        match r {
            Option::Some(v) => pct_valid_v(b@) && v == decode_u16_v(b@),
            Option::None => !pct_valid_v(b@),
        },
{
    if b.len() == 0 {
        Option::Some(0u16)
    } else if b[0] == 0 {
        Option::None
    } else if b.len() == 1 {
        Option::Some(b[0] as u16)
    } else if b.len() == 2 {
        Option::Some((b[0] as u16) * 256 + (b[1] as u16))
    } else {
        Option::None
    }
}

/// Parses a node into a typed layer, trying each candidate shape in order
/// and keeping an unrecognized node verbatim.
pub fn parse_puzzle(n: &Node) -> (r: Result<PuzzleLayer, ParseError>)
    ensures
        match r {
            Result::Ok(l) => parse_puzzle_v(node_view(*n)) == Result::Ok::<LayerV, ParseError>(
                crate::layers::layer_view(l),
            ),
            Result::Err(e) => parse_puzzle_v(node_view(*n)) == Result::Err::<LayerV, ParseError>(e),
        },
    decreases node_height(node_view(*n)),
{
    let ghost nv = node_view(*n);
    proof {
        lemma_curried_shape_height(nv);
    }
    let pe = match curried_shape(n) {
        Option::Some(pe) => pe,
        Option::None => {
            return Result::Ok(parse_terminal(n));
        },
    };
    let program = pe.0;
    let env = pe.1;
    let h = tree_hash(program);
    proof {
        lemma_env_step_height(node_view(*env));
    }
    if bytes_eq(h.as_slice(), crate::puzzles::singleton_top_layer_hash_bytes().as_slice()) {
        let s1 = match env_step(env) {
            Option::Some(s) => s,
            Option::None => {
                return Result::Err(ParseError::DecodeError);
            },
        };
        proof {
            lemma_env_step_height(node_view(*s1.1));
        }
        let s2 = match env_step(s1.1) {
            Option::Some(s) => s,
            Option::None => {
                return Result::Err(ParseError::DecodeError);
            },
        };
        if !is_env_end(s2.1) {
            return Result::Err(ParseError::DecodeError);
        }
        let ss = match parse_struct(s1.0) {
            Option::Some(ss) => ss,
            Option::None => {
                return Result::Err(ParseError::DecodeError);
            },
        };
        let canonical = ss.mod_hash.equals(
            &Bytes32::new(crate::puzzles::singleton_top_layer_hash_bytes()),
        ) && ss.launcher_puzzle_hash.equals(
            &Bytes32::new(crate::puzzles::singleton_launcher_hash_bytes()),
        );
        if !canonical {
            return Result::Err(ParseError::InvalidSingletonStruct);
        }
        proof {
            assert(node_height(node_view(*s2.0)) < node_height(nv));
        }
        match parse_puzzle(s2.0) {
            Result::Ok(inner) => Result::Ok(
                PuzzleLayer::Singleton(
                    SingletonLayer { singleton_struct: ss, inner_puzzle: Box::new(inner) },
                ),
            ),
            Result::Err(e) => Result::Err(e),
        }
    } else if bytes_eq(h.as_slice(), crate::puzzles::nft_state_layer_hash_bytes().as_slice()) {
        let s1 = match env_step(env) {
            Option::Some(s) => s,
            Option::None => {
                return Result::Err(ParseError::DecodeError);
            },
        };
        proof {
            lemma_env_step_height(node_view(*s1.1));
        }
        let s2 = match env_step(s1.1) {
            Option::Some(s) => s,
            Option::None => {
                return Result::Err(ParseError::DecodeError);
            },
        };
        proof {
            lemma_env_step_height(node_view(*s2.1));
        }
        let s3 = match env_step(s2.1) {
            Option::Some(s) => s,
            Option::None => {
                return Result::Err(ParseError::DecodeError);
            },
        };
        proof {
            lemma_env_step_height(node_view(*s3.1));
        }
        let s4 = match env_step(s3.1) {
            Option::Some(s) => s,
            Option::None => {
                return Result::Err(ParseError::DecodeError);
            },
        };
        if !is_env_end(s4.1) {
            return Result::Err(ParseError::DecodeError);
        }
        if !is_atom_bytes(s1.0, crate::puzzles::nft_state_layer_hash_bytes().as_slice()) {
            return Result::Err(ParseError::StructuralMismatch);
        }
        let updater = match s3.0 {
            Node::Atom(b) => {
                if b.len() != 32 {
                    return Result::Err(ParseError::DecodeError);
                }
                Bytes32::new(clone_bytes(b))
            },
            Node::Pair(_, _) => {
                return Result::Err(ParseError::DecodeError);
            },
        };
        proof {
            assert(node_height(node_view(*s4.0)) < node_height(nv));
        }
        match parse_puzzle(s4.0) {
            Result::Ok(inner) => Result::Ok(
                PuzzleLayer::State(
                    StateLayer {
                        metadata: clone_node(s2.0),
                        metadata_updater_hash: updater,
                        inner_puzzle: Box::new(inner),
                    },
                ),
            ),
            Result::Err(e) => Result::Err(e),
        }
    } else if bytes_eq(h.as_slice(), crate::puzzles::nft_ownership_layer_hash_bytes().as_slice()) {
        let s1 = match env_step(env) {
            Option::Some(s) => s,
            Option::None => {
                return Result::Err(ParseError::DecodeError);
            },
        };
        proof {
            lemma_env_step_height(node_view(*s1.1));
        }
        let s2 = match env_step(s1.1) {
            Option::Some(s) => s,
            Option::None => {
                return Result::Err(ParseError::DecodeError);
            },
        };
        proof {
            lemma_env_step_height(node_view(*s2.1));
        }
        let s3 = match env_step(s2.1) {
            Option::Some(s) => s,
            Option::None => {
                return Result::Err(ParseError::DecodeError);
            },
        };
        proof {
            lemma_env_step_height(node_view(*s3.1));
        }
        let s4 = match env_step(s3.1) {
            Option::Some(s) => s,
            Option::None => {
                return Result::Err(ParseError::DecodeError);
            },
        };
        if !is_env_end(s4.1) {
            return Result::Err(ParseError::DecodeError);
        }
        if !is_atom_bytes(s1.0, crate::puzzles::nft_ownership_layer_hash_bytes().as_slice()) {
            return Result::Err(ParseError::StructuralMismatch);
        }
        let owner: Option<Bytes32> = match s2.0 {
            Node::Atom(b) => {
                if b.len() == 0 {
                    Option::None
                } else if b.len() == 32 {
                    Option::Some(Bytes32::new(clone_bytes(b)))
                } else {
                    return Result::Err(ParseError::DecodeError);
                }
            },
            Node::Pair(_, _) => {
                return Result::Err(ParseError::DecodeError);
            },
        };
        proof {
            assert(node_height(node_view(*s3.0)) < node_height(nv));
            assert(node_height(node_view(*s4.0)) < node_height(nv));
        }
        let transfer = match parse_puzzle(s3.0) {
            Result::Ok(t) => t,
            Result::Err(e) => {
                return Result::Err(e);
            },
        };
        match parse_puzzle(s4.0) {
            Result::Ok(inner) => Result::Ok(
                PuzzleLayer::Ownership(
                    OwnershipLayer {
                        current_owner: owner,
                        transfer_program: Box::new(transfer),
                        inner_puzzle: Box::new(inner),
                    },
                ),
            ),
            Result::Err(e) => Result::Err(e),
        }
    } else if bytes_eq(
        h.as_slice(),
        crate::puzzles::nft_royalty_transfer_hash_bytes().as_slice(),
    ) {
        let s1 = match env_step(env) {
            Option::Some(s) => s,
            Option::None => {
                return Result::Err(ParseError::DecodeError);
            },
        };
        proof {
            lemma_env_step_height(node_view(*s1.1));
        }
        let s2 = match env_step(s1.1) {
            Option::Some(s) => s,
            Option::None => {
                return Result::Err(ParseError::DecodeError);
            },
        };
        proof {
            lemma_env_step_height(node_view(*s2.1));
        }
        let s3 = match env_step(s2.1) {
            Option::Some(s) => s,
            Option::None => {
                return Result::Err(ParseError::DecodeError);
            },
        };
        if !is_env_end(s3.1) {
            return Result::Err(ParseError::DecodeError);
        }
        let ss = match parse_struct(s1.0) {
            Option::Some(ss) => ss,
            Option::None => {
                return Result::Err(ParseError::DecodeError);
            },
        };
        let ph = match s2.0 {
            Node::Atom(b) => {
                if b.len() != 32 {
                    return Result::Err(ParseError::DecodeError);
                }
                Bytes32::new(clone_bytes(b))
            },
            Node::Pair(_, _) => {
                return Result::Err(ParseError::DecodeError);
            },
        };
        let pct = match s3.0 {
            Node::Atom(b) => {
                match parse_pct(b) {
                    Option::Some(v) => v,
                    Option::None => {
                        return Result::Err(ParseError::DecodeError);
                    },
                }
            },
            Node::Pair(_, _) => {
                return Result::Err(ParseError::DecodeError);
            },
        };
        Result::Ok(
            PuzzleLayer::RoyaltyTransfer(
                RoyaltyTransferLayer {
                    singleton_struct: ss,
                    royalty_puzzle_hash: ph,
                    royalty_percentage: pct,
                },
            ),
        )
    } else if bytes_eq(h.as_slice(), crate::puzzles::standard_puzzle_hash_bytes().as_slice()) {
        let s1 = match env_step(env) {
            Option::Some(s) => s,
            Option::None => {
                return Result::Err(ParseError::DecodeError);
            },
        };
        if !is_env_end(s1.1) {
            return Result::Err(ParseError::DecodeError);
        }
        match s1.0 {
            Node::Atom(b) => {
                if b.len() != 48 {
                    return Result::Err(ParseError::DecodeError);
                }
                Result::Ok(
                    PuzzleLayer::Standard(
                        StandardLayer { synthetic_key: PublicKey::new(clone_bytes(b)) },
                    ),
                )
            },
            Node::Pair(_, _) => Result::Err(ParseError::DecodeError),
        }
    } else {
        Result::Ok(parse_terminal(n))
    }
}

/// The terminal candidates: recognize the settlement payments program by
/// its hash, else keep the node raw.
fn parse_terminal(n: &Node) -> (r: PuzzleLayer)
    ensures
        crate::layers::layer_view(r) == parse_terminal_v(node_view(*n)),
{
    let h = tree_hash(n);
    if bytes_eq(h.as_slice(), settlement_payments_hash_bytes().as_slice()) {
        PuzzleLayer::Settlement(SettlementLayer)
    } else {
        PuzzleLayer::Raw(RawLayer { puzzle: clone_node(n) })
    }
}


/// The layers that parsing can recover exactly: every curried shape, with
/// inner puzzles of the same kind, ending in the standard pay-to-key
/// layer or a royalty transfer program. The settlement program and raw
/// nodes are consumed opaquely, so nothing ties their node shapes apart
/// from the curried candidates.
pub open spec fn parseable_v(l: LayerV) -> bool
    decreases l,
{
    match l {
        LayerV::Singleton { singleton_struct, inner_puzzle } => parseable_v(*inner_puzzle),
        LayerV::State { metadata, metadata_updater_hash, inner_puzzle } => parseable_v(
            *inner_puzzle,
        ),
        LayerV::Ownership { current_owner, transfer_program, inner_puzzle } => parseable_v(
            *transfer_program,
        ) && parseable_v(*inner_puzzle),
        LayerV::RoyaltyTransfer { .. } => true,
        LayerV::Standard { .. } => true,
        LayerV::Settlement => false,
        LayerV::Raw { .. } => false,
    }
}

/// A constructed curried application deconstructs into its program and
/// its environment.
proof fn lemma_curried_shape_of_curried(program: NodeV, args: Seq<NodeV>)
    ensures
        curried_shape_v(crate::node::curried_v(program, args)) == Option::Some(
            (program, crate::node::curry_env_v(args)),
        ),
{
}

/// A constructed environment steps to its first argument and the
/// environment of the rest; an empty environment is the terminator.
proof fn lemma_env_step_of_curry_env(args: Seq<NodeV>)
    ensures
        args.len() > 0 ==> env_step_v(crate::node::curry_env_v(args)) == Option::Some(
            (args[0], crate::node::curry_env_v(args.skip(1)))),
        args.len() == 0 ==> is_env_end_v(crate::node::curry_env_v(args)),
{
}

/// The documented program hashes are pairwise distinct: their first bytes
/// already differ.
proof fn lemma_hashes_distinct()
    ensures
        singleton_top_layer_hash() != nft_state_layer_hash(),
        singleton_top_layer_hash() != nft_ownership_layer_hash(),
        singleton_top_layer_hash() != nft_royalty_transfer_hash(),
        singleton_top_layer_hash() != standard_puzzle_hash(),
        nft_state_layer_hash() != nft_ownership_layer_hash(),
        nft_state_layer_hash() != nft_royalty_transfer_hash(),
        nft_state_layer_hash() != standard_puzzle_hash(),
        nft_ownership_layer_hash() != nft_royalty_transfer_hash(),
        nft_ownership_layer_hash() != standard_puzzle_hash(),
        nft_royalty_transfer_hash() != standard_puzzle_hash(),
{
    assert(singleton_top_layer_hash()[0] == 0x7fu8);
    assert(nft_state_layer_hash()[0] == 0xa0u8);
    assert(nft_ownership_layer_hash()[0] == 0xc5u8);
    assert(nft_royalty_transfer_hash()[0] == 0x02u8);
    assert(standard_puzzle_hash()[0] == 0xe9u8);
}

/// A constructed singleton struct node deconstructs back into the struct.
proof fn lemma_parse_struct_of_node(ss: SingletonStructV)
    requires
        struct_wf_v(ss),
    ensures
        parse_struct_v(crate::layers::singleton_struct_node_v(ss)) == Option::Some(ss),
{
}

/// Round trip: parsing the fully constructed node of any valid,
/// recognizable layer recovers exactly that layer. Construction loses
/// nothing that recognition needs.
pub proof fn lemma_parse_roundtrip(l: LayerV, c: crate::puzzles::SpendContextV)
    requires
        crate::puzzles::ctx_wf(c),
        crate::layers::layer_wf_v(l),
        parseable_v(l),
    ensures
        parse_puzzle_v(crate::layers::construct_puzzle_v(l, c)) == Result::Ok::<
            LayerV,
            ParseError,
        >(l),
    decreases l,
{
    lemma_hashes_distinct();
    let n = crate::layers::construct_puzzle_v(l, c);
    match l {
        LayerV::Singleton { singleton_struct, inner_puzzle } => {
            let args = seq![
                crate::layers::singleton_struct_node_v(singleton_struct),
                crate::layers::construct_puzzle_v(*inner_puzzle, c),
            ];
            lemma_curried_shape_of_curried(c.singleton_top_layer, args);
            lemma_env_step_of_curry_env(args);
            assert(args.skip(1)[0] == args[1]);
            lemma_env_step_of_curry_env(args.skip(1));
            assert(args.skip(1).skip(1) =~= Seq::<NodeV>::empty());
            lemma_env_step_of_curry_env(args.skip(1).skip(1));
            lemma_parse_struct_of_node(singleton_struct);
            lemma_curried_shape_height(n);
            lemma_env_step_height(crate::node::curry_env_v(args));
            lemma_env_step_height(crate::node::curry_env_v(args.skip(1)));
            lemma_parse_roundtrip(*inner_puzzle, c);
        },
        LayerV::State { metadata, metadata_updater_hash, inner_puzzle } => {
            let args = seq![
                NodeV::Atom(nft_state_layer_hash()),
                metadata,
                NodeV::Atom(metadata_updater_hash),
                crate::layers::construct_puzzle_v(*inner_puzzle, c),
            ];
            lemma_curried_shape_of_curried(c.nft_state_layer, args);
            lemma_env_step_of_curry_env(args);
            assert(args.skip(1)[0] == args[1]);
            assert(args.skip(1).skip(1) =~= args.skip(2));
            assert(args.skip(2)[0] == args[2]);
            assert(args.skip(2).skip(1) =~= args.skip(3));
            assert(args.skip(3)[0] == args[3]);
            assert(args.skip(3).skip(1) =~= args.skip(4));
            assert(args.skip(4) =~= Seq::<NodeV>::empty());
            lemma_env_step_of_curry_env(args.skip(1));
            lemma_env_step_of_curry_env(args.skip(2));
            lemma_env_step_of_curry_env(args.skip(3));
            lemma_env_step_of_curry_env(args.skip(4));
            lemma_curried_shape_height(n);
            lemma_env_step_height(crate::node::curry_env_v(args));
            lemma_env_step_height(crate::node::curry_env_v(args.skip(1)));
            lemma_env_step_height(crate::node::curry_env_v(args.skip(2)));
            lemma_env_step_height(crate::node::curry_env_v(args.skip(3)));
            lemma_parse_roundtrip(*inner_puzzle, c);
        },
        LayerV::Ownership { current_owner, transfer_program, inner_puzzle } => {
            let args = seq![
                NodeV::Atom(nft_ownership_layer_hash()),
                crate::layers::owner_node_v(current_owner),
                crate::layers::construct_puzzle_v(*transfer_program, c),
                crate::layers::construct_puzzle_v(*inner_puzzle, c),
            ];
            lemma_curried_shape_of_curried(c.nft_ownership_layer, args);
            lemma_env_step_of_curry_env(args);
            assert(args.skip(1)[0] == args[1]);
            assert(args.skip(1).skip(1) =~= args.skip(2));
            assert(args.skip(2)[0] == args[2]);
            assert(args.skip(2).skip(1) =~= args.skip(3));
            assert(args.skip(3)[0] == args[3]);
            assert(args.skip(3).skip(1) =~= args.skip(4));
            assert(args.skip(4) =~= Seq::<NodeV>::empty());
            lemma_env_step_of_curry_env(args.skip(1));
            lemma_env_step_of_curry_env(args.skip(2));
            lemma_env_step_of_curry_env(args.skip(3));
            lemma_env_step_of_curry_env(args.skip(4));
            lemma_curried_shape_height(n);
            lemma_env_step_height(crate::node::curry_env_v(args));
            lemma_env_step_height(crate::node::curry_env_v(args.skip(1)));
            lemma_env_step_height(crate::node::curry_env_v(args.skip(2)));
            lemma_env_step_height(crate::node::curry_env_v(args.skip(3)));
            match current_owner {
                Option::Some(o) => {
                    assert(crate::layers::owner_node_v(current_owner) == NodeV::Atom(o));
                    assert(parse_owner_v(args[1]) == Option::Some(current_owner));
                },
                Option::None => {
                    assert(crate::layers::owner_node_v(current_owner) == NodeV::Atom(
                        Seq::<u8>::empty(),
                    ));
                    assert(parse_owner_v(args[1]) == Option::Some(current_owner));
                },
            }
            lemma_parse_roundtrip(*transfer_program, c);
            lemma_parse_roundtrip(*inner_puzzle, c);
        },
        LayerV::RoyaltyTransfer { singleton_struct, royalty_puzzle_hash, royalty_percentage } => {
            let args = seq![
                crate::layers::singleton_struct_node_v(singleton_struct),
                NodeV::Atom(royalty_puzzle_hash),
                NodeV::Atom(min_be_bytes(royalty_percentage as nat)),
            ];
            lemma_curried_shape_of_curried(c.nft_royalty_transfer, args);
            lemma_env_step_of_curry_env(args);
            assert(args.skip(1)[0] == args[1]);
            assert(args.skip(1).skip(1) =~= args.skip(2));
            assert(args.skip(2)[0] == args[2]);
            assert(args.skip(2).skip(1) =~= args.skip(3));
            assert(args.skip(3) =~= Seq::<NodeV>::empty());
            lemma_env_step_of_curry_env(args.skip(1));
            lemma_env_step_of_curry_env(args.skip(2));
            lemma_env_step_of_curry_env(args.skip(3));
            lemma_parse_struct_of_node(singleton_struct);
            lemma_decode_min_be(royalty_percentage);
        },
        LayerV::Standard { synthetic_key } => {
            let args = seq![NodeV::Atom(synthetic_key)];
            lemma_curried_shape_of_curried(c.standard_puzzle, args);
            lemma_env_step_of_curry_env(args);
            assert(args.skip(1) =~= Seq::<NodeV>::empty());
            lemma_env_step_of_curry_env(args.skip(1));
        },
        LayerV::Settlement => {
        },
        LayerV::Raw { puzzle } => {
        },
    }
}

/// Structural rejection: a constructed singleton whose embedded struct
/// constants were tampered with fails parsing with the structural error,
/// never silently and never with a recognition miss.
pub proof fn lemma_structural_rejection(
    singleton_struct: SingletonStructV,
    inner: LayerV,
    c: crate::puzzles::SpendContextV,
)
    requires
        crate::puzzles::ctx_wf(c),
        struct_wf_v(singleton_struct),
        !singleton_struct_canonical(singleton_struct),
    ensures
        parse_puzzle_v(
            crate::layers::construct_puzzle_v(
                LayerV::Singleton {
                    singleton_struct,
                    inner_puzzle: Box::new(inner),
                },
                c,
            ),
        ) == Result::Err::<LayerV, ParseError>(ParseError::InvalidSingletonStruct),
{
    lemma_hashes_distinct();
    let l = LayerV::Singleton { singleton_struct, inner_puzzle: Box::new(inner) };
    let n = crate::layers::construct_puzzle_v(l, c);
    let args = seq![
        crate::layers::singleton_struct_node_v(singleton_struct),
        crate::layers::construct_puzzle_v(inner, c),
    ];
    lemma_curried_shape_of_curried(c.singleton_top_layer, args);
    lemma_env_step_of_curry_env(args);
    assert(args.skip(1)[0] == args[1]);
    lemma_env_step_of_curry_env(args.skip(1));
    assert(args.skip(1).skip(1) =~= Seq::<NodeV>::empty());
    lemma_env_step_of_curry_env(args.skip(1).skip(1));
    lemma_parse_struct_of_node(singleton_struct);
}

} // verus!
