//! S-expression nodes and their content hashes.
//!
//! A node is either an atom of bytes or a pair of nodes. The curried form
//! of a program — the application of a fixed program to quoted argument
//! values — is a fixed node shape, and its hash can be computed from the
//! hashes of the program and the arguments alone. The equivalence of that
//! shortcut with hashing the fully constructed node is proved here.

use vstd::prelude::*;
use crate::hashing::{atom_hash, pair_hash, sha256, tree_hash_atom, tree_hash_pair};

verus! {

/// An immutable S-expression node.
#[derive(Debug, PartialEq, Eq)]
pub enum Node {
    Atom(Vec<u8>),
    Pair(Box<Node>, Box<Node>),
}

/// The abstract value of a node: the same tree over byte sequences.
pub enum NodeV {
    Atom(Seq<u8>),
    Pair(Box<NodeV>, Box<NodeV>),
}

/// The abstract value of a node.
pub open spec fn node_view(n: Node) -> NodeV
    decreases n,
{
    match n {
        Node::Atom(bytes) => NodeV::Atom(bytes@),
        Node::Pair(left, right) => NodeV::Pair(
            Box::new(node_view(*left)),
            Box::new(node_view(*right)),
        ),
    }
}

/// The content hash of a node: atoms hash their bytes behind a one byte
/// marker, pairs hash the two child hashes behind a two byte marker.
pub open spec fn tree_hash_v(n: NodeV) -> Seq<u8>
    decreases n,
{
    match n {
        NodeV::Atom(bytes) => atom_hash(bytes),
        NodeV::Pair(left, right) => pair_hash(tree_hash_v(*left), tree_hash_v(*right)),
    }
}

/// Computes the content hash of a node.
pub fn tree_hash(n: &Node) -> (r: Vec<u8>)
    ensures
        r@ == tree_hash_v(node_view(*n)),
        r@.len() == 32,
    decreases *n,
{
    match n {
        Node::Atom(bytes) => tree_hash_atom(bytes.as_slice()),
        Node::Pair(left, right) => {
            let lh = tree_hash(left);
            let rh = tree_hash(right);
            tree_hash_pair(lh.as_slice(), rh.as_slice())
        },
    }
}

/// The height of a node tree: atoms have height zero.
pub open spec fn node_height(n: NodeV) -> nat
    decreases n,
{
    match n {
        NodeV::Atom(_) => 0,
        NodeV::Pair(left, right) => 1 + if node_height(*left) >= node_height(*right) {
            node_height(*left)
        } else {
            node_height(*right)
        },
    }
}

/// Copies a node tree.
pub fn clone_node(n: &Node) -> (r: Node)
    ensures
        node_view(r) == node_view(*n),
    decreases *n,
{
    match n {
        Node::Atom(bytes) => Node::Atom(crate::coin::clone_bytes(bytes)),
        Node::Pair(left, right) => Node::Pair(
            Box::new(clone_node(left)),
            Box::new(clone_node(right)),
        ),
    }
}

/// The empty atom, which terminates every proper list.
pub fn nil() -> (r: Node)
    ensures
        node_view(r) == NodeV::Atom(Seq::<u8>::empty()),
{
    let v: Vec<u8> = Vec::new();
    proof {
        assert(v@ =~= Seq::<u8>::empty());
    }
    Node::Atom(v)
}

/// An atom node holding the given bytes.
pub fn atom(bytes: Vec<u8>) -> (r: Node)
    ensures
        node_view(r) == NodeV::Atom(bytes@),
{
    Node::Atom(bytes)
}

/// A pair node.
pub fn pair(left: Node, right: Node) -> (r: Node)
    ensures
        node_view(r) == NodeV::Pair(Box::new(node_view(left)), Box::new(node_view(right))),
{
    Node::Pair(Box::new(left), Box::new(right))
}

/// The quotation of a node: a pair of the quote opcode atom and the node.
pub open spec fn quoted_v(n: NodeV) -> NodeV {
    NodeV::Pair(Box::new(NodeV::Atom(seq![1u8])), Box::new(n))
}

/// The environment part of a curried application: arguments are quoted and
/// chained with the cons opcode, ending in the atom that names the whole
/// environment.
pub open spec fn curry_env_v(args: Seq<NodeV>) -> NodeV
    decreases args.len(),
{
    if args.len() == 0 {
        NodeV::Atom(seq![1u8])
    } else {
        NodeV::Pair(
            Box::new(NodeV::Atom(seq![4u8])),
            Box::new(
                NodeV::Pair(
                    Box::new(quoted_v(args[0])),
                    Box::new(
                        NodeV::Pair(
                            Box::new(curry_env_v(args.skip(1))),
                            Box::new(NodeV::Atom(Seq::<u8>::empty())),
                        ),
                    ),
                ),
            ),
        )
    }
}

/// The curried application of a program to quoted arguments: the apply
/// opcode, the quoted program, and the argument environment.
pub open spec fn curried_v(program: NodeV, args: Seq<NodeV>) -> NodeV {
    NodeV::Pair(
        Box::new(NodeV::Atom(seq![2u8])),
        Box::new(
            NodeV::Pair(
                Box::new(quoted_v(program)),
                Box::new(
                    NodeV::Pair(
                        Box::new(curry_env_v(args)),
                        Box::new(NodeV::Atom(Seq::<u8>::empty())),
                    ),
                ),
            ),
        ),
    )
}

/// The abstract values of a sequence of nodes.
pub open spec fn nodes_view(s: Seq<Node>) -> Seq<NodeV> {
    s.map_values(|n: Node| node_view(n))
}

/// Quotes a node.
pub fn quote(n: Node) -> (r: Node)
    ensures
        node_view(r) == quoted_v(node_view(n)),
{
    let mut marker: Vec<u8> = Vec::new();
    marker.push(1u8);
    proof {
        assert(marker@ =~= seq![1u8]);
    }
    pair(Node::Atom(marker), n)
}

/// Constructs the curried application of a program to quoted arguments.
pub fn curried(program: Node, args: Vec<Node>) -> (r: Node)
    ensures
        node_view(r) == curried_v(node_view(program), nodes_view(args@)),
{
    let ghost all_views: Seq<NodeV> = nodes_view(args@);
    let mut args = args;
    let mut one: Vec<u8> = Vec::new();
    one.push(1u8);
    proof {
        assert(one@ =~= seq![1u8]);
    }
    let mut env = Node::Atom(one);
    proof {
        assert(all_views.skip(args@.len() as int) =~= Seq::<NodeV>::empty());
    }
    while args.len() > 0
        invariant
            args@.len() <= all_views.len(),
            nodes_view(args@) =~= all_views.subrange(0, args@.len() as int),
            node_view(env) == curry_env_v(all_views.skip(args@.len() as int)),
        decreases args@.len(),
    {
        let ghost k = args@.len() - 1;
        proof {
            assert(nodes_view(args@)[k] == node_view(args@[k]));
            assert(nodes_view(args@)[k] == all_views[k]);
        }
        let arg = args.pop().unwrap();
        proof {
            assert(node_view(arg) == all_views[k]);
            assert(nodes_view(args@) =~= all_views.subrange(0, k));
            assert(all_views.skip(k).skip(1) =~= all_views.skip(k + 1));
            assert(all_views.skip(k)[0] == all_views[k]);
        }
        let mut four: Vec<u8> = Vec::new();
        four.push(4u8);
        proof {
            assert(four@ =~= seq![4u8]);
        }
        env = pair(Node::Atom(four), pair(quote(arg), pair(env, nil())));
    }
    proof {
        assert(all_views.skip(0) =~= all_views);
    }
    let mut two: Vec<u8> = Vec::new();
    two.push(2u8);
    proof {
        assert(two@ =~= seq![2u8]);
    }
    pair(Node::Atom(two), pair(quote(program), pair(env, nil())))
}

/// The proper list over the given nodes, terminated by the empty atom.
pub open spec fn list_v(items: Seq<NodeV>) -> NodeV
    decreases items.len(),
{
    if items.len() == 0 {
        NodeV::Atom(Seq::<u8>::empty())
    } else {
        NodeV::Pair(Box::new(items[0]), Box::new(list_v(items.skip(1))))
    }
}

/// Builds the proper list over the given nodes.
pub fn list_from(items: Vec<Node>) -> (r: Node)
    ensures
        node_view(r) == list_v(nodes_view(items@)),
{
    let ghost all_views: Seq<NodeV> = nodes_view(items@);
    let mut items = items;
    let mut r = nil();
    proof {
        assert(all_views.skip(items@.len() as int) =~= Seq::<NodeV>::empty());
    }
    while items.len() > 0
        invariant
            items@.len() <= all_views.len(),
            nodes_view(items@) =~= all_views.subrange(0, items@.len() as int),
            node_view(r) == list_v(all_views.skip(items@.len() as int)),
        decreases items@.len(),
    {
        let ghost k = items@.len() - 1;
        proof {
            assert(nodes_view(items@)[k] == node_view(items@[k]));
            assert(nodes_view(items@)[k] == all_views[k]);
        }
        let item = items.pop().unwrap();
        proof {
            assert(node_view(item) == all_views[k]);
            assert(nodes_view(items@) =~= all_views.subrange(0, k));
            assert(all_views.skip(k).skip(1) =~= all_views.skip(k + 1));
            assert(all_views.skip(k)[0] == all_views[k]);
        }
        r = pair(item, r);
    }
    proof {
        assert(all_views.skip(0) =~= all_views);
    }
    r
}

/// The shortcut hash of the argument environment, computed from the
/// argument hashes alone.
pub open spec fn curry_env_hash_v(arg_hashes: Seq<Seq<u8>>) -> Seq<u8>
    decreases arg_hashes.len(),
{
    if arg_hashes.len() == 0 {
        atom_hash(seq![1u8])
    } else {
        pair_hash(
            atom_hash(seq![4u8]),
            pair_hash(
                pair_hash(atom_hash(seq![1u8]), arg_hashes[0]),
                pair_hash(curry_env_hash_v(arg_hashes.skip(1)), atom_hash(Seq::<u8>::empty())),
            ),
        )
    }
}

/// The shortcut hash of a curried application, computed from the program
/// hash and the argument hashes alone.
pub open spec fn curry_hash_v(program_hash: Seq<u8>, arg_hashes: Seq<Seq<u8>>) -> Seq<u8> {
    pair_hash(
        atom_hash(seq![2u8]),
        pair_hash(
            pair_hash(atom_hash(seq![1u8]), program_hash),
            pair_hash(curry_env_hash_v(arg_hashes), atom_hash(Seq::<u8>::empty())),
        ),
    )
}

/// The hashes of a sequence of nodes.
pub open spec fn hashes_of(args: Seq<NodeV>) -> Seq<Seq<u8>> {
    args.map_values(|a: NodeV| tree_hash_v(a))
}

/// Hash equivalence for the argument environment: hashing the constructed
/// environment node equals the shortcut over the argument hashes.
pub proof fn lemma_curry_env_hash(args: Seq<NodeV>)
    ensures
        tree_hash_v(curry_env_v(args)) == curry_env_hash_v(hashes_of(args)),
    decreases args.len(),
{
    reveal_with_fuel(tree_hash_v, 6);
    if args.len() == 0 {
        assert(hashes_of(args) =~= Seq::<Seq<u8>>::empty());
        assert(curry_env_hash_v(hashes_of(args)) == atom_hash(seq![1u8]));
        assert(tree_hash_v(curry_env_v(args)) == atom_hash(seq![1u8]));
    } else {
        lemma_curry_env_hash(args.skip(1));
        assert(hashes_of(args.skip(1)) =~= hashes_of(args).skip(1));
        assert(hashes_of(args)[0] == tree_hash_v(args[0]));
        assert(tree_hash_v(quoted_v(args[0])) == pair_hash(
            atom_hash(seq![1u8]),
            tree_hash_v(args[0]),
        ));
        assert(tree_hash_v(curry_env_v(args)) == pair_hash(
            atom_hash(seq![4u8]),
            pair_hash(
                tree_hash_v(quoted_v(args[0])),
                pair_hash(tree_hash_v(curry_env_v(args.skip(1))), atom_hash(Seq::<u8>::empty())),
            ),
        ));
        assert(curry_env_hash_v(hashes_of(args)) == pair_hash(
            atom_hash(seq![4u8]),
            pair_hash(
                pair_hash(atom_hash(seq![1u8]), hashes_of(args)[0]),
                pair_hash(
                    curry_env_hash_v(hashes_of(args).skip(1)),
                    atom_hash(Seq::<u8>::empty()),
                ),
            ),
        ));
    }
}

/// Hash equivalence for curried applications: hashing the fully
/// constructed application node equals the shortcut computed from the
/// program hash and the argument hashes. This is the law that lets an
/// outer layer commit to an inner puzzle without materializing it.
pub proof fn lemma_curry_hash(program: NodeV, args: Seq<NodeV>)
    ensures
        tree_hash_v(curried_v(program, args)) == curry_hash_v(
            tree_hash_v(program),
            hashes_of(args),
        ),
{
    reveal_with_fuel(tree_hash_v, 6);
    lemma_curry_env_hash(args);
    assert(tree_hash_v(quoted_v(program)) == pair_hash(atom_hash(seq![1u8]), tree_hash_v(program)));
    assert(tree_hash_v(curried_v(program, args)) == pair_hash(
        atom_hash(seq![2u8]),
        pair_hash(
            tree_hash_v(quoted_v(program)),
            pair_hash(tree_hash_v(curry_env_v(args)), atom_hash(Seq::<u8>::empty())),
        ),
    ));
}

/// Computes the shortcut hash of a curried application from the program
/// hash and the argument hashes.
pub fn curry_tree_hash(program_hash: &[u8], arg_hashes: &Vec<Vec<u8>>) -> (r: Vec<u8>)
    ensures
        r@ == curry_hash_v(program_hash@, arg_hashes.deep_view()),
        r@.len() == 32,
{
    let one: [u8; 1] = [1u8];
    let two: [u8; 1] = [2u8];
    let four: [u8; 1] = [4u8];
    let empty: [u8; 0] = [];
    let nil_hash = tree_hash_atom(empty.as_slice());
    let op_q = tree_hash_atom(one.as_slice());
    let op_a = tree_hash_atom(two.as_slice());
    let op_c = tree_hash_atom(four.as_slice());
    proof {
        assert(one@ =~= seq![1u8]);
        assert(two@ =~= seq![2u8]);
        assert(four@ =~= seq![4u8]);
        assert(empty@ =~= Seq::<u8>::empty());
    }
    let mut env = tree_hash_atom(one.as_slice());
    let mut i: usize = arg_hashes.len();
    while i > 0
        invariant
            i <= arg_hashes@.len(),
            env@ == curry_env_hash_v(arg_hashes.deep_view().skip(i as int)),
            nil_hash@ == atom_hash(Seq::<u8>::empty()),
            op_q@ == atom_hash(seq![1u8]),
            op_c@ == atom_hash(seq![4u8]),
        decreases i,
    {
        i = i - 1;
        let quoted_arg = tree_hash_pair(op_q.as_slice(), arg_hashes[i].as_slice());
        let tail = tree_hash_pair(env.as_slice(), nil_hash.as_slice());
        let body = tree_hash_pair(quoted_arg.as_slice(), tail.as_slice());
        env = tree_hash_pair(op_c.as_slice(), body.as_slice());
        proof {
            let dv = arg_hashes.deep_view();
            assert(dv.skip(i as int)[0] == dv[i as int]);
            assert(dv[i as int] == arg_hashes@[i as int]@);
            assert(dv.skip(i as int).skip(1) =~= dv.skip(i as int + 1));
        }
    }
    proof {
        assert(arg_hashes.deep_view().skip(0) =~= arg_hashes.deep_view());
    }
    let quoted_program = tree_hash_pair(op_q.as_slice(), program_hash);
    let tail = tree_hash_pair(env.as_slice(), nil_hash.as_slice());
    let body = tree_hash_pair(quoted_program.as_slice(), tail.as_slice());
    tree_hash_pair(op_a.as_slice(), body.as_slice())
}

} // verus!
