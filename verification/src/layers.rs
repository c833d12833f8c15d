//! The typed puzzle layers.
//!
//! A puzzle is a nesting of a small, fixed set of layer shapes: the
//! singleton top layer, the asset state and ownership layers, the royalty
//! transfer program, the standard pay-to-key puzzle, the settlement
//! payments puzzle, and a raw node for anything unrecognized. Each layer
//! can be constructed into a node, recognized back out of a node, and
//! hashed by a closed-form shortcut that provably equals hashing the
//! constructed node.

use vstd::prelude::*;
use crate::coin::{Bytes32, PublicKey};
use crate::bytes::{min_be_bytes, u16_to_bytes};
use crate::hashing::{atom_hash, tree_hash_atom};
use crate::node::{
    clone_node,
    curried,
    curried_v,
    curry_hash_v,
    curry_tree_hash,
    hashes_of,
    lemma_curry_hash,
    node_view,
    nodes_view,
    pair,
    tree_hash,
    tree_hash_v,
    Node,
    NodeV,
};
use crate::puzzles::{
    ctx_wf,
    nft_ownership_layer_hash_bytes,
    nft_royalty_transfer_hash_bytes,
    nft_state_layer_hash_bytes,
    settlement_payments_hash,
    singleton_launcher_hash,
    singleton_launcher_hash_bytes,
    singleton_top_layer_hash,
    singleton_top_layer_hash_bytes,
    standard_puzzle_hash_bytes,
    SpendContext,
    SpendContextV,
};

verus! {

/// The structural identity binding every coin of one singleton lineage:
/// the top layer's own hash, the launcher coin's id, and the launcher
/// puzzle's hash.
#[derive(Debug, Clone, PartialEq, Eq)]
pub struct SingletonStruct {
    pub mod_hash: Bytes32,
    pub launcher_id: Bytes32,
    pub launcher_puzzle_hash: Bytes32,
}

/// The abstract value of a singleton struct.
pub struct SingletonStructV {
    pub mod_hash: Seq<u8>,
    pub launcher_id: Seq<u8>,
    pub launcher_puzzle_hash: Seq<u8>,
}

impl View for SingletonStruct {
    type V = SingletonStructV;

    open spec fn view(&self) -> SingletonStructV {
        SingletonStructV {
            mod_hash: self.mod_hash@,
            launcher_id: self.launcher_id@,
            launcher_puzzle_hash: self.launcher_puzzle_hash@,
        }
    }
}

/// A singleton struct is canonical when its two fixed fields hold the
/// documented constants; anything else is a structural error.
pub open spec fn singleton_struct_canonical(s: SingletonStructV) -> bool {
    s.mod_hash == singleton_top_layer_hash() && s.launcher_puzzle_hash
        == singleton_launcher_hash()
}

impl SingletonStruct {
    /// The fields are 32-byte values.
    pub open spec fn wf(&self) -> bool {
        self.mod_hash.wf() && self.launcher_id.wf() && self.launcher_puzzle_hash.wf()
    }

    /// The canonical struct for a launcher id.
    pub fn new(launcher_id: Bytes32) -> (r: SingletonStruct)
        ensures
            r@.launcher_id == launcher_id@,
            singleton_struct_canonical(r@),
            launcher_id.wf() ==> r.wf(),
    {
        SingletonStruct {
            mod_hash: Bytes32::new(singleton_top_layer_hash_bytes()),
            launcher_id,
            launcher_puzzle_hash: Bytes32::new(singleton_launcher_hash_bytes()),
        }
    }

    /// A copy of the struct.
    pub fn duplicate(&self) -> (r: SingletonStruct)
        ensures
            r@ == self@,
            r.wf() == self.wf(),
    {
        SingletonStruct {
            mod_hash: self.mod_hash.duplicate(),
            launcher_id: self.launcher_id.duplicate(),
            launcher_puzzle_hash: self.launcher_puzzle_hash.duplicate(),
        }
    }
}

/// The node a singleton struct encodes to: `(mod_hash . (launcher_id .
/// launcher_puzzle_hash))`.
pub open spec fn singleton_struct_node_v(s: SingletonStructV) -> NodeV {
    NodeV::Pair(
        Box::new(NodeV::Atom(s.mod_hash)),
        Box::new(
            NodeV::Pair(
                Box::new(NodeV::Atom(s.launcher_id)),
                Box::new(NodeV::Atom(s.launcher_puzzle_hash)),
            ),
        ),
    )
}

/// Encodes a singleton struct into a node.
pub fn singleton_struct_node(s: &SingletonStruct) -> (r: Node)
    ensures
        node_view(r) == singleton_struct_node_v(s@),
{
    let launcher_pair = pair(
        Node::Atom(crate::coin::clone_bytes(&s.launcher_id.bytes)),
        Node::Atom(crate::coin::clone_bytes(&s.launcher_puzzle_hash.bytes)),
    );
    pair(Node::Atom(crate::coin::clone_bytes(&s.mod_hash.bytes)), launcher_pair)
}

/// A typed puzzle: one of the closed set of layer shapes.
#[derive(Debug)]
pub enum PuzzleLayer {
    Singleton(SingletonLayer),
    State(StateLayer),
    Ownership(OwnershipLayer),
    RoyaltyTransfer(RoyaltyTransferLayer),
    Standard(StandardLayer),
    Settlement(SettlementLayer),
    Raw(RawLayer),
}

/// The singleton top layer: the structural identity and an inner puzzle.
#[derive(Debug)]
pub struct SingletonLayer {
    pub singleton_struct: SingletonStruct,
    pub inner_puzzle: Box<PuzzleLayer>,
}

impl SingletonLayer {
    /// A singleton top layer over an inner puzzle.
    pub fn new(singleton_struct: SingletonStruct, inner_puzzle: Box<PuzzleLayer>) -> (r:
        SingletonLayer)
        ensures
            r.singleton_struct == singleton_struct,
            r.inner_puzzle == inner_puzzle,
    {
        SingletonLayer { singleton_struct, inner_puzzle }
    }
}

/// The asset state layer: metadata, the metadata updater's hash, and an
/// inner puzzle.
#[derive(Debug)]
pub struct StateLayer {
    pub metadata: Node,
    pub metadata_updater_hash: Bytes32,
    pub inner_puzzle: Box<PuzzleLayer>,
}

/// The asset ownership layer: an optional current owner, a transfer
/// program, and an inner puzzle.
#[derive(Debug)]
pub struct OwnershipLayer {
    pub current_owner: Option<Bytes32>,
    pub transfer_program: Box<PuzzleLayer>,
    pub inner_puzzle: Box<PuzzleLayer>,
}

/// The royalty transfer program: a singleton struct, the royalty
/// recipient's puzzle hash, and the royalty percentage in basis points,
/// curried in its minimal big-endian encoding.
#[derive(Debug)]
pub struct RoyaltyTransferLayer {
    pub singleton_struct: SingletonStruct,
    pub royalty_puzzle_hash: Bytes32,
    pub royalty_percentage: u16,
}

/// The standard pay-to-key puzzle over a synthetic public key; a terminal
/// layer.
#[derive(Debug)]
pub struct StandardLayer {
    pub synthetic_key: PublicKey,
}

/// The settlement payments puzzle; a terminal layer with no curried
/// arguments.
#[derive(Debug)]
pub struct SettlementLayer;

/// An unrecognized puzzle kept verbatim as its node.
#[derive(Debug)]
pub struct RawLayer {
    pub puzzle: Node,
}

/// The abstract value of a typed puzzle.
pub enum LayerV {
    Singleton { singleton_struct: SingletonStructV, inner_puzzle: Box<LayerV> },
    State { metadata: NodeV, metadata_updater_hash: Seq<u8>, inner_puzzle: Box<LayerV> },
    Ownership {
        current_owner: Option<Seq<u8>>,
        transfer_program: Box<LayerV>,
        inner_puzzle: Box<LayerV>,
    },
    RoyaltyTransfer {
        singleton_struct: SingletonStructV,
        royalty_puzzle_hash: Seq<u8>,
        royalty_percentage: u16,
    },
    Standard { synthetic_key: Seq<u8> },
    Settlement,
    Raw { puzzle: NodeV },
}

/// The abstract value of a typed puzzle.
pub open spec fn layer_view(l: PuzzleLayer) -> LayerV
    decreases l,
{
    match l {
        PuzzleLayer::Singleton(s) => LayerV::Singleton {
            singleton_struct: s.singleton_struct@,
            inner_puzzle: Box::new(layer_view(*s.inner_puzzle)),
        },
        PuzzleLayer::State(s) => LayerV::State {
            metadata: node_view(s.metadata),
            metadata_updater_hash: s.metadata_updater_hash@,
            inner_puzzle: Box::new(layer_view(*s.inner_puzzle)),
        },
        PuzzleLayer::Ownership(o) => LayerV::Ownership {
            current_owner: owner_view(o.current_owner),
            transfer_program: Box::new(layer_view(*o.transfer_program)),
            inner_puzzle: Box::new(layer_view(*o.inner_puzzle)),
        },
        PuzzleLayer::RoyaltyTransfer(t) => LayerV::RoyaltyTransfer {
            singleton_struct: t.singleton_struct@,
            royalty_puzzle_hash: t.royalty_puzzle_hash@,
            royalty_percentage: t.royalty_percentage,
        },
        PuzzleLayer::Standard(s) => LayerV::Standard { synthetic_key: s.synthetic_key@ },
        PuzzleLayer::Settlement(_) => LayerV::Settlement,
        PuzzleLayer::Raw(r) => LayerV::Raw { puzzle: node_view(r.puzzle) },
    }
}

/// A well-formed abstract struct: three 32-byte fields.
pub open spec fn struct_wf_v(s: SingletonStructV) -> bool {
    s.mod_hash.len() == 32 && s.launcher_id.len() == 32 && s.launcher_puzzle_hash.len() == 32
}

/// Validity of an abstract layer: hash fields have their fixed sizes, an
/// owner is either absent or a 32-byte value, and a singleton top layer
/// carries the canonical structural constants.
pub open spec fn layer_wf_v(l: LayerV) -> bool
    decreases l,
{
    match l {
        LayerV::Singleton { singleton_struct, inner_puzzle } => struct_wf_v(singleton_struct)
            && singleton_struct_canonical(singleton_struct) && layer_wf_v(*inner_puzzle),
        LayerV::State { metadata, metadata_updater_hash, inner_puzzle } => metadata_updater_hash.len()
            == 32 && layer_wf_v(*inner_puzzle),
        LayerV::Ownership { current_owner, transfer_program, inner_puzzle } => (match current_owner {
            Option::Some(o) => o.len() == 32,
            Option::None => true,
        }) && layer_wf_v(*transfer_program) && layer_wf_v(*inner_puzzle),
        LayerV::RoyaltyTransfer { singleton_struct, royalty_puzzle_hash, royalty_percentage } => struct_wf_v(
            singleton_struct,
        ) && royalty_puzzle_hash.len() == 32,
        LayerV::Standard { synthetic_key } => synthetic_key.len() == 48,
        LayerV::Settlement => true,
        LayerV::Raw { puzzle } => true,
    }
}

/// The node an owner option encodes to: the owner's bytes, or the empty
/// atom for no owner.
pub open spec fn owner_node_v(owner: Option<Seq<u8>>) -> NodeV {
    match owner {
        Option::Some(o) => NodeV::Atom(o),
        Option::None => NodeV::Atom(Seq::<u8>::empty()),
    }
}

/// The abstract value of an optional owner.
pub open spec fn owner_view(o: Option<Bytes32>) -> Option<Seq<u8>> {
    match o {
        Option::Some(b) => Option::Some(b@),
        Option::None => Option::None,
    }
}

/// The hash of the atom an owner option encodes to.
pub open spec fn owner_hash_v(owner: Option<Seq<u8>>) -> Seq<u8> {
    match owner {
        Option::Some(o) => atom_hash(o),
        Option::None => atom_hash(Seq::<u8>::empty()),
    }
}

/// The node a layer constructs to, given the canonical programs of the
/// context: each curried shape applies its program to its argument list;
/// the settlement layer is its bare program; a raw layer is its node.
pub open spec fn construct_puzzle_v(l: LayerV, c: SpendContextV) -> NodeV
    decreases l,
{
    match l {
        LayerV::Singleton { singleton_struct, inner_puzzle } => curried_v(
            c.singleton_top_layer,
            seq![
                singleton_struct_node_v(singleton_struct),
                construct_puzzle_v(*inner_puzzle, c),
            ],
        ),
        LayerV::State { metadata, metadata_updater_hash, inner_puzzle } => curried_v(
            c.nft_state_layer,
            seq![
                NodeV::Atom(crate::puzzles::nft_state_layer_hash()),
                metadata,
                NodeV::Atom(metadata_updater_hash),
                construct_puzzle_v(*inner_puzzle, c),
            ],
        ),
        LayerV::Ownership { current_owner, transfer_program, inner_puzzle } => curried_v(
            c.nft_ownership_layer,
            seq![
                NodeV::Atom(crate::puzzles::nft_ownership_layer_hash()),
                owner_node_v(current_owner),
                construct_puzzle_v(*transfer_program, c),
                construct_puzzle_v(*inner_puzzle, c),
            ],
        ),
        LayerV::RoyaltyTransfer { singleton_struct, royalty_puzzle_hash, royalty_percentage } => curried_v(
            c.nft_royalty_transfer,
            seq![
                singleton_struct_node_v(singleton_struct),
                NodeV::Atom(royalty_puzzle_hash),
                NodeV::Atom(min_be_bytes(royalty_percentage as nat)),
            ],
        ),
        LayerV::Standard { synthetic_key } => curried_v(
            c.standard_puzzle,
            seq![NodeV::Atom(synthetic_key)],
        ),
        LayerV::Settlement => c.settlement_payments,
        LayerV::Raw { puzzle } => puzzle,
    }
}

/// The closed-form hash of a singleton top layer.
pub open spec fn singleton_layer_hash_v(singleton_struct: SingletonStructV, inner: Seq<u8>) -> Seq<
    u8,
> {
    curry_hash_v(
        singleton_top_layer_hash(),
        seq![tree_hash_v(singleton_struct_node_v(singleton_struct)), inner],
    )
}

/// The closed-form hash of an asset state layer.
pub open spec fn nft_state_layer_hash_v(
    metadata_hash: Seq<u8>,
    metadata_updater_hash: Seq<u8>,
    inner: Seq<u8>,
) -> Seq<u8> {
    curry_hash_v(
        crate::puzzles::nft_state_layer_hash(),
        seq![
            atom_hash(crate::puzzles::nft_state_layer_hash()),
            metadata_hash,
            atom_hash(metadata_updater_hash),
            inner,
        ],
    )
}

/// The closed-form hash of an asset ownership layer.
pub open spec fn nft_ownership_layer_hash_v(
    current_owner: Option<Seq<u8>>,
    transfer_program_hash: Seq<u8>,
    inner: Seq<u8>,
) -> Seq<u8> {
    curry_hash_v(
        crate::puzzles::nft_ownership_layer_hash(),
        seq![
            atom_hash(crate::puzzles::nft_ownership_layer_hash()),
            owner_hash_v(current_owner),
            transfer_program_hash,
            inner,
        ],
    )
}

/// The closed-form hash of a royalty transfer program.
pub open spec fn nft_royalty_transfer_hash_v(
    singleton_struct: SingletonStructV,
    royalty_puzzle_hash: Seq<u8>,
    royalty_percentage: u16,
) -> Seq<u8> {
    curry_hash_v(
        crate::puzzles::nft_royalty_transfer_hash(),
        seq![
            tree_hash_v(singleton_struct_node_v(singleton_struct)),
            atom_hash(royalty_puzzle_hash),
            atom_hash(min_be_bytes(royalty_percentage as nat)),
        ],
    )
}

/// The closed-form hash of a standard pay-to-key puzzle.
pub open spec fn standard_layer_hash_v(synthetic_key: Seq<u8>) -> Seq<u8> {
    curry_hash_v(
        crate::puzzles::standard_puzzle_hash(),
        seq![atom_hash(synthetic_key)],
    )
}

/// The closed-form hash of a layer: what the layer's constructed node
/// hashes to, computed from the layer's fields alone.
pub open spec fn layer_hash_v(l: LayerV) -> Seq<u8>
    decreases l,
{
    match l {
        LayerV::Singleton { singleton_struct, inner_puzzle } => singleton_layer_hash_v(
            singleton_struct,
            layer_hash_v(*inner_puzzle),
        ),
        LayerV::State { metadata, metadata_updater_hash, inner_puzzle } => nft_state_layer_hash_v(
            tree_hash_v(metadata),
            metadata_updater_hash,
            layer_hash_v(*inner_puzzle),
        ),
        LayerV::Ownership { current_owner, transfer_program, inner_puzzle } => nft_ownership_layer_hash_v(
            current_owner,
            layer_hash_v(*transfer_program),
            layer_hash_v(*inner_puzzle),
        ),
        LayerV::RoyaltyTransfer {
            singleton_struct,
            royalty_puzzle_hash,
            royalty_percentage,
        } => nft_royalty_transfer_hash_v(
            singleton_struct,
            royalty_puzzle_hash,
            royalty_percentage,
        ),
        LayerV::Standard { synthetic_key } => standard_layer_hash_v(synthetic_key),
        LayerV::Settlement => settlement_payments_hash(),
        LayerV::Raw { puzzle } => tree_hash_v(puzzle),
    }
}

/// Hash equivalence: for every layer value, the closed-form hash equals
/// the content hash of the fully constructed puzzle node. The shortcut
/// never materializes the node, yet commits to exactly the same value.
pub proof fn lemma_layer_hash_equivalence(l: LayerV, c: SpendContextV)
    requires
        ctx_wf(c),
    ensures
        tree_hash_v(construct_puzzle_v(l, c)) == layer_hash_v(l),
    decreases l,
{
    match l {
        LayerV::Singleton { singleton_struct, inner_puzzle } => {
            lemma_layer_hash_equivalence(*inner_puzzle, c);
            let args = seq![
                singleton_struct_node_v(singleton_struct),
                construct_puzzle_v(*inner_puzzle, c),
            ];
            lemma_curry_hash(c.singleton_top_layer, args);
            assert(hashes_of(args) =~= seq![
                tree_hash_v(singleton_struct_node_v(singleton_struct)),
                tree_hash_v(construct_puzzle_v(*inner_puzzle, c)),
            ]);
            assert(construct_puzzle_v(l, c) == curried_v(c.singleton_top_layer, args));
            assert(tree_hash_v(construct_puzzle_v(l, c)) == layer_hash_v(l));
        },
        LayerV::State { metadata, metadata_updater_hash, inner_puzzle } => {
            lemma_layer_hash_equivalence(*inner_puzzle, c);
            let args = seq![
                NodeV::Atom(crate::puzzles::nft_state_layer_hash()),
                metadata,
                NodeV::Atom(metadata_updater_hash),
                construct_puzzle_v(*inner_puzzle, c),
            ];
            lemma_curry_hash(c.nft_state_layer, args);
            assert(hashes_of(args) =~= seq![
                atom_hash(crate::puzzles::nft_state_layer_hash()),
                tree_hash_v(metadata),
                atom_hash(metadata_updater_hash),
                tree_hash_v(construct_puzzle_v(*inner_puzzle, c)),
            ]);
            assert(construct_puzzle_v(l, c) == curried_v(c.nft_state_layer, args));
            assert(tree_hash_v(construct_puzzle_v(l, c)) == layer_hash_v(l));
        },
        LayerV::Ownership { current_owner, transfer_program, inner_puzzle } => {
            lemma_layer_hash_equivalence(*transfer_program, c);
            lemma_layer_hash_equivalence(*inner_puzzle, c);
            let args = seq![
                NodeV::Atom(crate::puzzles::nft_ownership_layer_hash()),
                owner_node_v(current_owner),
                construct_puzzle_v(*transfer_program, c),
                construct_puzzle_v(*inner_puzzle, c),
            ];
            lemma_curry_hash(c.nft_ownership_layer, args);
            assert(hashes_of(args) =~= seq![
                atom_hash(crate::puzzles::nft_ownership_layer_hash()),
                tree_hash_v(owner_node_v(current_owner)),
                tree_hash_v(construct_puzzle_v(*transfer_program, c)),
                tree_hash_v(construct_puzzle_v(*inner_puzzle, c)),
            ]);
            assert(construct_puzzle_v(l, c) == curried_v(c.nft_ownership_layer, args));
            assert(tree_hash_v(owner_node_v(current_owner)) == owner_hash_v(current_owner)) by {
                match current_owner {
                    Option::Some(o) => {
                        assert(owner_node_v(current_owner) == NodeV::Atom(o));
                    },
                    Option::None => {
                        assert(owner_node_v(current_owner) == NodeV::Atom(Seq::<u8>::empty()));
                    },
                }
            }
            assert(hashes_of(args) =~= seq![
                atom_hash(crate::puzzles::nft_ownership_layer_hash()),
                owner_hash_v(current_owner),
                layer_hash_v(*transfer_program),
                layer_hash_v(*inner_puzzle),
            ]);
            assert(tree_hash_v(construct_puzzle_v(l, c)) == layer_hash_v(l));
        },
        LayerV::RoyaltyTransfer {
            singleton_struct,
            royalty_puzzle_hash,
            royalty_percentage,
        } => {
            let args = seq![
                singleton_struct_node_v(singleton_struct),
                NodeV::Atom(royalty_puzzle_hash),
                NodeV::Atom(min_be_bytes(royalty_percentage as nat)),
            ];
            lemma_curry_hash(c.nft_royalty_transfer, args);
            assert(hashes_of(args) =~= seq![
                tree_hash_v(singleton_struct_node_v(singleton_struct)),
                atom_hash(royalty_puzzle_hash),
                atom_hash(min_be_bytes(royalty_percentage as nat)),
            ]);
            assert(construct_puzzle_v(l, c) == curried_v(c.nft_royalty_transfer, args));
            assert(tree_hash_v(construct_puzzle_v(l, c)) == layer_hash_v(l));
        },
        LayerV::Standard { synthetic_key } => {
            let args = seq![NodeV::Atom(synthetic_key)];
            lemma_curry_hash(c.standard_puzzle, args);
            assert(hashes_of(args) =~= seq![atom_hash(synthetic_key)]);
            assert(construct_puzzle_v(l, c) == curried_v(c.standard_puzzle, args));
            assert(tree_hash_v(construct_puzzle_v(l, c)) == layer_hash_v(l));
        },
        LayerV::Settlement => {
        },
        LayerV::Raw { puzzle } => {
        },
    }
}


impl PuzzleLayer {
    /// The abstract value of this layer.
    pub open spec fn view_spec(&self) -> LayerV {
        layer_view(*self)
    }

    /// Validity of this layer.
    pub open spec fn wf(&self) -> bool {
        layer_wf_v(layer_view(*self))
    }

    /// Re-encodes this layer and its inner layers into a node. The result
    /// is deterministic, and hashing it yields exactly this layer's
    /// closed-form tree hash.
    pub fn construct_puzzle(&self, ctx: &SpendContext) -> (r: Node)
        ensures
            node_view(r) == construct_puzzle_v(layer_view(*self), ctx@),
        decreases *self,
    {
        match self {
            PuzzleLayer::Singleton(s) => {
                let inner = s.inner_puzzle.construct_puzzle(ctx);
                let mut args: Vec<Node> = Vec::new();
                args.push(singleton_struct_node(&s.singleton_struct));
                args.push(inner);
                proof {
                    assert(nodes_view(args@) =~= seq![
                        singleton_struct_node_v(s.singleton_struct@),
                        construct_puzzle_v(layer_view(*s.inner_puzzle), ctx@),
                    ]);
                }
                curried(clone_node(&ctx.singleton_top_layer), args)
            },
            PuzzleLayer::State(st) => {
                let inner = st.inner_puzzle.construct_puzzle(ctx);
                let mut args: Vec<Node> = Vec::new();
                args.push(Node::Atom(nft_state_layer_hash_bytes()));
                args.push(clone_node(&st.metadata));
                args.push(Node::Atom(crate::coin::clone_bytes(&st.metadata_updater_hash.bytes)));
                args.push(inner);
                proof {
                    assert(nodes_view(args@) =~= seq![
                        NodeV::Atom(crate::puzzles::nft_state_layer_hash()),
                        node_view(st.metadata),
                        NodeV::Atom(st.metadata_updater_hash@),
                        construct_puzzle_v(layer_view(*st.inner_puzzle), ctx@),
                    ]);
                }
                curried(clone_node(&ctx.nft_state_layer), args)
            },
            PuzzleLayer::Ownership(o) => {
                let transfer = o.transfer_program.construct_puzzle(ctx);
                let inner = o.inner_puzzle.construct_puzzle(ctx);
                let owner_node = match &o.current_owner {
                    Option::Some(b) => Node::Atom(crate::coin::clone_bytes(&b.bytes)),
                    Option::None => crate::node::nil(),
                };
                let mut args: Vec<Node> = Vec::new();
                args.push(Node::Atom(nft_ownership_layer_hash_bytes()));
                args.push(owner_node);
                args.push(transfer);
                args.push(inner);
                proof {
                    match &o.current_owner {
                        Option::Some(b) => {
                            assert(owner_node_v(owner_view(o.current_owner)) == NodeV::Atom(b@));
                        },
                        Option::None => {
                            assert(owner_node_v(owner_view(o.current_owner)) == NodeV::Atom(
                                Seq::<u8>::empty(),
                            ));
                        },
                    }
                    assert(nodes_view(args@) =~= seq![
                        NodeV::Atom(crate::puzzles::nft_ownership_layer_hash()),
                        owner_node_v(owner_view(o.current_owner)),
                        construct_puzzle_v(layer_view(*o.transfer_program), ctx@),
                        construct_puzzle_v(layer_view(*o.inner_puzzle), ctx@),
                    ]);
                }
                curried(clone_node(&ctx.nft_ownership_layer), args)
            },
            PuzzleLayer::RoyaltyTransfer(t) => {
                let mut args: Vec<Node> = Vec::new();
                args.push(singleton_struct_node(&t.singleton_struct));
                args.push(Node::Atom(crate::coin::clone_bytes(&t.royalty_puzzle_hash.bytes)));
                args.push(Node::Atom(u16_to_bytes(t.royalty_percentage)));
                proof {
                    assert(nodes_view(args@) =~= seq![
                        singleton_struct_node_v(t.singleton_struct@),
                        NodeV::Atom(t.royalty_puzzle_hash@),
                        NodeV::Atom(min_be_bytes(t.royalty_percentage as nat)),
                    ]);
                }
                curried(clone_node(&ctx.nft_royalty_transfer), args)
            },
            PuzzleLayer::Standard(st) => {
                let mut args: Vec<Node> = Vec::new();
                args.push(Node::Atom(crate::coin::clone_bytes(&st.synthetic_key.bytes)));
                proof {
                    assert(nodes_view(args@) =~= seq![NodeV::Atom(st.synthetic_key@)]);
                }
                curried(clone_node(&ctx.standard_puzzle), args)
            },
            PuzzleLayer::Settlement(_) => clone_node(&ctx.settlement_payments),
            PuzzleLayer::Raw(rl) => clone_node(&rl.puzzle),
        }
    }

    /// The closed-form tree hash of this layer, computed without
    /// materializing any node of it.
    pub fn tree_hash(&self, ctx: &SpendContext) -> (r: Vec<u8>)
        ensures
            r@ == layer_hash_v(layer_view(*self)),
            r@.len() == 32,
        decreases *self,
    {
        match self {
            PuzzleLayer::Singleton(s) => {
                let inner_hash = s.inner_puzzle.tree_hash(ctx);
                let struct_node = singleton_struct_node(&s.singleton_struct);
                let struct_hash = tree_hash(&struct_node);
                let mut arg_hashes: Vec<Vec<u8>> = Vec::new();
                arg_hashes.push(struct_hash);
                arg_hashes.push(inner_hash);
                let r = curry_tree_hash(
                    singleton_top_layer_hash_bytes().as_slice(),
                    &arg_hashes,
                );
                proof {
                    assert(arg_hashes.deep_view() =~~= seq![
                        tree_hash_v(singleton_struct_node_v(s.singleton_struct@)),
                        layer_hash_v(layer_view(*s.inner_puzzle)),
                    ]);
                }
                r
            },
            PuzzleLayer::State(st) => {
                let inner_hash = st.inner_puzzle.tree_hash(ctx);
                let metadata_hash = tree_hash(&st.metadata);
                let mut arg_hashes: Vec<Vec<u8>> = Vec::new();
                arg_hashes.push(tree_hash_atom(nft_state_layer_hash_bytes().as_slice()));
                arg_hashes.push(metadata_hash);
                arg_hashes.push(tree_hash_atom(st.metadata_updater_hash.as_slice()));
                arg_hashes.push(inner_hash);
                let r = curry_tree_hash(nft_state_layer_hash_bytes().as_slice(), &arg_hashes);
                proof {
                    assert(arg_hashes.deep_view() =~~= seq![
                        atom_hash(crate::puzzles::nft_state_layer_hash()),
                        tree_hash_v(node_view(st.metadata)),
                        atom_hash(st.metadata_updater_hash@),
                        layer_hash_v(layer_view(*st.inner_puzzle)),
                    ]);
                }
                r
            },
            PuzzleLayer::Ownership(o) => {
                let transfer_hash = o.transfer_program.tree_hash(ctx);
                let inner_hash = o.inner_puzzle.tree_hash(ctx);
                let owner_hash = match &o.current_owner {
                    Option::Some(b) => tree_hash_atom(b.as_slice()),
                    Option::None => {
                        let empty: [u8; 0] = [];
                        proof {
                            assert(empty@ =~= Seq::<u8>::empty());
                        }
                        tree_hash_atom(empty.as_slice())
                    },
                };
                let mut arg_hashes: Vec<Vec<u8>> = Vec::new();
                arg_hashes.push(tree_hash_atom(nft_ownership_layer_hash_bytes().as_slice()));
                arg_hashes.push(owner_hash);
                arg_hashes.push(transfer_hash);
                arg_hashes.push(inner_hash);
                let r = curry_tree_hash(nft_ownership_layer_hash_bytes().as_slice(), &arg_hashes);
                proof {
                    let lv = layer_view(*self);
                    assert(arg_hashes.deep_view() =~~= seq![
                        atom_hash(crate::puzzles::nft_ownership_layer_hash()),
                        owner_hash_v(lv->Ownership_current_owner),
                        layer_hash_v(layer_view(*o.transfer_program)),
                        layer_hash_v(layer_view(*o.inner_puzzle)),
                    ]);
                }
                r
            },
            PuzzleLayer::RoyaltyTransfer(t) => {
                let struct_node = singleton_struct_node(&t.singleton_struct);
                let struct_hash = tree_hash(&struct_node);
                let mut arg_hashes: Vec<Vec<u8>> = Vec::new();
                arg_hashes.push(struct_hash);
                arg_hashes.push(tree_hash_atom(t.royalty_puzzle_hash.as_slice()));
                arg_hashes.push(tree_hash_atom(u16_to_bytes(t.royalty_percentage).as_slice()));
                let r = curry_tree_hash(
                    nft_royalty_transfer_hash_bytes().as_slice(),
                    &arg_hashes,
                );
                proof {
                    assert(arg_hashes.deep_view() =~~= seq![
                        tree_hash_v(singleton_struct_node_v(t.singleton_struct@)),
                        atom_hash(t.royalty_puzzle_hash@),
                        atom_hash(min_be_bytes(t.royalty_percentage as nat)),
                    ]);
                }
                r
            },
            PuzzleLayer::Standard(st) => {
                let mut arg_hashes: Vec<Vec<u8>> = Vec::new();
                arg_hashes.push(tree_hash_atom(st.synthetic_key.bytes.as_slice()));
                let r = curry_tree_hash(standard_puzzle_hash_bytes().as_slice(), &arg_hashes);
                proof {
                    assert(arg_hashes.deep_view() =~~= seq![atom_hash(st.synthetic_key@)]);
                }
                r
            },
            PuzzleLayer::Settlement(_) => crate::puzzles::settlement_payments_hash_bytes(),
            PuzzleLayer::Raw(rl) => tree_hash(&rl.puzzle),
        }
    }
}

/// The closed-form hash of an asset state layer, from the already-hashed
/// metadata, the metadata updater's hash, and the inner puzzle's hash.
pub fn nft_state_layer_hash(
    metadata_hash: &Bytes32,
    metadata_updater_hash: &Bytes32,
    inner_puzzle_hash: &Bytes32,
) -> (r: Bytes32)
    ensures
        r@ == nft_state_layer_hash_v(metadata_hash@, metadata_updater_hash@, inner_puzzle_hash@),
        r.wf(),
{
    let mut arg_hashes: Vec<Vec<u8>> = Vec::new();
    arg_hashes.push(tree_hash_atom(nft_state_layer_hash_bytes().as_slice()));
    arg_hashes.push(crate::coin::clone_bytes(&metadata_hash.bytes));
    arg_hashes.push(tree_hash_atom(metadata_updater_hash.as_slice()));
    arg_hashes.push(crate::coin::clone_bytes(&inner_puzzle_hash.bytes));
    let r = curry_tree_hash(nft_state_layer_hash_bytes().as_slice(), &arg_hashes);
    proof {
        assert(arg_hashes.deep_view() =~~= seq![
            atom_hash(crate::puzzles::nft_state_layer_hash()),
            metadata_hash@,
            atom_hash(metadata_updater_hash@),
            inner_puzzle_hash@,
        ]);
    }
    Bytes32::new(r)
}

/// The closed-form hash of an asset ownership layer, from the optional
/// owner, the transfer program's hash, and the inner puzzle's hash.
pub fn nft_ownership_layer_hash(
    current_owner: &Option<Bytes32>,
    transfer_program_hash: &Bytes32,
    inner_puzzle_hash: &Bytes32,
) -> (r: Bytes32)
    ensures
        r@ == nft_ownership_layer_hash_v(
            owner_view(*current_owner),
            transfer_program_hash@,
            inner_puzzle_hash@,
        ),
        r.wf(),
{
    let owner_hash = match current_owner {
        Option::Some(b) => tree_hash_atom(b.as_slice()),
        Option::None => {
            let empty: [u8; 0] = [];
            proof {
                assert(empty@ =~= Seq::<u8>::empty());
            }
            tree_hash_atom(empty.as_slice())
        },
    };
    let mut arg_hashes: Vec<Vec<u8>> = Vec::new();
    arg_hashes.push(tree_hash_atom(nft_ownership_layer_hash_bytes().as_slice()));
    arg_hashes.push(owner_hash);
    arg_hashes.push(crate::coin::clone_bytes(&transfer_program_hash.bytes));
    arg_hashes.push(crate::coin::clone_bytes(&inner_puzzle_hash.bytes));
    let r = curry_tree_hash(nft_ownership_layer_hash_bytes().as_slice(), &arg_hashes);
    proof {
        match current_owner {
            Option::Some(b) => {
                assert(owner_hash_v(owner_view(*current_owner)) == atom_hash(b@));
            },
            Option::None => {
                assert(owner_hash_v(owner_view(*current_owner)) == atom_hash(Seq::<u8>::empty()));
            },
        }
        assert(arg_hashes.deep_view() =~~= seq![
            atom_hash(crate::puzzles::nft_ownership_layer_hash()),
            owner_hash_v(owner_view(*current_owner)),
            transfer_program_hash@,
            inner_puzzle_hash@,
        ]);
    }
    Bytes32::new(r)
}

/// The closed-form hash of the royalty transfer program for the canonical
/// singleton struct of a launcher id.
pub fn nft_royalty_transfer_hash(
    launcher_id: &Bytes32,
    royalty_puzzle_hash: &Bytes32,
    royalty_percentage: u16,
) -> (r: Bytes32)
    ensures
        r@ == nft_royalty_transfer_hash_v(
            SingletonStructV {
                mod_hash: singleton_top_layer_hash(),
                launcher_id: launcher_id@,
                launcher_puzzle_hash: singleton_launcher_hash(),
            },
            royalty_puzzle_hash@,
            royalty_percentage,
        ),
        r.wf(),
{
    let ss = SingletonStruct::new(launcher_id.duplicate());
    let struct_node = singleton_struct_node(&ss);
    let struct_hash = tree_hash(&struct_node);
    let mut arg_hashes: Vec<Vec<u8>> = Vec::new();
    arg_hashes.push(struct_hash);
    arg_hashes.push(tree_hash_atom(royalty_puzzle_hash.as_slice()));
    arg_hashes.push(tree_hash_atom(u16_to_bytes(royalty_percentage).as_slice()));
    let r = curry_tree_hash(nft_royalty_transfer_hash_bytes().as_slice(), &arg_hashes);
    proof {
        assert(arg_hashes.deep_view() =~~= seq![
            tree_hash_v(singleton_struct_node_v(ss@)),
            atom_hash(royalty_puzzle_hash@),
            atom_hash(min_be_bytes(royalty_percentage as nat)),
        ]);
        assert(ss@ == SingletonStructV {
            mod_hash: singleton_top_layer_hash(),
            launcher_id: launcher_id@,
            launcher_puzzle_hash: singleton_launcher_hash(),
        });
    }
    Bytes32::new(r)
}


/// The closed-form hash of the pay-to-key puzzle over a synthetic key:
/// the address a standard coin of that key pays to.
pub fn standard_puzzle_hash_for_key(synthetic_key: &PublicKey) -> (r: Bytes32)
    ensures
        r@ == standard_layer_hash_v(synthetic_key@),
        r.wf(),
{
    let mut arg_hashes: Vec<Vec<u8>> = Vec::new();
    arg_hashes.push(tree_hash_atom(synthetic_key.bytes.as_slice()));
    let r = curry_tree_hash(standard_puzzle_hash_bytes().as_slice(), &arg_hashes);
    proof {
        assert(arg_hashes.deep_view() =~~= seq![atom_hash(synthetic_key@)]);
    }
    Bytes32::new(r)
}

} // verus!
