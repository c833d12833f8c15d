//! The canonical puzzle programs and their tree hashes.
//!
//! Each fixed program that the layers curry over is consumed from an
//! outside crate as serialized bytes, parsed once into an owned node, and
//! held in a [`SpendContext`]. The tree hash of each program is a
//! documented constant; it is stated here as a literal and relied on as
//! the contract of each trusted loader.

use vstd::prelude::*;
use crate::node::{Node, NodeV, node_view, tree_hash_v};

verus! {

/// An allocator of the outside node arena, used only while a canonical
/// program is parsed from its serialized bytes.
#[verifier::external_type_specification]
#[verifier::external_body]
pub struct ExAllocator(clvmr::Allocator);

/// A reference into the outside node arena.
#[verifier::external_type_specification]
#[verifier::external_body]
pub struct ExNodePtr(clvmr::NodePtr);

/// Relies on clvmr's `Allocator::sexp` and `Allocator::atom`: reads an
/// allocated node out of the arena into an owned tree, converting atoms
/// and pairs one for one.
#[verifier::external_body]
fn node_from_allocator(a: &clvmr::Allocator, ptr: clvmr::NodePtr) -> Node {
    match a.sexp(ptr) {
        clvmr::SExp::Atom => Node::Atom(a.atom(ptr).as_ref().to_vec()),
        clvmr::SExp::Pair(left, right) => Node::Pair(
            Box::new(node_from_allocator(a, left)),
            Box::new(node_from_allocator(a, right)),
        ),
    }
}

/// The documented tree hash of the singleton top layer program.
pub open spec fn singleton_top_layer_hash() -> Seq<u8> {
    seq![
        0x7f, 0xaa, 0x32, 0x53, 0xbf, 0xdd, 0xd1, 0xe0,
        0xde, 0xcb, 0x09, 0x06, 0xb2, 0xdc, 0x62, 0x47,
        0xbb, 0xc4, 0xcf, 0x60, 0x8f, 0x58, 0x34, 0x5d,
        0x17, 0x3a, 0xdb, 0x63, 0xe8, 0xb4, 0x7c, 0x9f,
    ]
}

/// The tree hash of the singleton top layer program, as bytes.
pub fn singleton_top_layer_hash_bytes() -> (r: Vec<u8>)
    ensures
        r@ == singleton_top_layer_hash(),
        r@.len() == 32,
{
    let v: Vec<u8> = vec![
        0x7f, 0xaa, 0x32, 0x53, 0xbf, 0xdd, 0xd1, 0xe0,
        0xde, 0xcb, 0x09, 0x06, 0xb2, 0xdc, 0x62, 0x47,
        0xbb, 0xc4, 0xcf, 0x60, 0x8f, 0x58, 0x34, 0x5d,
        0x17, 0x3a, 0xdb, 0x63, 0xe8, 0xb4, 0x7c, 0x9f,
    ];
    proof {
        assert(v@ =~= singleton_top_layer_hash());
    }
    v
}

/// The documented tree hash of the singleton launcher program.
pub open spec fn singleton_launcher_hash() -> Seq<u8> {
    seq![
        0xef, 0xf0, 0x75, 0x22, 0x49, 0x50, 0x60, 0xc0,
        0x66, 0xf6, 0x6f, 0x32, 0xac, 0xc2, 0xa7, 0x7e,
        0x3a, 0x3e, 0x73, 0x7a, 0xca, 0x8b, 0xae, 0xa4,
        0xd1, 0xa6, 0x4e, 0xa4, 0xcd, 0xc1, 0x3d, 0xa9,
    ]
}

/// The tree hash of the singleton launcher program, as bytes.
pub fn singleton_launcher_hash_bytes() -> (r: Vec<u8>)
    ensures
        r@ == singleton_launcher_hash(),
        r@.len() == 32,
{
    let v: Vec<u8> = vec![
        0xef, 0xf0, 0x75, 0x22, 0x49, 0x50, 0x60, 0xc0,
        0x66, 0xf6, 0x6f, 0x32, 0xac, 0xc2, 0xa7, 0x7e,
        0x3a, 0x3e, 0x73, 0x7a, 0xca, 0x8b, 0xae, 0xa4,
        0xd1, 0xa6, 0x4e, 0xa4, 0xcd, 0xc1, 0x3d, 0xa9,
    ];
    proof {
        assert(v@ =~= singleton_launcher_hash());
    }
    v
}

/// The documented tree hash of the asset state layer program.
pub open spec fn nft_state_layer_hash() -> Seq<u8> {
    seq![
        0xa0, 0x4d, 0x9f, 0x57, 0x76, 0x4f, 0x54, 0xa4,
        0x3e, 0x40, 0x30, 0xbe, 0xfb, 0x4d, 0x80, 0x02,
        0x6e, 0x87, 0x05, 0x19, 0xaa, 0xa6, 0x63, 0x34,
        0xae, 0xf8, 0x30, 0x4f, 0x5d, 0x03, 0x93, 0xc2,
    ]
}

/// The tree hash of the asset state layer program, as bytes.
pub fn nft_state_layer_hash_bytes() -> (r: Vec<u8>)
    ensures
        r@ == nft_state_layer_hash(),
        r@.len() == 32,
{
    let v: Vec<u8> = vec![
        0xa0, 0x4d, 0x9f, 0x57, 0x76, 0x4f, 0x54, 0xa4,
        0x3e, 0x40, 0x30, 0xbe, 0xfb, 0x4d, 0x80, 0x02,
        0x6e, 0x87, 0x05, 0x19, 0xaa, 0xa6, 0x63, 0x34,
        0xae, 0xf8, 0x30, 0x4f, 0x5d, 0x03, 0x93, 0xc2,
    ];
    proof {
        assert(v@ =~= nft_state_layer_hash());
    }
    v
}

/// The documented tree hash of the asset ownership layer program.
pub open spec fn nft_ownership_layer_hash() -> Seq<u8> {
    seq![
        0xc5, 0xab, 0xea, 0x79, 0xaf, 0xaa, 0x00, 0x1b,
        0x54, 0x27, 0xdf, 0xa0, 0xc8, 0xcf, 0x42, 0xca,
        0x6f, 0x38, 0xf5, 0x84, 0x1b, 0x78, 0xf9, 0xb3,
        0xc2, 0x52, 0x73, 0x3e, 0xb2, 0xde, 0x27, 0x26,
    ]
}

/// The tree hash of the asset ownership layer program, as bytes.
pub fn nft_ownership_layer_hash_bytes() -> (r: Vec<u8>)
    ensures
        r@ == nft_ownership_layer_hash(),
        r@.len() == 32,
{
    let v: Vec<u8> = vec![
        0xc5, 0xab, 0xea, 0x79, 0xaf, 0xaa, 0x00, 0x1b,
        0x54, 0x27, 0xdf, 0xa0, 0xc8, 0xcf, 0x42, 0xca,
        0x6f, 0x38, 0xf5, 0x84, 0x1b, 0x78, 0xf9, 0xb3,
        0xc2, 0x52, 0x73, 0x3e, 0xb2, 0xde, 0x27, 0x26,
    ];
    proof {
        assert(v@ =~= nft_ownership_layer_hash());
    }
    v
}

/// The documented tree hash of the royalty transfer program.
pub open spec fn nft_royalty_transfer_hash() -> Seq<u8> {
    seq![
        0x02, 0x5d, 0xee, 0x0f, 0xb1, 0xe9, 0xfa, 0x11,
        0x03, 0x02, 0xa7, 0xe9, 0xbf, 0xb6, 0xe3, 0x81,
        0xca, 0x09, 0x61, 0x8e, 0x27, 0x78, 0xb0, 0x18,
        0x4f, 0xa5, 0xc6, 0xb2, 0x75, 0xcf, 0xce, 0x1f,
    ]
}

/// The tree hash of the royalty transfer program, as bytes.
pub fn nft_royalty_transfer_hash_bytes() -> (r: Vec<u8>)
    ensures
        r@ == nft_royalty_transfer_hash(),
        r@.len() == 32,
{
    let v: Vec<u8> = vec![
        0x02, 0x5d, 0xee, 0x0f, 0xb1, 0xe9, 0xfa, 0x11,
        0x03, 0x02, 0xa7, 0xe9, 0xbf, 0xb6, 0xe3, 0x81,
        0xca, 0x09, 0x61, 0x8e, 0x27, 0x78, 0xb0, 0x18,
        0x4f, 0xa5, 0xc6, 0xb2, 0x75, 0xcf, 0xce, 0x1f,
    ];
    proof {
        assert(v@ =~= nft_royalty_transfer_hash());
    }
    v
}

/// The documented tree hash of the intermediate launcher program.
pub open spec fn nft_intermediate_launcher_hash() -> Seq<u8> {
    seq![
        0x7a, 0x32, 0xd2, 0xd9, 0x57, 0x1d, 0x34, 0x36,
        0x79, 0x1c, 0x0a, 0xd3, 0xd7, 0xfc, 0xfd, 0xb9,
        0xc4, 0x3a, 0xce, 0x2b, 0x0f, 0x0f, 0xf1, 0x3f,
        0x98, 0xd2, 0x9f, 0x0c, 0xc0, 0x93, 0xf4, 0x45,
    ]
}

/// The tree hash of the intermediate launcher program, as bytes.
pub fn nft_intermediate_launcher_hash_bytes() -> (r: Vec<u8>)
    ensures
        r@ == nft_intermediate_launcher_hash(),
        r@.len() == 32,
{
    let v: Vec<u8> = vec![
        0x7a, 0x32, 0xd2, 0xd9, 0x57, 0x1d, 0x34, 0x36,
        0x79, 0x1c, 0x0a, 0xd3, 0xd7, 0xfc, 0xfd, 0xb9,
        0xc4, 0x3a, 0xce, 0x2b, 0x0f, 0x0f, 0xf1, 0x3f,
        0x98, 0xd2, 0x9f, 0x0c, 0xc0, 0x93, 0xf4, 0x45,
    ];
    proof {
        assert(v@ =~= nft_intermediate_launcher_hash());
    }
    v
}

/// The documented tree hash of the standard pay-to-key program.
pub open spec fn standard_puzzle_hash() -> Seq<u8> {
    seq![
        0xe9, 0xaa, 0xa4, 0x9f, 0x45, 0xba, 0xd5, 0xc8,
        0x89, 0xb8, 0x6e, 0xe3, 0x34, 0x15, 0x50, 0xc1,
        0x55, 0xcf, 0xdd, 0x10, 0xc3, 0xa6, 0x75, 0x7d,
        0xe6, 0x18, 0xd2, 0x06, 0x12, 0xff, 0xfd, 0x52,
    ]
}

/// The tree hash of the standard pay-to-key program, as bytes.
pub fn standard_puzzle_hash_bytes() -> (r: Vec<u8>)
    ensures
        r@ == standard_puzzle_hash(),
        r@.len() == 32,
{
    let v: Vec<u8> = vec![
        0xe9, 0xaa, 0xa4, 0x9f, 0x45, 0xba, 0xd5, 0xc8,
        0x89, 0xb8, 0x6e, 0xe3, 0x34, 0x15, 0x50, 0xc1,
        0x55, 0xcf, 0xdd, 0x10, 0xc3, 0xa6, 0x75, 0x7d,
        0xe6, 0x18, 0xd2, 0x06, 0x12, 0xff, 0xfd, 0x52,
    ];
    proof {
        assert(v@ =~= standard_puzzle_hash());
    }
    v
}

/// The documented tree hash of the settlement payments program.
pub open spec fn settlement_payments_hash() -> Seq<u8> {
    seq![
        0xcf, 0xbf, 0xde, 0xed, 0x5c, 0x4c, 0xa2, 0xde,
        0x3d, 0x0b, 0xf5, 0x20, 0xb9, 0xcb, 0x4b, 0xb7,
        0x74, 0x3a, 0x35, 0x9b, 0xd2, 0xe6, 0xa1, 0x88,
        0xd1, 0x9c, 0xe7, 0xdf, 0xfc, 0x21, 0xd3, 0xe7,
    ]
}

/// The tree hash of the settlement payments program, as bytes.
pub fn settlement_payments_hash_bytes() -> (r: Vec<u8>)
    ensures
        r@ == settlement_payments_hash(),
        r@.len() == 32,
{
    let v: Vec<u8> = vec![
        0xcf, 0xbf, 0xde, 0xed, 0x5c, 0x4c, 0xa2, 0xde,
        0x3d, 0x0b, 0xf5, 0x20, 0xb9, 0xcb, 0x4b, 0xb7,
        0x74, 0x3a, 0x35, 0x9b, 0xd2, 0xe6, 0xa1, 0x88,
        0xd1, 0x9c, 0xe7, 0xdf, 0xfc, 0x21, 0xd3, 0xe7,
    ];
    proof {
        assert(v@ =~= settlement_payments_hash());
    }
    v
}

/// The documented tree hash of the default metadata updater program.
pub open spec fn nft_metadata_updater_hash() -> Seq<u8> {
    seq![
        0xfe, 0x8a, 0x4b, 0x4e, 0x27, 0xa2, 0xe2, 0x9a,
        0x4d, 0x3f, 0xc7, 0xce, 0x9d, 0x52, 0x7a, 0xdb,
        0xca, 0xcc, 0xba, 0xb6, 0xad, 0xa3, 0x90, 0x3c,
        0xcf, 0x3b, 0xa9, 0xa7, 0x69, 0xd2, 0xd7, 0x8b,
    ]
}

/// The tree hash of the default metadata updater program, as bytes.
pub fn nft_metadata_updater_hash_bytes() -> (r: Vec<u8>)
    ensures
        r@ == nft_metadata_updater_hash(),
        r@.len() == 32,
{
    let v: Vec<u8> = vec![
        0xfe, 0x8a, 0x4b, 0x4e, 0x27, 0xa2, 0xe2, 0x9a,
        0x4d, 0x3f, 0xc7, 0xce, 0x9d, 0x52, 0x7a, 0xdb,
        0xca, 0xcc, 0xba, 0xb6, 0xad, 0xa3, 0x90, 0x3c,
        0xcf, 0x3b, 0xa9, 0xa7, 0x69, 0xd2, 0xd7, 0x8b,
    ];
    proof {
        assert(v@ =~= nft_metadata_updater_hash());
    }
    v
}

/// Relies on chia_wallet's `SINGLETON_TOP_LAYER_PUZZLE` and clvmr's `node_from_bytes`:
/// the singleton top layer program, whose documented tree hash is the adjacent
/// `SINGLETON_TOP_LAYER_PUZZLE_HASH` constant. The canonical bytes always parse.
#[verifier::external_body]
fn singleton_top_layer_program() -> (r: Node)
    ensures
        tree_hash_v(node_view(r)) == singleton_top_layer_hash(),
{
    let mut a = clvmr::Allocator::new();
    let ptr = clvmr::serde::node_from_bytes(&mut a, &chia_wallet::singleton::SINGLETON_TOP_LAYER_PUZZLE).unwrap();
    node_from_allocator(&a, ptr)
}

/// Relies on chia_wallet's `SINGLETON_LAUNCHER_PUZZLE` and clvmr's `node_from_bytes`:
/// the singleton launcher program, whose documented tree hash is the adjacent
/// `SINGLETON_LAUNCHER_PUZZLE_HASH` constant. The canonical bytes always parse.
#[verifier::external_body]
fn singleton_launcher_program() -> (r: Node)
    ensures
        tree_hash_v(node_view(r)) == singleton_launcher_hash(),
{
    let mut a = clvmr::Allocator::new();
    let ptr = clvmr::serde::node_from_bytes(&mut a, &chia_wallet::singleton::SINGLETON_LAUNCHER_PUZZLE).unwrap();
    node_from_allocator(&a, ptr)
}

/// Relies on chia_wallet's `NFT_STATE_LAYER_PUZZLE` and clvmr's `node_from_bytes`:
/// the asset state layer program, whose documented tree hash is the adjacent
/// `NFT_STATE_LAYER_PUZZLE_HASH` constant. The canonical bytes always parse.
#[verifier::external_body]
fn nft_state_layer_program() -> (r: Node)
    ensures
        tree_hash_v(node_view(r)) == nft_state_layer_hash(),
{
    let mut a = clvmr::Allocator::new();
    let ptr = clvmr::serde::node_from_bytes(&mut a, &chia_wallet::nft::NFT_STATE_LAYER_PUZZLE).unwrap();
    node_from_allocator(&a, ptr)
}

/// Relies on chia_wallet's `NFT_OWNERSHIP_LAYER_PUZZLE` and clvmr's `node_from_bytes`:
/// the asset ownership layer program, whose documented tree hash is the adjacent
/// `NFT_OWNERSHIP_LAYER_PUZZLE_HASH` constant. The canonical bytes always parse.
#[verifier::external_body]
fn nft_ownership_layer_program() -> (r: Node)
    ensures
        tree_hash_v(node_view(r)) == nft_ownership_layer_hash(),
{
    let mut a = clvmr::Allocator::new();
    let ptr = clvmr::serde::node_from_bytes(&mut a, &chia_wallet::nft::NFT_OWNERSHIP_LAYER_PUZZLE).unwrap();
    node_from_allocator(&a, ptr)
}

/// Relies on chia_wallet's `NFT_ROYALTY_TRANSFER_PUZZLE` and clvmr's `node_from_bytes`:
/// the royalty transfer program, whose documented tree hash is the adjacent
/// `NFT_ROYALTY_TRANSFER_PUZZLE_HASH` constant. The canonical bytes always parse.
#[verifier::external_body]
fn nft_royalty_transfer_program() -> (r: Node)
    ensures
        tree_hash_v(node_view(r)) == nft_royalty_transfer_hash(),
{
    let mut a = clvmr::Allocator::new();
    let ptr = clvmr::serde::node_from_bytes(&mut a, &chia_wallet::nft::NFT_ROYALTY_TRANSFER_PUZZLE).unwrap();
    node_from_allocator(&a, ptr)
}

/// Relies on chia_wallet's `NFT_INTERMEDIATE_LAUNCHER_PUZZLE` and clvmr's `node_from_bytes`:
/// the intermediate launcher program, whose documented tree hash is the adjacent
/// `NFT_INTERMEDIATE_LAUNCHER_PUZZLE_HASH` constant. The canonical bytes always parse.
#[verifier::external_body]
fn nft_intermediate_launcher_program() -> (r: Node)
    ensures
        tree_hash_v(node_view(r)) == nft_intermediate_launcher_hash(),
{
    let mut a = clvmr::Allocator::new();
    let ptr = clvmr::serde::node_from_bytes(&mut a, &chia_wallet::nft::NFT_INTERMEDIATE_LAUNCHER_PUZZLE).unwrap();
    node_from_allocator(&a, ptr)
}

/// Relies on chia_wallet's `STANDARD_PUZZLE` and clvmr's `node_from_bytes`:
/// the standard pay-to-key program, whose documented tree hash is the adjacent
/// `STANDARD_PUZZLE_HASH` constant. The canonical bytes always parse.
#[verifier::external_body]
fn standard_puzzle_program() -> (r: Node)
    ensures
        tree_hash_v(node_view(r)) == standard_puzzle_hash(),
{
    let mut a = clvmr::Allocator::new();
    let ptr = clvmr::serde::node_from_bytes(&mut a, &chia_wallet::standard::STANDARD_PUZZLE).unwrap();
    node_from_allocator(&a, ptr)
}

/// Relies on chia_wallet's `SETTLEMENT_PAYMENTS_PUZZLE` and clvmr's `node_from_bytes`:
/// the settlement payments program, whose documented tree hash is the adjacent
/// `SETTLEMENT_PAYMENTS_PUZZLE_HASH` constant. The canonical bytes always parse.
#[verifier::external_body]
fn settlement_payments_program() -> (r: Node)
    ensures
        tree_hash_v(node_view(r)) == settlement_payments_hash(),
{
    let mut a = clvmr::Allocator::new();
    let ptr = clvmr::serde::node_from_bytes(&mut a, &chia_wallet::offer::SETTLEMENT_PAYMENTS_PUZZLE).unwrap();
    node_from_allocator(&a, ptr)
}

/// The abstract value of a spend context: the held program trees.
pub struct SpendContextV {
    pub singleton_top_layer: NodeV,
    pub singleton_launcher: NodeV,
    pub nft_state_layer: NodeV,
    pub nft_ownership_layer: NodeV,
    pub nft_royalty_transfer: NodeV,
    pub nft_intermediate_launcher: NodeV,
    pub standard_puzzle: NodeV,
    pub settlement_payments: NodeV,
}

/// The owned canonical programs for one in-progress build. Multiple
/// independent builds use independent contexts.
pub struct SpendContext {

    pub singleton_top_layer: Node,
    pub singleton_launcher: Node,
    pub nft_state_layer: Node,
    pub nft_ownership_layer: Node,
    pub nft_royalty_transfer: Node,
    pub nft_intermediate_launcher: Node,
    pub standard_puzzle: Node,
    pub settlement_payments: Node,
}

impl View for SpendContext {
    type V = SpendContextV;

    open spec fn view(&self) -> SpendContextV {
        SpendContextV {
            singleton_top_layer: node_view(self.singleton_top_layer),
            singleton_launcher: node_view(self.singleton_launcher),
            nft_state_layer: node_view(self.nft_state_layer),
            nft_ownership_layer: node_view(self.nft_ownership_layer),
            nft_royalty_transfer: node_view(self.nft_royalty_transfer),
            nft_intermediate_launcher: node_view(self.nft_intermediate_launcher),
            standard_puzzle: node_view(self.standard_puzzle),
            settlement_payments: node_view(self.settlement_payments),
        }
    }
}

impl SpendContext {
    /// Every held program hashes to its documented constant.
    pub open spec fn wf(&self) -> bool {
        ctx_wf(self@)
    }

    /// Parses every canonical program once.
    pub fn new() -> (r: SpendContext)
        ensures
            r.wf(),
    {
        SpendContext {

            singleton_top_layer: singleton_top_layer_program(),
            singleton_launcher: singleton_launcher_program(),
            nft_state_layer: nft_state_layer_program(),
            nft_ownership_layer: nft_ownership_layer_program(),
            nft_royalty_transfer: nft_royalty_transfer_program(),
            nft_intermediate_launcher: nft_intermediate_launcher_program(),
            standard_puzzle: standard_puzzle_program(),
            settlement_payments: settlement_payments_program(),
        }
    }
}

/// Every program of an abstract context hashes to its documented constant.
pub open spec fn ctx_wf(c: SpendContextV) -> bool {
    tree_hash_v(c.singleton_top_layer) == singleton_top_layer_hash()
    && tree_hash_v(c.singleton_launcher) == singleton_launcher_hash()
    && tree_hash_v(c.nft_state_layer) == nft_state_layer_hash()
    && tree_hash_v(c.nft_ownership_layer) == nft_ownership_layer_hash()
    && tree_hash_v(c.nft_royalty_transfer) == nft_royalty_transfer_hash()
    && tree_hash_v(c.nft_intermediate_launcher) == nft_intermediate_launcher_hash()
    && tree_hash_v(c.standard_puzzle) == standard_puzzle_hash()
    && tree_hash_v(c.settlement_payments) == settlement_payments_hash()
}

/// What clvmr's `node_to_bytes` returns for a node tree: the canonical
/// serialized byte form, a function of the tree alone.
pub uninterp spec fn clvm_encoding(n: NodeV) -> Seq<u8>;

/// Relies on clvmr's `Allocator::new_atom` and `Allocator::new_pair`:
/// allocates an owned node tree into the arena, one node for one node,
/// surfacing the arena's refusal as an allocation error.
#[verifier::external_body]
fn alloc_node(a: &mut clvmr::Allocator, n: &Node) -> Result<
    clvmr::NodePtr,
    crate::errors::SpendError,
> {
    match n {
        Node::Atom(bytes) => a.new_atom(bytes).map_err(
            |_| crate::errors::SpendError::AllocationError,
        ),
        Node::Pair(left, right) => {
            let l = alloc_node(a, left)?;
            let r = alloc_node(a, right)?;
            a.new_pair(l, r).map_err(|_| crate::errors::SpendError::AllocationError)
        },
    }
}

/// Relies on clvmr's `node_to_bytes`: the serialized byte form of a node
/// tree, determined by the tree alone. Fails only when the arena refuses
/// an allocation or the serializer reports a write error.
#[verifier::external_body]
pub fn serialize_node(n: &Node) -> (r: Result<Vec<u8>, crate::errors::SpendError>)
    ensures
        r matches Ok(bytes) ==> bytes@ == clvm_encoding(node_view(*n)),
{
    let mut a = clvmr::Allocator::new();
    match alloc_node(&mut a, n) {
        Ok(ptr) => clvmr::serde::node_to_bytes(&a, ptr).map_err(
            |_| crate::errors::SpendError::SerializationError,
        ),
        Err(e) => Err(e),
    }
}

} // verus!
