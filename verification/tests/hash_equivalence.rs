//! The closed-form layer hashes against full construction, checked both
//! inside the library and against the node arena crate's own tree hash.

use chia_wallet_sdk::coin::Bytes32;
use chia_wallet_sdk::layers::{
    nft_ownership_layer_hash, nft_royalty_transfer_hash, nft_state_layer_hash, OwnershipLayer,
    PuzzleLayer, RawLayer, RoyaltyTransferLayer, SingletonStruct, StateLayer,
};
use chia_wallet_sdk::node::{tree_hash, Node};
use chia_wallet_sdk::puzzles::SpendContext;
use clvmr::{Allocator, NodePtr};

fn b32(byte: u8) -> Bytes32 {
    Bytes32::new(vec![byte; 32])
}

fn int_list(values: &[u8]) -> Node {
    let mut node = Node::Atom(Vec::new());
    for v in values.iter().rev() {
        node = Node::Pair(Box::new(Node::Atom(vec![*v])), Box::new(node));
    }
    node
}

fn allocate_into(a: &mut Allocator, n: &Node) -> NodePtr {
    match n {
        Node::Atom(bytes) => a.new_atom(bytes).unwrap(),
        Node::Pair(left, right) => {
            let l = allocate_into(a, left);
            let r = allocate_into(a, right);
            a.new_pair(l, r).unwrap()
        }
    }
}

/// The tree hash an independent implementation assigns to one of the
/// library's nodes.
fn reference_hash(n: &Node) -> Vec<u8> {
    let mut a = Allocator::new();
    let ptr = allocate_into(&mut a, n);
    clvm_utils::tree_hash(&a, ptr).to_vec()
}

#[test]
fn test_state_layer_hash() {
    let ctx = SpendContext::new();

    let inner_puzzle = int_list(&[1, 2, 3]);
    let inner_puzzle_hash = Bytes32::new(tree_hash(&inner_puzzle));

    let metadata = int_list(&[4, 5, 6]);
    let metadata_hash = Bytes32::new(tree_hash(&metadata));

    let metadata_updater_hash =
        Bytes32::new(chia_wallet_sdk::puzzles::nft_metadata_updater_hash_bytes());

    let layer = PuzzleLayer::State(StateLayer {
        metadata,
        metadata_updater_hash: metadata_updater_hash.clone(),
        inner_puzzle: Box::new(PuzzleLayer::Raw(RawLayer { puzzle: inner_puzzle })),
    });

    let constructed = layer.construct_puzzle(&ctx);
    let allocated_puzzle_hash = tree_hash(&constructed);

    let puzzle_hash =
        nft_state_layer_hash(&metadata_hash, &metadata_updater_hash, &inner_puzzle_hash);

    assert_eq!(
        hex::encode(&allocated_puzzle_hash),
        hex::encode(&puzzle_hash.bytes)
    );
    assert_eq!(
        hex::encode(reference_hash(&constructed)),
        hex::encode(&puzzle_hash.bytes)
    );
}

#[test]
fn test_ownership_layer_hash() {
    let ctx = SpendContext::new();

    let inner_puzzle = int_list(&[1, 2, 3]);
    let inner_puzzle_hash = Bytes32::new(tree_hash(&inner_puzzle));

    let launcher_id = b32(69);
    let royalty_puzzle_hash = b32(34);
    let royalty_percentage = 100;
    let current_owner = Some(b32(42));

    let transfer = PuzzleLayer::RoyaltyTransfer(RoyaltyTransferLayer {
        singleton_struct: SingletonStruct::new(launcher_id.clone()),
        royalty_puzzle_hash: royalty_puzzle_hash.clone(),
        royalty_percentage,
    });
    let allocated_transfer_program = transfer.construct_puzzle(&ctx);
    let allocated_transfer_program_hash = Bytes32::new(tree_hash(&allocated_transfer_program));

    let layer = PuzzleLayer::Ownership(OwnershipLayer {
        current_owner: current_owner.clone(),
        transfer_program: Box::new(transfer),
        inner_puzzle: Box::new(PuzzleLayer::Raw(RawLayer {
            puzzle: inner_puzzle,
        })),
    });
    let constructed = layer.construct_puzzle(&ctx);
    let allocated_puzzle_hash = tree_hash(&constructed);

    let puzzle_hash = nft_ownership_layer_hash(
        &current_owner,
        &allocated_transfer_program_hash,
        &inner_puzzle_hash,
    );

    let transfer_program_hash =
        nft_royalty_transfer_hash(&launcher_id, &royalty_puzzle_hash, royalty_percentage);

    assert_eq!(
        hex::encode(&allocated_transfer_program_hash.bytes),
        hex::encode(&transfer_program_hash.bytes)
    );
    assert_eq!(
        hex::encode(&allocated_puzzle_hash),
        hex::encode(&puzzle_hash.bytes)
    );
    assert_eq!(
        hex::encode(reference_hash(&constructed)),
        hex::encode(&puzzle_hash.bytes)
    );
}

#[test]
fn test_shortcut_matches_reference_curry() {
    // The library's curried hash against the arena crate's own shortcut,
    // over the same program hash and argument hashes.
    let mod_hash = chia_wallet::nft::NFT_STATE_LAYER_PUZZLE_HASH;
    let arg = clvm_utils::tree_hash_atom(&[7, 7, 7]);
    let expected = clvm_utils::curry_tree_hash(
        clvm_utils::TreeHash::new(mod_hash),
        &[clvm_utils::tree_hash_atom(&mod_hash), arg],
    );

    let mine = chia_wallet_sdk::node::curry_tree_hash(
        &mod_hash,
        &vec![
            chia_wallet_sdk::hashing::tree_hash_atom(&mod_hash),
            chia_wallet_sdk::hashing::tree_hash_atom(&[7, 7, 7]),
        ],
    );
    assert_eq!(hex::encode(&mine), hex::encode(expected.to_vec()));
}

#[test]
fn test_canonical_constants_match_vendor() {
    assert_eq!(
        chia_wallet_sdk::puzzles::singleton_top_layer_hash_bytes(),
        chia_wallet::singleton::SINGLETON_TOP_LAYER_PUZZLE_HASH.to_vec()
    );
    assert_eq!(
        chia_wallet_sdk::puzzles::singleton_launcher_hash_bytes(),
        chia_wallet::singleton::SINGLETON_LAUNCHER_PUZZLE_HASH.to_vec()
    );
    assert_eq!(
        chia_wallet_sdk::puzzles::nft_state_layer_hash_bytes(),
        chia_wallet::nft::NFT_STATE_LAYER_PUZZLE_HASH.to_vec()
    );
    assert_eq!(
        chia_wallet_sdk::puzzles::nft_ownership_layer_hash_bytes(),
        chia_wallet::nft::NFT_OWNERSHIP_LAYER_PUZZLE_HASH.to_vec()
    );
    assert_eq!(
        chia_wallet_sdk::puzzles::nft_royalty_transfer_hash_bytes(),
        chia_wallet::nft::NFT_ROYALTY_TRANSFER_PUZZLE_HASH.to_vec()
    );
    assert_eq!(
        chia_wallet_sdk::puzzles::nft_intermediate_launcher_hash_bytes(),
        chia_wallet::nft::NFT_INTERMEDIATE_LAUNCHER_PUZZLE_HASH.to_vec()
    );
    assert_eq!(
        chia_wallet_sdk::puzzles::nft_metadata_updater_hash_bytes(),
        chia_wallet::nft::NFT_METADATA_UPDATER_PUZZLE_HASH.to_vec()
    );
    assert_eq!(
        chia_wallet_sdk::puzzles::standard_puzzle_hash_bytes(),
        chia_wallet::standard::STANDARD_PUZZLE_HASH.to_vec()
    );
    assert_eq!(
        chia_wallet_sdk::puzzles::settlement_payments_hash_bytes(),
        chia_wallet::offer::SETTLEMENT_PAYMENTS_PUZZLE_HASH.to_vec()
    );
}

#[test]
fn test_singleton_full_hash_matches_reference() {
    // A full singleton stack over a pay-to-key layer: shortcut, full
    // construction, and the reference implementation agree.
    let ctx = SpendContext::new();
    let key = chia_wallet_sdk::coin::PublicKey::new(vec![11; 48]);
    let layer = PuzzleLayer::Singleton(chia_wallet_sdk::layers::SingletonLayer::new(
        SingletonStruct::new(b32(5)),
        Box::new(PuzzleLayer::Standard(chia_wallet_sdk::layers::StandardLayer {
            synthetic_key: key,
        })),
    ));
    let shortcut = layer.tree_hash(&ctx);
    let constructed = layer.construct_puzzle(&ctx);
    assert_eq!(hex::encode(&shortcut), hex::encode(tree_hash(&constructed)));
    assert_eq!(
        hex::encode(&shortcut),
        hex::encode(reference_hash(&constructed))
    );
}
