//! Batch minting, parsing, solutions, settlement encoding, and the byte
//! encodings, on concrete values.

use chia_wallet_sdk::bytes::{trim_leading_zeros, u16_to_bytes, u64_to_clvm_bytes, usize_to_bytes};
use chia_wallet_sdk::coin::{advance_lineage, Bytes32, Coin, Proof, PublicKey};
use chia_wallet_sdk::conditions::Condition;
use chia_wallet_sdk::errors::ParseError;
use chia_wallet_sdk::layers::{
    standard_puzzle_hash_for_key, OwnershipLayer, PuzzleLayer, RoyaltyTransferLayer,
    SingletonLayer, SingletonStruct, StandardLayer, StateLayer,
};
use chia_wallet_sdk::mint::{mint_nfts, standard_mint_input, MintInput};
use chia_wallet_sdk::node::{tree_hash, Node};
use chia_wallet_sdk::parse::parse_puzzle;
use chia_wallet_sdk::puzzles::{serialize_node, SpendContext};
use chia_wallet_sdk::settlement::{NotarizedPayment, Payment, SettlementSpend};
use chia_wallet_sdk::spend::{parse_nft_solution, spend_nft, standard_solution_node};
use sha2::Digest;

fn b32(byte: u8) -> Bytes32 {
    Bytes32::new(vec![byte; 32])
}

fn int_list(values: &[u8]) -> Node {
    let mut node = Node::Atom(Vec::new());
    for v in values.iter().rev() {
        node = Node::Pair(Box::new(Node::Atom(vec![*v])), Box::new(node));
    }
    node
}

fn sha256(data: &[u8]) -> Vec<u8> {
    sha2::Sha256::digest(data).to_vec()
}

#[test]
fn test_bulk_mint_scenario() {
    // One funding coin of amount 3 mints a batch of one item of amount 1:
    // exactly one intermediate-launcher spend, one launcher spend, one eve
    // spend, and five parent conditions pairing every assertion with a
    // creation inside the batch.
    let ctx = SpendContext::new();
    let funding_coin = Coin::new(b32(7), b32(8), 3);
    let funding_coin_id = funding_coin.coin_id();

    let synthetic_key = PublicKey::new(vec![17; 48]);
    let did_id = b32(90);
    let did_inner_puzzle_hash = b32(91);

    let input = MintInput {
        owner_puzzle_hash: b32(50),
        royalty_puzzle_hash: b32(51),
        royalty_percentage: 100,
        metadata: int_list(&[4, 5, 6]),
        parent_coin_id: funding_coin_id.clone(),
        amount: 1,
    };

    let bulk = mint_nfts(&ctx, vec![input], &synthetic_key, &did_id, &did_inner_puzzle_hash);
    assert_eq!(bulk.coin_spends.len(), 3);
    assert_eq!(bulk.outputs.len(), 1);

    let output = &bulk.outputs[0];
    assert!(output.parent_conditions.len() >= 3);
    assert_eq!(output.parent_conditions.len(), 5);

    let intermediate = &bulk.coin_spends[0];
    let launcher = &bulk.coin_spends[1];
    let eve = &bulk.coin_spends[2];

    // The intermediate coin hangs off the funding coin with amount zero.
    assert_eq!(intermediate.coin.parent_coin_info.bytes, funding_coin_id.bytes);
    assert_eq!(intermediate.coin.amount, 0);
    assert_eq!(
        intermediate.coin.puzzle_hash.bytes,
        tree_hash(&intermediate.puzzle_reveal)
    );

    // The launcher coin hangs off the intermediate coin; the eve coin off
    // the launcher, at the puzzle hash the launcher commits to.
    let intermediate_id = intermediate.coin.coin_id();
    assert_eq!(launcher.coin.parent_coin_info.bytes, intermediate_id.bytes);
    assert_eq!(launcher.coin.amount, 1);
    let launcher_id = launcher.coin.coin_id();
    assert_eq!(eve.coin.parent_coin_info.bytes, launcher_id.bytes);
    assert_eq!(eve.coin.amount, 1);
    assert_eq!(output.launcher_id.bytes, launcher_id.bytes);

    // The eve coin's puzzle hash, recomputed by the shortcut formula from
    // the same fields, matches hashing the fully constructed reveal.
    let layers = PuzzleLayer::Singleton(SingletonLayer::new(
        SingletonStruct::new(launcher_id.clone()),
        Box::new(PuzzleLayer::State(StateLayer {
            metadata: int_list(&[4, 5, 6]),
            metadata_updater_hash: Bytes32::new(
                chia_wallet_sdk::puzzles::nft_metadata_updater_hash_bytes(),
            ),
            inner_puzzle: Box::new(PuzzleLayer::Ownership(OwnershipLayer {
                current_owner: None,
                transfer_program: Box::new(PuzzleLayer::RoyaltyTransfer(RoyaltyTransferLayer {
                    singleton_struct: SingletonStruct::new(launcher_id.clone()),
                    royalty_puzzle_hash: b32(51),
                    royalty_percentage: 100,
                })),
                inner_puzzle: Box::new(PuzzleLayer::Standard(StandardLayer {
                    synthetic_key: PublicKey::new(vec![17; 48]),
                })),
            })),
        })),
    ));
    let shortcut = layers.tree_hash(&ctx);
    assert_eq!(shortcut, tree_hash(&eve.puzzle_reveal));
    assert_eq!(shortcut, eve.coin.puzzle_hash.bytes);

    // Announcement completeness: each of the three assertions among the
    // parent conditions equals the announcement the matching spend creates
    // when it runs.
    let index_message = sha256(&[usize_to_bytes(0), usize_to_bytes(1)].concat());
    let expected_index_assert = sha256(&[intermediate_id.bytes.clone(), index_message].concat());

    let eve_message_hash = tree_hash(&launcher.solution);
    let expected_eve_assert = sha256(&[launcher_id.bytes.clone(), eve_message_hash].concat());

    let owner_args_node = Node::Pair(
        Box::new(Node::Atom(did_id.bytes.clone())),
        Box::new(Node::Pair(
            Box::new(Node::Atom(Vec::new())),
            Box::new(Node::Pair(
                Box::new(Node::Atom(did_inner_puzzle_hash.bytes.clone())),
                Box::new(Node::Atom(Vec::new())),
            )),
        )),
    );
    let owner_message = [vec![0xad, 0x4c], tree_hash(&owner_args_node)].concat();
    let expected_owner_assert = sha256(&[shortcut.clone(), owner_message].concat());

    match &output.parent_conditions[0] {
        Condition::CreateCoinWithoutMemos { puzzle_hash, amount } => {
            assert_eq!(puzzle_hash.bytes, intermediate.coin.puzzle_hash.bytes);
            assert_eq!(*amount, 0);
        }
        other => panic!("unexpected condition {:?}", other),
    }
    match &output.parent_conditions[1] {
        Condition::AssertCoinAnnouncement { announcement_id } => {
            assert_eq!(*announcement_id, expected_index_assert);
        }
        other => panic!("unexpected condition {:?}", other),
    }
    match &output.parent_conditions[2] {
        Condition::CreatePuzzleAnnouncement { message } => {
            assert_eq!(*message, launcher_id.bytes);
        }
        other => panic!("unexpected condition {:?}", other),
    }
    match &output.parent_conditions[3] {
        Condition::AssertCoinAnnouncement { announcement_id } => {
            assert_eq!(*announcement_id, expected_eve_assert);
        }
        other => panic!("unexpected condition {:?}", other),
    }
    match &output.parent_conditions[4] {
        Condition::AssertPuzzleAnnouncement { announcement_id } => {
            assert_eq!(*announcement_id, expected_owner_assert);
        }
        other => panic!("unexpected condition {:?}", other),
    }

    // Lineage well-formedness: the eve spend's solution carries an eve
    // proof referencing the intermediate coin, and advancing past the eve
    // coin references its identity fields exactly.
    let (proof, amount, _) = parse_nft_solution(&eve.solution).unwrap();
    match &proof {
        Proof::Eve(ep) => {
            assert_eq!(ep.parent_coin_info.bytes, intermediate_id.bytes);
            assert_eq!(ep.amount, 1);
        }
        Proof::Lineage(_) => panic!("an eve spend must carry an eve proof"),
    }
    assert_eq!(amount, 1);

    let inner_hash = b32(60);
    let (child, child_proof) = advance_lineage(&eve.coin, &inner_hash);
    assert_eq!(child.parent_coin_info.bytes, eve.coin.coin_id().bytes);
    assert_eq!(child.puzzle_hash.bytes, eve.coin.puzzle_hash.bytes);
    assert_eq!(child.amount, eve.coin.amount);
    match &child_proof {
        Proof::Lineage(lp) => {
            assert_eq!(lp.parent_coin_info.bytes, eve.coin.parent_coin_info.bytes);
            assert_eq!(lp.inner_puzzle_hash.bytes, inner_hash.bytes);
            assert_eq!(lp.amount, eve.coin.amount);
        }
        Proof::Eve(_) => panic!("a later coin must carry a lineage proof"),
    }
}

#[test]
fn test_coin_id_matches_reference() {
    let mine = Coin::new(b32(1), b32(2), 3).coin_id();
    let reference = chia_protocol::Coin::new(
        chia_protocol::Bytes32::new([1; 32]),
        chia_protocol::Bytes32::new([2; 32]),
        3,
    )
    .coin_id();
    assert_eq!(hex::encode(&mine.bytes), hex::encode(reference));

    let mine_zero = Coin::new(b32(1), b32(2), 0).coin_id();
    let reference_zero = chia_protocol::Coin::new(
        chia_protocol::Bytes32::new([1; 32]),
        chia_protocol::Bytes32::new([2; 32]),
        0,
    )
    .coin_id();
    assert_eq!(hex::encode(&mine_zero.bytes), hex::encode(reference_zero));

    let mine_big = Coin::new(b32(1), b32(2), 0x8000_0000_0000_0001).coin_id();
    let reference_big = chia_protocol::Coin::new(
        chia_protocol::Bytes32::new([1; 32]),
        chia_protocol::Bytes32::new([2; 32]),
        0x8000_0000_0000_0001,
    )
    .coin_id();
    assert_eq!(hex::encode(&mine_big.bytes), hex::encode(reference_big));
}

#[test]
fn test_puzzle_roundtrip() {
    let ctx = SpendContext::new();
    let layer = PuzzleLayer::Singleton(SingletonLayer::new(
        SingletonStruct::new(b32(9)),
        Box::new(PuzzleLayer::State(StateLayer {
            metadata: int_list(&[1, 2]),
            metadata_updater_hash: b32(10),
            inner_puzzle: Box::new(PuzzleLayer::Ownership(OwnershipLayer {
                current_owner: Some(b32(11)),
                transfer_program: Box::new(PuzzleLayer::RoyaltyTransfer(RoyaltyTransferLayer {
                    singleton_struct: SingletonStruct::new(b32(9)),
                    royalty_puzzle_hash: b32(12),
                    royalty_percentage: 300,
                })),
                inner_puzzle: Box::new(PuzzleLayer::Standard(StandardLayer {
                    synthetic_key: PublicKey::new(vec![13; 48]),
                })),
            })),
        })),
    ));
    let constructed = layer.construct_puzzle(&ctx);
    let parsed = parse_puzzle(&constructed).unwrap();
    // The parsed layer reconstructs to exactly the same node.
    let reconstructed = parsed.construct_puzzle(&ctx);
    assert_eq!(constructed, reconstructed);
    match &parsed {
        PuzzleLayer::Singleton(s) => {
            assert_eq!(s.singleton_struct.launcher_id.bytes, vec![9; 32]);
            match &*s.inner_puzzle {
                PuzzleLayer::State(st) => {
                    assert_eq!(st.metadata_updater_hash.bytes, vec![10; 32]);
                }
                other => panic!("unexpected inner layer {:?}", other),
            }
        }
        other => panic!("unexpected layer {:?}", other),
    }
}

#[test]
fn test_structural_rejection() {
    let ctx = SpendContext::new();
    let inner = Box::new(PuzzleLayer::Standard(StandardLayer {
        synthetic_key: PublicKey::new(vec![13; 48]),
    }));
    // A tampered mod hash fails parsing with the structural error, not a
    // recognition miss.
    let tampered_mod = PuzzleLayer::Singleton(SingletonLayer::new(
        SingletonStruct {
            mod_hash: b32(0xaa),
            launcher_id: b32(1),
            launcher_puzzle_hash: Bytes32::new(
                chia_wallet_sdk::puzzles::singleton_launcher_hash_bytes(),
            ),
        },
        Box::new(PuzzleLayer::Standard(StandardLayer {
            synthetic_key: PublicKey::new(vec![13; 48]),
        })),
    ));
    let node = tampered_mod.construct_puzzle(&ctx);
    assert!(matches!(parse_puzzle(&node), Err(ParseError::InvalidSingletonStruct)));

    // A tampered launcher puzzle hash fails the same way.
    let tampered_launcher = PuzzleLayer::Singleton(SingletonLayer::new(
        SingletonStruct {
            mod_hash: Bytes32::new(chia_wallet_sdk::puzzles::singleton_top_layer_hash_bytes()),
            launcher_id: b32(1),
            launcher_puzzle_hash: b32(0xbb),
        },
        inner,
    ));
    let node = tampered_launcher.construct_puzzle(&ctx);
    assert!(matches!(parse_puzzle(&node), Err(ParseError::InvalidSingletonStruct)));

    assert_eq!(
        ParseError::InvalidSingletonStruct.message(),
        "invalid singleton struct"
    );
    assert_eq!(
        ParseError::DecodeError.message(),
        "failed to decode node shape"
    );
}

#[test]
fn test_solution_roundtrip() {
    let coin = Coin::new(b32(1), b32(2), 1000);
    let lineage_proof = Proof::Lineage(chia_wallet_sdk::coin::LineageProof {
        parent_coin_info: b32(3),
        inner_puzzle_hash: b32(4),
        amount: 1000,
    });
    let conditions = vec![Condition::CreatePuzzleAnnouncement {
        message: vec![1, 2, 3],
    }];
    let expected_inner = standard_solution_node(&conditions);
    let spend = spend_nft(coin, int_list(&[1]), lineage_proof.clone(), conditions);
    let (proof, amount, inner) = parse_nft_solution(&spend.solution).unwrap();
    assert_eq!(proof, lineage_proof);
    assert_eq!(amount, 1000);
    assert_eq!(inner, expected_inner);

    // A node that is not a composed solution is a decode error.
    assert_eq!(
        parse_nft_solution(&Node::Atom(vec![1])),
        Err(ParseError::DecodeError)
    );
}

#[test]
fn test_settlement_solution_bytes() {
    // The serialized settlement solution matches the reference byte form
    // for one notarized payment, with and without a memo list.
    let ctx = SpendContext::new();
    let nonce = Bytes32::new(
        hex::decode("d951714bbcd0d0af317b3ef432472b57e7c48d3036b4491539c186ce1377cad2").unwrap(),
    );
    let puzzle_hash = Bytes32::new(
        hex::decode("2a5cbc6f5076e0517bdb1e4664b3c26e64d27178b65aaa1ae97267eee629113b").unwrap(),
    );

    let with_memos = SettlementSpend::new(vec![NotarizedPayment {
        nonce: nonce.clone(),
        payments: vec![Payment {
            puzzle_hash: puzzle_hash.clone(),
            amount: 20_000_000_000,
            memos: Some(Vec::new()),
        }],
    }]);
    let (puzzle, solution) = with_memos.inner_spend(&ctx);
    assert_eq!(
        tree_hash(&puzzle),
        chia_wallet_sdk::puzzles::settlement_payments_hash_bytes()
    );
    assert_eq!(
        hex::encode(serialize_node(&solution).unwrap()),
        "ffffa0d951714bbcd0d0af317b3ef432472b57e7c48d3036b4491539c186ce13\
         77cad2ffffa02a5cbc6f5076e0517bdb1e4664b3c26e64d27178b65aaa1ae972\
         67eee629113bff8504a817c800ff80808080"
    );

    let without_memos = SettlementSpend::new(vec![NotarizedPayment {
        nonce,
        payments: vec![Payment {
            puzzle_hash,
            amount: 20_000_000_000,
            memos: None,
        }],
    }]);
    let coin = Coin::new(b32(1), b32(2), 20_000_000_000);
    let spend = without_memos.finish(&ctx, coin);
    assert_eq!(
        hex::encode(serialize_node(&spend.solution).unwrap()),
        "ffffa0d951714bbcd0d0af317b3ef432472b57e7c48d3036b4491539c186ce13\
         77cad2ffffa02a5cbc6f5076e0517bdb1e4664b3c26e64d27178b65aaa1ae972\
         67eee629113bff8504a817c800808080"
    );
}

#[test]
fn test_standard_mint_input_defaults() {
    let key = PublicKey::new(vec![17; 48]);
    let input = standard_mint_input(&key, b32(1), 250, int_list(&[1]), b32(2), 5);
    assert_eq!(
        input.royalty_puzzle_hash.bytes,
        standard_puzzle_hash_for_key(&key).bytes
    );
    // The defaulted royalty address is the key's own pay-to-key hash, as
    // the reference implementation computes it.
    let expected = clvm_utils::curry_tree_hash(
        clvm_utils::TreeHash::new(chia_wallet::standard::STANDARD_PUZZLE_HASH),
        &[clvm_utils::tree_hash_atom(&[17; 48])],
    );
    assert_eq!(
        hex::encode(&input.royalty_puzzle_hash.bytes),
        hex::encode(expected.to_vec())
    );
    assert_eq!(input.royalty_percentage, 250);
    assert_eq!(input.amount, 5);
}

#[test]
fn test_integer_encodings() {
    assert_eq!(u16_to_bytes(100), vec![100]);
    assert_eq!(u16_to_bytes(0), Vec::<u8>::new());
    assert_eq!(u16_to_bytes(0x1234), vec![0x12, 0x34]);
    assert_eq!(u64_to_clvm_bytes(0), Vec::<u8>::new());
    assert_eq!(u64_to_clvm_bytes(127), vec![127]);
    assert_eq!(u64_to_clvm_bytes(200), vec![0, 200]);
    assert_eq!(u64_to_clvm_bytes(20_000_000_000), vec![0x04, 0xa8, 0x17, 0xc8, 0x00]);
    assert_eq!(usize_to_bytes(0), Vec::<u8>::new());
    assert_eq!(usize_to_bytes(1), vec![1]);
    assert_eq!(trim_leading_zeros(&[0, 0, 5, 0]), vec![5, 0]);
    assert_eq!(trim_leading_zeros(&[0, 0]), Vec::<u8>::new());
}
