//! Batch mint orchestration.
//!
//! Minting N singleton assets from one funding coin has no native
//! atomicity: each item is three independently executed spends — an
//! intermediate launcher committing to the item's position, the launcher
//! creating the eve coin at a hash computed without constructing its
//! puzzle, and the eve spend itself. Atomicity is emulated by announcement
//! commitments: every assertion handed back for the funding coin is
//! matched by a creation inside the same item's spends.

use vstd::prelude::*;
use crate::bytes::{clvm_int_bytes, min_be_bytes, u64_to_clvm_bytes, usize_to_bytes};
use crate::coin::{
    clone_bytes,
    coin_id_v,
    Bytes32,
    Coin,
    CoinSpend,
    EveProof,
    Proof,
    PublicKey,
};
use crate::conditions::{
    coin_announcement_id,
    coin_announcement_id_v,
    puzzle_announcement_id_v,
    Condition,
};
use crate::hashing::{concat_bytes, sha256, sha256_spec};
use crate::layers::{
    LayerV,
    OwnershipLayer,
    PuzzleLayer,
    RoyaltyTransferLayer,
    SingletonLayer,
    SingletonStruct,
    SingletonStructV,
    StandardLayer,
    StateLayer,
};
use crate::node::{
    curried,
    curried_v,
    list_from,
    list_v,
    node_view,
    nodes_view,
    tree_hash,
    tree_hash_v,
    Node,
    NodeV,
};
use crate::puzzles::{SpendContext, SpendContextV};
use crate::spend::{nft_solution_node_v, spend_nft};

verus! {

/// The information required to mint one asset.
#[derive(Debug)]
pub struct MintInput {
    /// The owner puzzle hash of the newly minted asset.
    pub owner_puzzle_hash: Bytes32,
    /// The puzzle hash royalties are sent to when the asset trades.
    pub royalty_puzzle_hash: Bytes32,
    /// The royalty percentage in basis points.
    pub royalty_percentage: u16,
    /// The asset metadata.
    pub metadata: Node,
    /// The funding coin whose id parents the intermediate launcher.
    pub parent_coin_id: Bytes32,
    /// The amount of the launcher coin and the subsequent asset coin.
    pub amount: u64,
}

/// The output of one mint: the conditions the funding coin must output
/// for the mint to be valid, and the new lineage's launcher id. Returning
/// the obligations explicitly makes an unmatched announcement pair
/// structurally hard to omit.
#[derive(Debug)]
pub struct MintOutput {
    pub parent_conditions: Vec<Condition>,
    pub launcher_id: Bytes32,
}

/// A whole batch mint: the spends of every item, and the per-item
/// obligations left for the funding coin.
#[derive(Debug)]
pub struct BulkMint {
    pub coin_spends: Vec<CoinSpend>,
    pub outputs: Vec<MintOutput>,
}

/// The intermediate launcher puzzle for one batch position: the launcher
/// puzzle hash and the item's index and total, curried into the
/// intermediate launcher program.
pub open spec fn intermediate_puzzle_v(c: SpendContextV, index: nat, total: nat) -> NodeV {
    curried_v(
        c.nft_intermediate_launcher,
        seq![
            NodeV::Atom(crate::puzzles::singleton_launcher_hash()),
            NodeV::Atom(clvm_int_bytes(index)),
            NodeV::Atom(clvm_int_bytes(total)),
        ],
    )
}

/// The position commitment of one batch item: the digest of the index and
/// the total, each as minimal big-endian bytes.
pub open spec fn index_message_v(index: nat, total: nat) -> Seq<u8> {
    sha256_spec(min_be_bytes(index) + min_be_bytes(total))
}

/// The composed puzzle of a freshly minted asset: the singleton top layer
/// over the state layer over the ownership layer (no owner yet, the
/// royalty transfer program) over the pay-to-key layer.
pub open spec fn mint_nft_layers_v(
    launcher_id: Seq<u8>,
    metadata: NodeV,
    royalty_puzzle_hash: Seq<u8>,
    royalty_percentage: u16,
    synthetic_key: Seq<u8>,
) -> LayerV {
    LayerV::Singleton {
        singleton_struct: canonical_struct_v(launcher_id),
        inner_puzzle: Box::new(
            LayerV::State {
                metadata,
                metadata_updater_hash: crate::puzzles::nft_metadata_updater_hash(),
                inner_puzzle: Box::new(
                    LayerV::Ownership {
                        current_owner: Option::None,
                        transfer_program: Box::new(
                            LayerV::RoyaltyTransfer {
                                singleton_struct: canonical_struct_v(launcher_id),
                                royalty_puzzle_hash,
                                royalty_percentage,
                            },
                        ),
                        inner_puzzle: Box::new(LayerV::Standard { synthetic_key }),
                    },
                ),
            },
        ),
    }
}

/// The canonical singleton struct of a launcher id.
pub open spec fn canonical_struct_v(launcher_id: Seq<u8>) -> SingletonStructV {
    SingletonStructV {
        mod_hash: crate::puzzles::singleton_top_layer_hash(),
        launcher_id,
        launcher_puzzle_hash: crate::puzzles::singleton_launcher_hash(),
    }
}

/// The message the launcher commits the eve coin to: the eve puzzle hash,
/// the amount, and an empty key-value list.
pub open spec fn eve_message_node_v(eve_puzzle_hash: Seq<u8>, amount: u64) -> NodeV {
    list_v(
        seq![
            NodeV::Atom(eve_puzzle_hash),
            NodeV::Atom(clvm_int_bytes(amount as nat)),
            NodeV::Atom(Seq::<u8>::empty()),
        ],
    )
}

/// The owner-change arguments the eve spend announces: the new owner, an
/// empty trade price list, and the owning identity's inner puzzle hash.
pub open spec fn owner_args_node_v(did_id: Seq<u8>, did_inner_puzzle_hash: Seq<u8>) -> NodeV {
    list_v(
        seq![
            NodeV::Atom(did_id),
            NodeV::Atom(Seq::<u8>::empty()),
            NodeV::Atom(did_inner_puzzle_hash),
        ],
    )
}

/// The owner-change announcement message: a fixed two byte marker
/// followed by the tree hash of the owner-change arguments.
pub open spec fn owner_announcement_message_v(
    did_id: Seq<u8>,
    did_inner_puzzle_hash: Seq<u8>,
) -> Seq<u8> {
    seq![0xadu8, 0x4cu8] + tree_hash_v(owner_args_node_v(did_id, did_inner_puzzle_hash))
}

/// The eve spend's condition nodes: pay the minted asset to its owner
/// (with the owner's puzzle hash as the single memo), and hand ownership
/// to the controlling identity.
pub open spec fn eve_condition_nodes_v(
    owner_puzzle_hash: Seq<u8>,
    amount: u64,
    did_id: Seq<u8>,
    did_inner_puzzle_hash: Seq<u8>,
) -> Seq<NodeV> {
    seq![
        list_v(
            seq![
                NodeV::Atom(seq![51u8]),
                NodeV::Atom(owner_puzzle_hash),
                NodeV::Atom(clvm_int_bytes(amount as nat)),
                list_v(seq![NodeV::Atom(owner_puzzle_hash)]),
            ],
        ),
        list_v(
            seq![
                NodeV::Atom(seq![0xf6u8]),
                NodeV::Atom(did_id),
                NodeV::Atom(Seq::<u8>::empty()),
                NodeV::Atom(did_inner_puzzle_hash),
            ],
        ),
    ]
}

/// The pay-to-key solution node over already-encoded condition nodes.
pub open spec fn standard_solution_of_nodes_v(condition_nodes: Seq<NodeV>) -> NodeV {
    list_v(
        seq![
            NodeV::Atom(Seq::<u8>::empty()),
            crate::node::quoted_v(list_v(condition_nodes)),
            NodeV::Atom(Seq::<u8>::empty()),
        ],
    )
}

/// The eve proof node: the intermediate launcher's coin id and the
/// amount.
pub open spec fn eve_proof_node_v(parent_coin_info: Seq<u8>, amount: u64) -> NodeV {
    list_v(
        seq![NodeV::Atom(parent_coin_info), NodeV::Atom(clvm_int_bytes(amount as nat))],
    )
}

/// The eve spend's full solution node: the eve proof, the re-asserted
/// amount, and the pay-to-key solution nested below the state and
/// ownership layers.
pub open spec fn eve_solution_node_v(
    intermediate_id: Seq<u8>,
    input: MintInput,
    did_id: Seq<u8>,
    did_inner_puzzle_hash: Seq<u8>,
) -> NodeV {
    list_v(
        seq![
            eve_proof_node_v(intermediate_id, input.amount),
            NodeV::Atom(clvm_int_bytes(input.amount as nat)),
            list_v(
                seq![
                    list_v(
                        seq![
                            standard_solution_of_nodes_v(
                                eve_condition_nodes_v(
                                    input.owner_puzzle_hash@,
                                    input.amount,
                                    did_id,
                                    did_inner_puzzle_hash,
                                ),
                            ),
                        ],
                    ),
                ],
            ),
        ],
    )
}

/// A create-coin condition without memos for exactly this child.
pub open spec fn is_create_coin_without(c: Condition, puzzle_hash: Seq<u8>, amount: u64) -> bool {
    c matches Condition::CreateCoinWithoutMemos { puzzle_hash: ph, amount: a } && ph@ == puzzle_hash
        && a == amount
}

/// A coin announcement assertion of exactly this id.
pub open spec fn is_assert_coin(c: Condition, id: Seq<u8>) -> bool {
    c matches Condition::AssertCoinAnnouncement { announcement_id } && announcement_id@ == id
}

/// A puzzle announcement assertion of exactly this id.
pub open spec fn is_assert_puzzle(c: Condition, id: Seq<u8>) -> bool {
    c matches Condition::AssertPuzzleAnnouncement { announcement_id } && announcement_id@ == id
}

/// A puzzle announcement creation of exactly this message.
pub open spec fn is_create_puzzle_announcement(c: Condition, message: Seq<u8>) -> bool {
    c matches Condition::CreatePuzzleAnnouncement { message: m } && m@ == message
}

/// What one minted item must look like. `s1` is the intermediate launcher
/// spend, `s2` the launcher spend, `s3` the eve spend; the output's five
/// parent conditions create the intermediate coin and assert the three
/// announcements that the item's own spends create when they run.
pub open spec fn mint_item_ok(
    c: SpendContextV,
    input: MintInput,
    synthetic_key: Seq<u8>,
    did_id: Seq<u8>,
    did_inner_puzzle_hash: Seq<u8>,
    index: nat,
    total: nat,
    output: MintOutput,
    s1: CoinSpend,
    s2: CoinSpend,
    s3: CoinSpend,
) -> bool {
    let intermediate_puzzle = intermediate_puzzle_v(c, index, total);
    let intermediate_coin_v = crate::coin::CoinV {
        parent_coin_info: input.parent_coin_id@,
        puzzle_hash: tree_hash_v(intermediate_puzzle),
        amount: 0u64,
    };
    let intermediate_id = coin_id_v(intermediate_coin_v);
    let launcher_coin_v = crate::coin::CoinV {
        parent_coin_info: intermediate_id,
        puzzle_hash: crate::puzzles::singleton_launcher_hash(),
        amount: input.amount,
    };
    let launcher_id = coin_id_v(launcher_coin_v);
    let layers = mint_nft_layers_v(
        launcher_id,
        node_view(input.metadata),
        input.royalty_puzzle_hash@,
        input.royalty_percentage,
        synthetic_key,
    );
    let eve_puzzle_hash = crate::layers::layer_hash_v(layers);
    let eve_coin_v = crate::coin::CoinV {
        parent_coin_info: launcher_id,
        puzzle_hash: eve_puzzle_hash,
        amount: input.amount,
    };
    &&& s1.coin@ == intermediate_coin_v
    &&& node_view(s1.puzzle_reveal) == intermediate_puzzle
    &&& node_view(s1.solution) == NodeV::Atom(Seq::<u8>::empty())
    &&& s2.coin@ == launcher_coin_v
    &&& node_view(s2.puzzle_reveal) == c.singleton_launcher
    &&& node_view(s2.solution) == eve_message_node_v(eve_puzzle_hash, input.amount)
    &&& s3.coin@ == eve_coin_v
    &&& node_view(s3.puzzle_reveal) == crate::layers::construct_puzzle_v(layers, c)
    &&& node_view(s3.solution) == eve_solution_node_v(
        intermediate_id,
        input,
        did_id,
        did_inner_puzzle_hash,
    )
    &&& output.launcher_id@ == launcher_id
    &&& output.parent_conditions@.len() == 5
    &&& is_create_coin_without(output.parent_conditions@[0], tree_hash_v(intermediate_puzzle), 0)
    &&& is_assert_coin(
        output.parent_conditions@[1],
        coin_announcement_id_v(intermediate_id, index_message_v(index, total)),
    )
    &&& is_create_puzzle_announcement(output.parent_conditions@[2], launcher_id)
    &&& is_assert_coin(
        output.parent_conditions@[3],
        coin_announcement_id_v(
            launcher_id,
            tree_hash_v(eve_message_node_v(eve_puzzle_hash, input.amount)),
        ),
    )
    &&& is_assert_puzzle(
        output.parent_conditions@[4],
        puzzle_announcement_id_v(
            eve_puzzle_hash,
            owner_announcement_message_v(did_id, did_inner_puzzle_hash),
        ),
    )
}


/// Builds the spend of a fresh intermediate launcher coin: a zero-amount
/// coin under the funding coin, whose puzzle commits to the item's
/// position in the batch.
pub fn spend_new_intermediate_launcher(
    ctx: &SpendContext,
    parent_coin_id: &Bytes32,
    index: usize,
    total: usize,
) -> (r: CoinSpend)
    requires
        ctx.wf(),
    ensures
        r.coin@.parent_coin_info == parent_coin_id@,
        r.coin@.puzzle_hash == tree_hash_v(intermediate_puzzle_v(ctx@, index as nat, total as nat)),
        r.coin@.amount == 0,
        node_view(r.puzzle_reveal) == intermediate_puzzle_v(ctx@, index as nat, total as nat),
        node_view(r.solution) == NodeV::Atom(Seq::<u8>::empty()),
{
    let mut args: Vec<Node> = Vec::new();
    args.push(Node::Atom(crate::puzzles::singleton_launcher_hash_bytes()));
    args.push(Node::Atom(u64_to_clvm_bytes(index as u64)));
    args.push(Node::Atom(u64_to_clvm_bytes(total as u64)));
    proof {
        assert(nodes_view(args@) =~= seq![
            NodeV::Atom(crate::puzzles::singleton_launcher_hash()),
            NodeV::Atom(clvm_int_bytes(index as nat)),
            NodeV::Atom(clvm_int_bytes(total as nat)),
        ]);
    }
    let puzzle = curried(
        crate::node::clone_node(&ctx.nft_intermediate_launcher),
        args,
    );
    let puzzle_hash = tree_hash(&puzzle);
    let coin = Coin::new(
        parent_coin_id.duplicate(),
        Bytes32::new(puzzle_hash),
        0u64,
    );
    CoinSpend::new(coin, puzzle, crate::node::nil())
}

/// Composes the typed puzzle of one freshly minted asset.
fn build_mint_layers(
    input: &MintInput,
    synthetic_key: &PublicKey,
    launcher_id: &Bytes32,
) -> (r: PuzzleLayer)
    ensures
        crate::layers::layer_view(r) == mint_nft_layers_v(
            launcher_id@,
            node_view(input.metadata),
            input.royalty_puzzle_hash@,
            input.royalty_percentage,
            synthetic_key@,
        ),
{
    let r = PuzzleLayer::Singleton(
        SingletonLayer {
            singleton_struct: SingletonStruct::new(launcher_id.duplicate()),
            inner_puzzle: Box::new(
                PuzzleLayer::State(
                    StateLayer {
                        metadata: crate::node::clone_node(&input.metadata),
                        metadata_updater_hash: Bytes32::new(
                            crate::puzzles::nft_metadata_updater_hash_bytes(),
                        ),
                        inner_puzzle: Box::new(
                            PuzzleLayer::Ownership(
                                OwnershipLayer {
                                    current_owner: Option::None,
                                    transfer_program: Box::new(
                                        PuzzleLayer::RoyaltyTransfer(
                                            RoyaltyTransferLayer {
                                                singleton_struct: SingletonStruct::new(
                                                    launcher_id.duplicate(),
                                                ),
                                                royalty_puzzle_hash:
                                                    input.royalty_puzzle_hash.duplicate(),
                                                royalty_percentage: input.royalty_percentage,
                                            },
                                        ),
                                    ),
                                    inner_puzzle: Box::new(
                                        PuzzleLayer::Standard(
                                            StandardLayer {
                                                synthetic_key: synthetic_key.duplicate(),
                                            },
                                        ),
                                    ),
                                },
                            ),
                        ),
                    },
                ),
            ),
        },
    );
    proof {
        reveal_with_fuel(crate::layers::layer_view, 8);
    }
    r
}

/// Builds the eve coin's spend: the constructed puzzle as the reveal, and
/// the solution threading the eve proof, the amount, and the owner-change
/// conditions.
fn build_eve_spend(
    ctx: &SpendContext,
    layers: PuzzleLayer,
    input: &MintInput,
    did_id: &Bytes32,
    did_inner_puzzle_hash: &Bytes32,
    intermediate_id: &Bytes32,
    launcher_id: &Bytes32,
    eve_puzzle_hash: &Bytes32,
) -> (r: CoinSpend)
    ensures
        r.coin@ == (crate::coin::CoinV {
            parent_coin_info: launcher_id@,
            puzzle_hash: eve_puzzle_hash@,
            amount: input.amount,
        }),
        node_view(r.puzzle_reveal) == crate::layers::construct_puzzle_v(
            crate::layers::layer_view(layers),
            ctx@,
        ),
        node_view(r.solution) == eve_solution_node_v(
            intermediate_id@,
            *input,
            did_id@,
            did_inner_puzzle_hash@,
        ),
{
    let eve_coin = Coin::new(launcher_id.duplicate(), eve_puzzle_hash.duplicate(), input.amount);
    let eve_proof = Proof::Eve(
        EveProof { parent_coin_info: intermediate_id.duplicate(), amount: input.amount },
    );
    let eve_puzzle_reveal = layers.construct_puzzle(ctx);

    let mut memos: Vec<Vec<u8>> = Vec::new();
    memos.push(clone_bytes(&input.owner_puzzle_hash.bytes));
    let ghost memos_snapshot = memos@;
    let mut eve_conditions: Vec<Condition> = Vec::new();
    eve_conditions.push(
        Condition::CreateCoinWithMemos {
            puzzle_hash: input.owner_puzzle_hash.duplicate(),
            amount: input.amount,
            memos,
        },
    );
    eve_conditions.push(
        Condition::NewNftOwner {
            new_owner: Option::Some(did_id.duplicate()),
            trade_prices_list: Vec::new(),
            new_did_inner_hash: Option::Some(did_inner_puzzle_hash.duplicate()),
        },
    );
    let ghost eve_conditions_snapshot = eve_conditions@;
    let ghost eve_proof_snapshot = eve_proof;
    let eve_spend = spend_nft(eve_coin, eve_puzzle_reveal, eve_proof, eve_conditions);
    proof {
        let cond_nodes = eve_condition_nodes_v(
            input.owner_puzzle_hash@,
            input.amount,
            did_id@,
            did_inner_puzzle_hash@,
        );
        assert(memos_snapshot.map_values(|m: Vec<u8>| NodeV::Atom(m@)) =~= seq![
            NodeV::Atom(input.owner_puzzle_hash@),
        ]);
        assert(crate::conditions::condition_node_v(eve_conditions_snapshot[0]) == list_v(
            seq![
                NodeV::Atom(seq![51u8]),
                NodeV::Atom(input.owner_puzzle_hash@),
                NodeV::Atom(clvm_int_bytes(input.amount as nat)),
                list_v(seq![NodeV::Atom(input.owner_puzzle_hash@)]),
            ],
        ));
        assert((eve_conditions_snapshot[1]->NewNftOwner_trade_prices_list)@.map_values(
            |n: Node| node_view(n),
        ) =~= Seq::<NodeV>::empty());
        assert(crate::conditions::condition_node_v(eve_conditions_snapshot[1]) == list_v(
            seq![
                NodeV::Atom(seq![0xf6u8]),
                NodeV::Atom(did_id@),
                NodeV::Atom(Seq::<u8>::empty()),
                NodeV::Atom(did_inner_puzzle_hash@),
            ],
        ));
        assert(eve_conditions_snapshot.map_values(
            |cd: Condition| crate::conditions::condition_node_v(cd),
        ) =~= cond_nodes);
        assert(crate::spend::conditions_list_v(eve_conditions_snapshot) == list_v(cond_nodes));
        assert(crate::spend::standard_solution_node_v(eve_conditions_snapshot)
            == standard_solution_of_nodes_v(cond_nodes));
        assert(crate::spend::proof_node_v(eve_proof_snapshot) == eve_proof_node_v(
            intermediate_id@,
            input.amount,
        ));
        assert(node_view(eve_spend.solution) == nft_solution_node_v(
            eve_proof_snapshot,
            input.amount,
            eve_conditions_snapshot,
        ));
        assert(nft_solution_node_v(eve_proof_snapshot, input.amount, eve_conditions_snapshot)
            == eve_solution_node_v(intermediate_id@, *input, did_id@, did_inner_puzzle_hash@));
    }
    eve_spend
}

/// Builds the three spends and the funding-coin obligations of one batch
/// item.
#[verifier::rlimit(100)]
fn mint_one(
    ctx: &SpendContext,
    input: &MintInput,
    synthetic_key: &PublicKey,
    did_id: &Bytes32,
    did_inner_puzzle_hash: &Bytes32,
    mint_index: usize,
    mint_total: usize,
) -> (r: (CoinSpend, CoinSpend, CoinSpend, MintOutput))
    requires
        ctx.wf(),
    ensures
        mint_item_ok(
            ctx@,
            *input,
            synthetic_key@,
            did_id@,
            did_inner_puzzle_hash@,
            mint_index as nat,
            mint_total as nat,
            r.3,
            r.0,
            r.1,
            r.2,
        ),
{
    let mut parent_conditions: Vec<Condition> = Vec::new();

    // The intermediate launcher commits to this item's position.
    let intermediate_spend = spend_new_intermediate_launcher(
        ctx,
        &input.parent_coin_id,
        mint_index,
        mint_total,
    );
    let intermediate_id = intermediate_spend.coin.coin_id();

    parent_conditions.push(
        Condition::CreateCoinWithoutMemos {
            puzzle_hash: intermediate_spend.coin.puzzle_hash.duplicate(),
            amount: intermediate_spend.coin.amount,
        },
    );

    // When it runs, the intermediate launcher announces the digest of its
    // index and total; the funding coin asserts it.
    let index_message = sha256(
        concat_bytes(
            usize_to_bytes(mint_index).as_slice(),
            usize_to_bytes(mint_total).as_slice(),
        ).as_slice(),
    );
    let assert_index = coin_announcement_id(intermediate_id.as_slice(), index_message.as_slice());
    parent_conditions.push(Condition::AssertCoinAnnouncement { announcement_id: assert_index });

    // The launcher coin sits under the intermediate coin.
    let launcher_coin = Coin::new(
        intermediate_id.duplicate(),
        Bytes32::new(crate::puzzles::singleton_launcher_hash_bytes()),
        input.amount,
    );
    let launcher_id = launcher_coin.coin_id();

    parent_conditions.push(
        Condition::CreatePuzzleAnnouncement { message: clone_bytes(&launcher_id.bytes) },
    );

    // The composed eve puzzle, and its hash by the shortcut formula.
    let layers = build_mint_layers(input, synthetic_key, &launcher_id);
    let eve_puzzle_hash = Bytes32::new(layers.tree_hash(ctx));

    // The launcher commits to the eve coin; the funding coin asserts the
    // commitment.
    let mut eve_message_items: Vec<Node> = Vec::new();
    eve_message_items.push(Node::Atom(clone_bytes(&eve_puzzle_hash.bytes)));
    eve_message_items.push(Node::Atom(u64_to_clvm_bytes(input.amount)));
    eve_message_items.push(crate::node::nil());
    proof {
        assert(nodes_view(eve_message_items@) =~= seq![
            NodeV::Atom(eve_puzzle_hash@),
            NodeV::Atom(clvm_int_bytes(input.amount as nat)),
            NodeV::Atom(Seq::<u8>::empty()),
        ]);
    }
    let eve_message = list_from(eve_message_items);
    let eve_message_hash = tree_hash(&eve_message);
    let assert_eve = coin_announcement_id(launcher_id.as_slice(), eve_message_hash.as_slice());
    parent_conditions.push(Condition::AssertCoinAnnouncement { announcement_id: assert_eve });

    // The launcher spend reveals the bare launcher program and names the
    // eve puzzle hash, the amount, and an empty key-value list.
    let launcher_spend = CoinSpend::new(
        launcher_coin.duplicate(),
        crate::node::clone_node(&ctx.singleton_launcher),
        eve_message,
    );

    // The eve spend pays the asset to its owner and hands ownership to
    // the controlling identity.
    let eve_spend = build_eve_spend(
        ctx,
        layers,
        input,
        did_id,
        did_inner_puzzle_hash,
        &intermediate_id,
        &launcher_id,
        &eve_puzzle_hash,
    );

    // When the eve spend changes ownership it announces the marker and the
    // hash of the owner arguments; the coordinating spend asserts it.
    let mut owner_args_items: Vec<Node> = Vec::new();
    owner_args_items.push(Node::Atom(clone_bytes(&did_id.bytes)));
    owner_args_items.push(crate::node::nil());
    owner_args_items.push(Node::Atom(clone_bytes(&did_inner_puzzle_hash.bytes)));
    proof {
        assert(nodes_view(owner_args_items@) =~= seq![
            NodeV::Atom(did_id@),
            NodeV::Atom(Seq::<u8>::empty()),
            NodeV::Atom(did_inner_puzzle_hash@),
        ]);
    }
    let owner_args = list_from(owner_args_items);
    let owner_args_hash = tree_hash(&owner_args);
    let mut marker: Vec<u8> = Vec::new();
    marker.push(0xadu8);
    marker.push(0x4cu8);
    proof {
        assert(marker@ =~= seq![0xadu8, 0x4cu8]);
    }
    let owner_message = concat_bytes(marker.as_slice(), owner_args_hash.as_slice());
    let assert_owner = crate::conditions::puzzle_announcement_id(
        eve_puzzle_hash.as_slice(),
        owner_message.as_slice(),
    );
    parent_conditions.push(Condition::AssertPuzzleAnnouncement { announcement_id: assert_owner });

    (intermediate_spend, launcher_spend, eve_spend, MintOutput { parent_conditions, launcher_id })
}

/// Bulk mints a batch of assets from one funding coin. For each input, in
/// order, three spends are appended — the intermediate launcher, the
/// launcher that commits to the eve coin's puzzle hash without
/// constructing it, and the eve spend itself — and one output records the
/// launcher id and the five conditions the funding coin must still
/// attach. Every announcement asserted there is created by a spend of the
/// same item, so the batch is atomic or wholly rejected.
pub fn mint_nfts(
    ctx: &SpendContext,
    inputs: Vec<MintInput>,
    synthetic_key: &PublicKey,
    did_id: &Bytes32,
    did_inner_puzzle_hash: &Bytes32,
) -> (r: BulkMint)
    requires
        ctx.wf(),
    ensures
        r.coin_spends@.len() == 3 * inputs@.len(),
        r.outputs@.len() == inputs@.len(),
        forall|i: int|
            0 <= i < inputs@.len() ==> mint_item_ok(
                ctx@,
                inputs@[i],
                synthetic_key@,
                did_id@,
                did_inner_puzzle_hash@,
                i as nat,
                inputs@.len() as nat,
                #[trigger] r.outputs@[i],
                r.coin_spends@[3 * i],
                r.coin_spends@[3 * i + 1],
                r.coin_spends@[3 * i + 2],
            ),
{
    let mut coin_spends: Vec<CoinSpend> = Vec::new();
    let mut outputs: Vec<MintOutput> = Vec::new();
    let mint_total = inputs.len();
    let mut mint_index: usize = 0;
    while mint_index < inputs.len()
        invariant
            ctx.wf(),
            mint_index <= inputs@.len(),
            mint_total == inputs@.len(),
            coin_spends@.len() == 3 * mint_index,
            outputs@.len() == mint_index,
            forall|i: int|
                0 <= i < mint_index ==> mint_item_ok(
                    ctx@,
                    inputs@[i],
                    synthetic_key@,
                    did_id@,
                    did_inner_puzzle_hash@,
                    i as nat,
                    inputs@.len() as nat,
                    #[trigger] outputs@[i],
                    coin_spends@[3 * i],
                    coin_spends@[3 * i + 1],
                    coin_spends@[3 * i + 2],
                ),
        decreases inputs@.len() - mint_index,
    {
        let (s1, s2, s3, output) = mint_one(
            ctx,
            &inputs[mint_index],
            synthetic_key,
            did_id,
            did_inner_puzzle_hash,
            mint_index,
            mint_total,
        );
        coin_spends.push(s1);
        coin_spends.push(s2);
        coin_spends.push(s3);
        outputs.push(output);
        mint_index = mint_index + 1;
    }
    BulkMint { coin_spends, outputs }
}

/// The defaulting entry for a standard mint: royalties are paid to the
/// synthetic key's own pay-to-key puzzle hash; the canonical metadata
/// updater is fixed by the mint itself.
pub fn standard_mint_input(
    synthetic_key: &PublicKey,
    owner_puzzle_hash: Bytes32,
    royalty_percentage: u16,
    metadata: Node,
    parent_coin_id: Bytes32,
    amount: u64,
) -> (r: MintInput)
    ensures
        r.owner_puzzle_hash@ == owner_puzzle_hash@,
        r.royalty_puzzle_hash@ == crate::layers::standard_layer_hash_v(synthetic_key@),
        r.royalty_percentage == royalty_percentage,
        node_view(r.metadata) == node_view(metadata),
        r.parent_coin_id@ == parent_coin_id@,
        r.amount == amount,
{
    MintInput {
        owner_puzzle_hash,
        royalty_puzzle_hash: crate::layers::standard_puzzle_hash_for_key(synthetic_key),
        royalty_percentage,
        metadata,
        parent_coin_id,
        amount,
    }
}

} // verus!
