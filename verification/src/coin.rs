//! Coins, coin ids, spends, and lineage proofs.

use vstd::prelude::*;
use crate::bytes::{clvm_int_bytes, u64_to_clvm_bytes};
use crate::hashing::{concat_bytes, sha256, sha256_spec};
use crate::node::Node;

verus! {

/// A 32-byte value: a content hash, a coin id, or a puzzle hash.
#[derive(Debug, Clone, PartialEq, Eq)]
pub struct Bytes32 {
    pub bytes: Vec<u8>,
}

impl View for Bytes32 {
    type V = Seq<u8>;

    open spec fn view(&self) -> Seq<u8> {
        self.bytes@
    }
}

impl Bytes32 {
    /// A 32-byte value holds exactly 32 bytes.
    pub open spec fn wf(&self) -> bool {
        self@.len() == 32
    }

    pub fn new(bytes: Vec<u8>) -> (r: Bytes32)
        requires
            bytes@.len() == 32,
        ensures
            r@ == bytes@,
            r.wf(),
    {
        Bytes32 { bytes }
    }

    /// The bytes as a slice.
    pub fn as_slice(&self) -> (r: &[u8])
        ensures
            r@ == self@,
    {
        self.bytes.as_slice()
    }

    /// A copy of the value.
    pub fn duplicate(&self) -> (r: Bytes32)
        ensures
            r@ == self@,
            r.wf() == self.wf(),
    {
        Bytes32 { bytes: clone_bytes(&self.bytes) }
    }

    /// Equality of two 32-byte values, over their abstract sequences.
    pub fn equals(&self, other: &Bytes32) -> (r: bool)
        ensures
            r == (self@ == other@),
    {
        crate::bytes::bytes_eq(self.bytes.as_slice(), other.bytes.as_slice())
    }
}

/// Copies a byte vector.
pub fn clone_bytes(bytes: &Vec<u8>) -> (r: Vec<u8>)
    ensures
        r@ == bytes@,
{
    let mut r: Vec<u8> = Vec::new();
    let mut i: usize = 0;
    while i < bytes.len()
        invariant
            i <= bytes@.len(),
            r@ =~= bytes@.subrange(0, i as int),
        decreases bytes@.len() - i,
    {
        r.push(bytes[i]);
        i = i + 1;
    }
    proof {
        assert(bytes@.subrange(0, bytes@.len() as int) =~= bytes@);
    }
    r
}

/// A 48-byte synthetic public key, as curried into the pay-to-key puzzle.
#[derive(Debug, Clone, PartialEq, Eq)]
pub struct PublicKey {
    pub bytes: Vec<u8>,
}

impl View for PublicKey {
    type V = Seq<u8>;

    open spec fn view(&self) -> Seq<u8> {
        self.bytes@
    }
}

impl PublicKey {
    /// A public key holds exactly 48 bytes.
    pub open spec fn wf(&self) -> bool {
        self@.len() == 48
    }

    pub fn new(bytes: Vec<u8>) -> (r: PublicKey)
        requires
            bytes@.len() == 48,
        ensures
            r@ == bytes@,
            r.wf(),
    {
        PublicKey { bytes }
    }

    /// A copy of the key.
    pub fn duplicate(&self) -> (r: PublicKey)
        ensures
            r@ == self@,
            r.wf() == self.wf(),
    {
        PublicKey { bytes: clone_bytes(&self.bytes) }
    }
}

/// The abstract value of a coin.
pub struct CoinV {
    pub parent_coin_info: Seq<u8>,
    pub puzzle_hash: Seq<u8>,
    pub amount: u64,
}

/// A coin: the identity of a ledger entry, never mutated. A child coin is
/// a new value created by a spend, not an update.
#[derive(Debug, Clone, PartialEq, Eq)]
pub struct Coin {
    pub parent_coin_info: Bytes32,
    pub puzzle_hash: Bytes32,
    pub amount: u64,
}

impl View for Coin {
    type V = CoinV;

    open spec fn view(&self) -> CoinV {
        CoinV {
            parent_coin_info: self.parent_coin_info@,
            puzzle_hash: self.puzzle_hash@,
            amount: self.amount,
        }
    }
}

/// The id of a coin: the digest of its parent's id, its puzzle hash, and
/// the signed minimal encoding of its amount.
pub open spec fn coin_id_v(c: CoinV) -> Seq<u8> {
    sha256_spec(c.parent_coin_info + c.puzzle_hash + clvm_int_bytes(c.amount as nat))
}

impl Coin {
    /// A coin holds two well-formed 32-byte fields.
    pub open spec fn wf(&self) -> bool {
        self.parent_coin_info.wf() && self.puzzle_hash.wf()
    }

    pub fn new(parent_coin_info: Bytes32, puzzle_hash: Bytes32, amount: u64) -> (r: Coin)
        ensures
            r@.parent_coin_info == parent_coin_info@,
            r@.puzzle_hash == puzzle_hash@,
            r@.amount == amount,
            parent_coin_info.wf() && puzzle_hash.wf() ==> r.wf(),
    {
        Coin { parent_coin_info, puzzle_hash, amount }
    }

    /// A copy of the coin.
    pub fn duplicate(&self) -> (r: Coin)
        ensures
            r@ == self@,
            r.wf() == self.wf(),
    {
        Coin {
            parent_coin_info: self.parent_coin_info.duplicate(),
            puzzle_hash: self.puzzle_hash.duplicate(),
            amount: self.amount,
        }
    }

    /// Computes the coin's id.
    pub fn coin_id(&self) -> (r: Bytes32)
        ensures
            r@ == coin_id_v(self@),
            r.wf(),
    {
        let amount_bytes = u64_to_clvm_bytes(self.amount);
        let head = concat_bytes(self.parent_coin_info.as_slice(), self.puzzle_hash.as_slice());
        let buf = concat_bytes(head.as_slice(), amount_bytes.as_slice());
        proof {
            assert((self.parent_coin_info@ + self.puzzle_hash@) + clvm_int_bytes(
                self.amount as nat,
            ) =~= self.parent_coin_info@ + self.puzzle_hash@ + clvm_int_bytes(self.amount as nat));
        }
        let digest = sha256(buf.as_slice());
        Bytes32::new(digest)
    }
}

/// Evidence of a coin's position in a singleton lineage. The first coin
/// after the launcher carries an eve proof; every later coin references
/// its immediate parent's identity fields.
#[derive(Debug, Clone, PartialEq, Eq)]
pub enum Proof {
    Lineage(LineageProof),
    Eve(EveProof),
}

/// A lineage proof: the immediate parent's parent id, its inner puzzle
/// hash, and its amount.
#[derive(Debug, Clone, PartialEq, Eq)]
pub struct LineageProof {
    pub parent_coin_info: Bytes32,
    pub inner_puzzle_hash: Bytes32,
    pub amount: u64,
}

/// An eve proof: the launcher coin's parent id and amount; there is no
/// prior inner puzzle hash to reference.
#[derive(Debug, Clone, PartialEq, Eq)]
pub struct EveProof {
    pub parent_coin_info: Bytes32,
    pub amount: u64,
}

/// The abstract value of a proof.
pub enum ProofV {
    Lineage { parent_coin_info: Seq<u8>, inner_puzzle_hash: Seq<u8>, amount: u64 },
    Eve { parent_coin_info: Seq<u8>, amount: u64 },
}

impl View for Proof {
    type V = ProofV;

    open spec fn view(&self) -> ProofV {
        match self {
            Proof::Lineage(p) => ProofV::Lineage {
                parent_coin_info: p.parent_coin_info@,
                inner_puzzle_hash: p.inner_puzzle_hash@,
                amount: p.amount,
            },
            Proof::Eve(p) => ProofV::Eve {
                parent_coin_info: p.parent_coin_info@,
                amount: p.amount,
            },
        }
    }
}

impl Proof {
    /// A proof's hash fields are well-formed 32-byte values.
    pub open spec fn wf(&self) -> bool {
        match self {
            Proof::Lineage(p) => p.parent_coin_info.wf() && p.inner_puzzle_hash.wf(),
            Proof::Eve(p) => p.parent_coin_info.wf(),
        }
    }

    /// A copy of the proof.
    pub fn duplicate(&self) -> (r: Proof)
        ensures
            r@ == self@,
            r.wf() == self.wf(),
    {
        match self {
            Proof::Lineage(p) => Proof::Lineage(
                LineageProof {
                    parent_coin_info: p.parent_coin_info.duplicate(),
                    inner_puzzle_hash: p.inner_puzzle_hash.duplicate(),
                    amount: p.amount,
                },
            ),
            Proof::Eve(p) => Proof::Eve(
                EveProof { parent_coin_info: p.parent_coin_info.duplicate(), amount: p.amount },
            ),
        }
    }
}

/// The child coin a spent singleton coin creates at the same puzzle hash
/// and amount, and the lineage proof the child's spend must carry: it
/// references exactly the spent coin's identity fields — its parent id,
/// the given inner puzzle hash, and its amount. This is how a lineage
/// stays well-formed past the eve coin.
pub fn advance_lineage(coin: &Coin, inner_puzzle_hash: &Bytes32) -> (r: (Coin, Proof))
    ensures
        r.0@ == (CoinV {
            parent_coin_info: coin_id_v(coin@),
            puzzle_hash: coin@.puzzle_hash,
            amount: coin@.amount,
        }),
        r.1@ == (ProofV::Lineage {
            parent_coin_info: coin@.parent_coin_info,
            inner_puzzle_hash: inner_puzzle_hash@,
            amount: coin@.amount,
        }),
        coin.wf() ==> r.0.wf(),
        coin.wf() && inner_puzzle_hash.wf() ==> r.1.wf(),
{
    let child = Coin::new(coin.coin_id(), coin.puzzle_hash.duplicate(), coin.amount);
    let lineage_proof = Proof::Lineage(
        LineageProof {
            parent_coin_info: coin.parent_coin_info.duplicate(),
            inner_puzzle_hash: inner_puzzle_hash.duplicate(),
            amount: coin.amount,
        },
    );
    (child, lineage_proof)
}

/// The identifying fields of an asset-token coin: the asset id, the inner
/// pay-to-key puzzle hash, the coin itself, and its lineage proof.
#[derive(Debug, Clone, PartialEq, Eq)]
pub struct CatInfo {
    pub asset_id: Bytes32,
    pub p2_puzzle_hash: Bytes32,
    pub coin: Coin,
    pub lineage_proof: LineageProof,
}

/// A fully built spend: the coin, the constructed puzzle node, and the
/// constructed solution node.
#[derive(Debug)]
pub struct CoinSpend {
    pub coin: Coin,
    pub puzzle_reveal: Node,
    pub solution: Node,
}

impl CoinSpend {
    pub fn new(coin: Coin, puzzle_reveal: Node, solution: Node) -> (r: CoinSpend)
        ensures
            r.coin@ == coin@,
            r.coin.wf() == coin.wf(),
            r.puzzle_reveal == puzzle_reveal,
            r.solution == solution,
    {
        CoinSpend { coin, puzzle_reveal, solution }
    }
}

} // verus!
