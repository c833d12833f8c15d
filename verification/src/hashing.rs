//! The content-hash primitives.
//!
//! Every commitment in the crate — puzzle hashes, coin ids, announcement
//! ids — reduces to compositions of one fixed 256-bit hash over byte
//! strings. The hash itself is consumed from an outside crate and named by
//! an uninterpreted function; the two tree-hash rules are stated and
//! implemented here.

use vstd::prelude::*;

verus! {

/// The 256-bit digest that sha2's `Sha256` computes over a byte string.
/// The result depends on the bytes alone.
pub uninterp spec fn sha256_spec(data: Seq<u8>) -> Seq<u8>;

/// Relies on sha2's `Sha256`: a 32-byte digest determined by the input
/// bytes alone.
#[verifier::external_body]
pub fn sha256(data: &[u8]) -> (r: Vec<u8>)
    ensures
        r@ == sha256_spec(data@),
        r@.len() == 32,
{
    <sha2::Sha256 as sha2::Digest>::digest(data).to_vec()
}

/// The hash of an atom node: the digest of a one byte marker followed by
/// the atom's bytes.
pub open spec fn atom_hash(bytes: Seq<u8>) -> Seq<u8> {
    sha256_spec(seq![1u8] + bytes)
}

/// The hash of a pair node: the digest of a two byte marker followed by
/// the hashes of the two children.
pub open spec fn pair_hash(left: Seq<u8>, right: Seq<u8>) -> Seq<u8> {
    sha256_spec(seq![2u8] + left + right)
}

/// Computes the hash of an atom node from its bytes.
pub fn tree_hash_atom(bytes: &[u8]) -> (r: Vec<u8>)
    ensures
        r@ == atom_hash(bytes@),
        r@.len() == 32,
{
    let mut buf: Vec<u8> = Vec::new();
    buf.push(1u8);
    let mut i: usize = 0;
    while i < bytes.len()
        invariant
            i <= bytes@.len(),
            buf@ =~= seq![1u8] + bytes@.subrange(0, i as int),
        decreases bytes@.len() - i,
    {
        buf.push(bytes[i]);
        i = i + 1;
    }
    proof {
        assert(bytes@.subrange(0, bytes@.len() as int) =~= bytes@);
    }
    sha256(buf.as_slice())
}

/// Computes the hash of a pair node from the hashes of its children.
pub fn tree_hash_pair(left: &[u8], right: &[u8]) -> (r: Vec<u8>)
    ensures
        r@ == pair_hash(left@, right@),
        r@.len() == 32,
{
    let mut buf: Vec<u8> = Vec::new();
    buf.push(2u8);
    let mut i: usize = 0;
    while i < left.len()
        invariant
            i <= left@.len(),
            buf@ =~= seq![2u8] + left@.subrange(0, i as int),
        decreases left@.len() - i,
    {
        buf.push(left[i]);
        i = i + 1;
    }
    let mut j: usize = 0;
    while j < right.len()
        invariant
            j <= right@.len(),
            buf@ =~= seq![2u8] + left@.subrange(0, left@.len() as int) + right@.subrange(
                0,
                j as int,
            ),
        decreases right@.len() - j,
    {
        buf.push(right[j]);
        j = j + 1;
    }
    proof {
        assert(left@.subrange(0, left@.len() as int) =~= left@);
        assert(right@.subrange(0, right@.len() as int) =~= right@);
        assert(buf@ =~= seq![2u8] + left@ + right@);
    }
    sha256(buf.as_slice())
}

/// Concatenates two byte strings.
pub fn concat_bytes(a: &[u8], b: &[u8]) -> (r: Vec<u8>)
    ensures
        r@ == a@ + b@,
{
    let mut r: Vec<u8> = Vec::new();
    let mut i: usize = 0;
    while i < a.len()
        invariant
            i <= a@.len(),
            r@ =~= a@.subrange(0, i as int),
        decreases a@.len() - i,
    {
        r.push(a[i]);
        i = i + 1;
    }
    let mut j: usize = 0;
    while j < b.len()
        invariant
            j <= b@.len(),
            r@ =~= a@.subrange(0, a@.len() as int) + b@.subrange(0, j as int),
        decreases b@.len() - j,
    {
        r.push(b[j]);
        j = j + 1;
    }
    proof {
        assert(a@.subrange(0, a@.len() as int) =~= a@);
        assert(b@.subrange(0, b@.len() as int) =~= b@);
        assert(r@ =~= a@ + b@);
    }
    r
}

} // verus!
