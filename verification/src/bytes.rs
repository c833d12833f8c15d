//! Minimal big-endian integer encodings.
//!
//! Announcement messages commit to batch positions as minimal big-endian
//! byte strings, and node atoms carry amounts in the signed minimal
//! encoding of the program representation (a leading zero byte is added
//! when the top bit of the first byte would otherwise be set).

use vstd::prelude::*;

verus! {

/// The little-endian byte string of `n`, least significant byte first,
/// with no trailing zero bytes.
pub open spec fn le_bytes(n: nat) -> Seq<u8>
    decreases n,
{
    if n == 0 {
        Seq::empty()
    } else {
        seq![(n % 256) as u8] + le_bytes(n / 256)
    }
}

/// The minimal big-endian byte string of `n`: empty for zero, and with a
/// nonzero first byte otherwise.
pub open spec fn min_be_bytes(n: nat) -> Seq<u8> {
    le_bytes(n).reverse()
}

/// The signed minimal encoding of the nonnegative integer `n`: its minimal
/// big-endian bytes, preceded by a zero byte when the first byte would have
/// the top bit set.
pub open spec fn clvm_int_bytes(n: nat) -> Seq<u8> {
    if n == 0 {
        Seq::empty()
    } else if min_be_bytes(n)[0] >= 0x80 {
        seq![0u8] + min_be_bytes(n)
    } else {
        min_be_bytes(n)
    }
}

/// The minimal big-endian form of a byte string: the same bytes with every
/// leading zero byte removed.
pub open spec fn trimmed(s: Seq<u8>) -> Seq<u8>
    decreases s.len(),
{
    if s.len() == 0 {
        s
    } else if s[0] == 0 {
        trimmed(s.skip(1))
    } else {
        s
    }
}

/// Strips leading zero bytes, yielding the minimal big-endian encoding
/// used for integer commitments inside announcement messages.
pub fn trim_leading_zeros(bytes: &[u8]) -> (r: Vec<u8>)
    ensures
        r@ == trimmed(bytes@),
{
    let mut start: usize = 0;
    proof {
        assert(bytes@.skip(0) =~= bytes@);
    }
    while start < bytes.len() && bytes[start] == 0
        invariant
            start <= bytes@.len(),
            trimmed(bytes@) == trimmed(bytes@.skip(start as int)),
        decreases bytes@.len() - start,
    {
        proof {
            assert(bytes@.skip(start as int).skip(1) =~= bytes@.skip(start as int + 1));
        }
        start = start + 1;
    }
    let mut r: Vec<u8> = Vec::new();
    let mut i: usize = start;
    while i < bytes.len()
        invariant
            start <= i <= bytes@.len(),
            r@ =~= bytes@.subrange(start as int, i as int),
        decreases bytes@.len() - i,
    {
        r.push(bytes[i]);
        i = i + 1;
    }
    proof {
        assert(bytes@.subrange(start as int, bytes@.len() as int) =~= bytes@.skip(start as int));
        if start < bytes@.len() {
            assert(trimmed(bytes@.skip(start as int)) == bytes@.skip(start as int));
        } else {
            assert(bytes@.skip(start as int).len() == 0);
        }
    }
    r
}

/// The minimal big-endian bytes of a 64-bit value.
pub fn u64_min_be(n: u64) -> (r: Vec<u8>)
    ensures
        r@ == min_be_bytes(n as nat),
{
    let mut le: Vec<u8> = Vec::new();
    let mut m: u64 = n;
    proof {
        assert(le@ + le_bytes(n as nat) =~= le_bytes(n as nat));
    }
    while m > 0
        invariant
            le_bytes(n as nat) == le@ + le_bytes(m as nat),
        decreases m,
    {
        proof {
            assert(le_bytes(m as nat) == seq![(m as nat % 256) as u8] + le_bytes(m as nat / 256));
            assert(le@ + (seq![(m as nat % 256) as u8] + le_bytes(m as nat / 256)) =~= (le@
                + seq![(m as nat % 256) as u8]) + le_bytes(m as nat / 256));
            assert(le@.push((m % 256) as u8) =~= le@ + seq![(m as nat % 256) as u8]);
        }
        le.push((m % 256) as u8);
        m = m / 256;
    }
    proof {
        assert(le@ + le_bytes(0) =~= le@);
        assert(le@ == le_bytes(n as nat));
    }
    let mut r: Vec<u8> = Vec::new();
    let mut i: usize = le.len();
    while i > 0
        invariant
            i <= le@.len(),
            r@.len() == le@.len() - i,
            forall|j: int| 0 <= j < r@.len() ==> r@[j] == le@[le@.len() - 1 - j],
        decreases i,
    {
        i = i - 1;
        r.push(le[i]);
    }
    proof {
        assert(r@ =~= le@.reverse());
    }
    r
}

/// The minimal big-endian bytes of a batch position, as committed inside
/// announcement messages.
pub fn usize_to_bytes(n: usize) -> (r: Vec<u8>)
    ensures
        r@ == min_be_bytes(n as nat),
{
    u64_min_be(n as u64)
}

/// The minimal big-endian bytes of a royalty percentage, as curried into
/// the royalty-transfer puzzle.
pub fn u16_to_bytes(n: u16) -> (r: Vec<u8>)
    ensures
        r@ == min_be_bytes(n as nat),
{
    u64_min_be(n as u64)
}

/// The signed minimal encoding of a 64-bit amount, used wherever an amount
/// stands as an atom of the program representation.
pub fn u64_to_clvm_bytes(n: u64) -> (r: Vec<u8>)
    ensures
        r@ == clvm_int_bytes(n as nat),
{
    let be = u64_min_be(n);
    if be.len() == 0 {
        be
    } else if be[0] >= 0x80 {
        let mut r: Vec<u8> = Vec::new();
        r.push(0u8);
        let mut i: usize = 0;
        while i < be.len()
            invariant
                i <= be@.len(),
                r@ =~= seq![0u8] + be@.subrange(0, i as int),
            decreases be@.len() - i,
        {
            r.push(be[i]);
            i = i + 1;
        }
        proof {
            assert(be@.subrange(0, be@.len() as int) =~= be@);
        }
        r
    } else {
        be
    }
}

/// Byte-string equality, stated over the abstract sequences.
pub fn bytes_eq(a: &[u8], b: &[u8]) -> (r: bool)
    ensures
        r == (a@ == b@),
{
    if a.len() != b.len() {
        proof {
            assert(a@.len() != b@.len());
        }
        return false;
    }
    let mut i: usize = 0;
    while i < a.len()
        invariant
            i <= a@.len(),
            a@.len() == b@.len(),
            forall|j: int| 0 <= j < i ==> a@[j] == b@[j],
        decreases a@.len() - i,
    {
        if a[i] != b[i] {
            return false;
        }
        i = i + 1;
    }
    proof {
        assert(a@ =~= b@);
    }
    true
}


/// Powers of 256.
pub open spec fn pow256(k: nat) -> nat
    decreases k,
{
    if k == 0 {
        1
    } else {
        256 * pow256((k - 1) as nat)
    }
}

/// The value of a little-endian byte string.
pub open spec fn le_val(s: Seq<u8>) -> nat
    decreases s.len(),
{
    if s.len() == 0 {
        0
    } else {
        (s[0] as nat) + 256 * le_val(s.skip(1))
    }
}

/// The value of a big-endian byte string.
pub open spec fn be_val(s: Seq<u8>) -> nat
    decreases s.len(),
{
    if s.len() == 0 {
        0
    } else {
        be_val(s.drop_last()) * 256 + (s.last() as nat)
    }
}

/// Reading the little-endian bytes of a value gives the value back.
pub proof fn lemma_le_val_of_le_bytes(n: nat)
    ensures
        le_val(le_bytes(n)) == n,
    decreases n,
{
    if n > 0 {
        lemma_le_val_of_le_bytes(n / 256);
        assert((seq![(n % 256) as u8] + le_bytes(n / 256)).skip(1) =~= le_bytes(n / 256));
    }
}

/// A reversed byte string reads big-endian as the original reads
/// little-endian.
pub proof fn lemma_be_val_reverse(s: Seq<u8>)
    ensures
        be_val(s.reverse()) == le_val(s),
    decreases s.len(),
{
    if s.len() > 0 {
        lemma_be_val_reverse(s.skip(1));
        assert(s.reverse().drop_last() =~= s.skip(1).reverse());
        assert(s.reverse().last() == s[0]);
    }
}

/// Reading the minimal big-endian bytes of a value gives the value back.
pub proof fn lemma_be_val_min_be(n: nat)
    ensures
        be_val(min_be_bytes(n)) == n,
{
    lemma_le_val_of_le_bytes(n);
    lemma_be_val_reverse(le_bytes(n));
}

/// A value below a power of 256 has at most that many little-endian
/// bytes.
pub proof fn lemma_le_bytes_len(n: nat, k: nat)
    requires
        n < pow256(k),
    ensures
        le_bytes(n).len() <= k,
    decreases k,
{
    if n > 0 {
        if k == 0 {
        } else {
            assert(n / 256 < pow256((k - 1) as nat)) by (nonlinear_arith)
                requires
                    n < pow256(k),
                    pow256(k) == 256 * pow256((k - 1) as nat),
            ;
            lemma_le_bytes_len(n / 256, (k - 1) as nat);
        }
    }
}

/// A value that fits 64 bits has at most eight minimal big-endian bytes.
pub proof fn lemma_min_be_len_u64(n: u64)
    ensures
        min_be_bytes(n as nat).len() <= 8,
{
    reveal_with_fuel(pow256, 9);
    assert(pow256(8) == 0x1_0000_0000_0000_0000);
    lemma_le_bytes_len(n as nat, 8);
}

/// The top little-endian byte of a positive value is nonzero.
pub proof fn lemma_le_bytes_last(n: nat)
    requires
        n > 0,
    ensures
        le_bytes(n).len() > 0,
        le_bytes(n).last() != 0,
    decreases n,
{
    if n / 256 == 0 {
        assert(le_bytes(n / 256) =~= Seq::<u8>::empty());
        assert(le_bytes(n).last() == (n % 256) as u8);
    } else {
        lemma_le_bytes_last(n / 256);
        assert(le_bytes(n).last() == le_bytes(n / 256).last());
    }
}

/// The minimal big-endian bytes of a positive value start with a nonzero
/// byte.
pub proof fn lemma_min_be_first_nonzero(n: nat)
    requires
        n > 0,
    ensures
        min_be_bytes(n).len() > 0,
        min_be_bytes(n)[0] != 0,
{
    lemma_le_bytes_last(n);
    assert(min_be_bytes(n)[0] == le_bytes(n).last());
}

/// Powers of 256 are monotone.
pub proof fn lemma_pow256_le(a: nat, b: nat)
    requires
        a <= b,
    ensures
        pow256(a) <= pow256(b),
    decreases b,
{
    if a < b {
        lemma_pow256_le(a, (b - 1) as nat);
        lemma_pow256_pos((b - 1) as nat);
        assert(pow256(b) == 256 * pow256((b - 1) as nat));
        assert(pow256((b - 1) as nat) <= 256 * pow256((b - 1) as nat)) by (nonlinear_arith)
            requires
                pow256((b - 1) as nat) >= 1,
        ;
    }
}

/// Powers of 256 are positive.
pub proof fn lemma_pow256_pos(k: nat)
    ensures
        pow256(k) >= 1,
    decreases k,
{
    if k > 0 {
        lemma_pow256_pos((k - 1) as nat);
    }
}

/// The value of a big-endian byte string is below the power of 256 at its
/// length.
pub proof fn lemma_be_val_bound(s: Seq<u8>)
    ensures
        be_val(s) < pow256(s.len()),
    decreases s.len(),
{
    if s.len() > 0 {
        lemma_be_val_bound(s.drop_last());
        assert(be_val(s.drop_last()) * 256 + s.last() < pow256(s.len())) by (nonlinear_arith)
            requires
                be_val(s.drop_last()) < pow256((s.len() - 1) as nat),
                s.last() < 256,
                pow256(s.len()) == 256 * pow256((s.len() - 1) as nat),
        ;
    }
}

} // verus!
