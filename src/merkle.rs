//! Merkle-proof verification for snapshot claims.
//!
//! A claim leaf is the Keccak-256 hash of the holder's address followed by
//! the little-endian bytes of the recorded key amount. A proof is folded
//! bottom-up, each step hashing the lexicographically smaller of the running
//! hash and the sibling first.
use vstd::prelude::*;

verus! {

/// The Keccak-256 digest of `data`.
pub uninterp spec fn keccak256(data: Seq<u8>) -> Seq<u8>;

/// Relies on `anchor_lang::solana_program::keccak::hashv`: the Keccak-256
/// digest of the concatenation of the given slices.
#[verifier::external_body]
fn keccak_hashv(first: &[u8], second: &[u8]) -> (r: [u8; 32])
    ensures
        r@ == keccak256(first@ + second@),
{
    anchor_lang::solana_program::keccak::hashv(&[first, second]).0
}

/// Lexicographic `a <= b` on byte strings, comparing from index `i` on.
pub open spec fn lex_le_from(a: Seq<u8>, b: Seq<u8>, i: int) -> bool
    decreases a.len() - i,
{
    if i < 0 || i >= a.len() || i >= b.len() {
        a.len() <= b.len()
    } else if a[i] != b[i] {
        a[i] < b[i]
    } else {
        lex_le_from(a, b, i + 1)
    }
}

/// Lexicographic `a <= b` on byte strings.
pub open spec fn lex_le(a: Seq<u8>, b: Seq<u8>) -> bool {
    lex_le_from(a, b, 0)
}

/// One folding step: hash the smaller of the two first.
pub open spec fn hash_sorted_pair(acc: Seq<u8>, sibling: Seq<u8>) -> Seq<u8> {
    if lex_le(acc, sibling) {
        keccak256(acc + sibling)
    } else {
        keccak256(sibling + acc)
    }
}

/// The root reached by folding `proof` onto `leaf`.
pub open spec fn merkle_fold(leaf: Seq<u8>, proof: Seq<[u8; 32]>) -> Seq<u8>
    decreases proof.len(),
{
    if proof.len() == 0 {
        leaf
    } else {
        hash_sorted_pair(merkle_fold(leaf, proof.drop_last()), proof.last()@)
    }
}

/// The `n` little-endian bytes of `x`.
pub open spec fn le_bytes(x: nat, n: nat) -> Seq<u8>
    decreases n,
{
    if n == 0 {
        seq![]
    } else {
        seq![(x % 256) as u8] + le_bytes(x / 256, (n - 1) as nat)
    }
}

/// The Merkle leaf committing to `owner` holding `amount` keys.
pub open spec fn claim_leaf_of(owner: Seq<u8>, amount: u64) -> Seq<u8> {
    keccak256(owner + le_bytes(amount as nat, 8))
}

/// Lexicographic comparison of two hashes.
pub fn hash_le(a: &[u8; 32], b: &[u8; 32]) -> (r: bool)
    ensures
        r == lex_le(a@, b@),
{
    let mut i: usize = 0;
    while i < 32
        invariant
            i <= 32,
            a@.len() == 32,
            b@.len() == 32,
            lex_le_from(a@, b@, 0) == lex_le_from(a@, b@, i as int),
        decreases 32 - i,
    {
        if a[i] != b[i] {
            return a[i] < b[i];
        }
        i = i + 1;
    }
    true
}

/// Equality of two 32-byte values (hashes or addresses).
pub fn bytes32_eq(a: &[u8; 32], b: &[u8; 32]) -> (r: bool)
    ensures
        r == (a@ == b@),
{
    let mut i: usize = 0;
    while i < 32
        invariant
            i <= 32,
            a@.len() == 32,
            b@.len() == 32,
            forall|j: int| 0 <= j < i ==> a@[j] == b@[j],
        decreases 32 - i,
    {
        if a[i] != b[i] {
            return false;
        }
        i = i + 1;
    }
    assert(a@ =~= b@);
    true
}

/// The eight little-endian bytes of `x`.
pub fn u64_le_bytes(x: u64) -> (r: Vec<u8>)
    ensures
        r@ == le_bytes(x as nat, 8),
{
    let mut out: Vec<u8> = Vec::new();
    let mut rest: u64 = x;
    let mut i: usize = 0;
    while i < 8
        invariant
            i <= 8,
            out@ + le_bytes(rest as nat, (8 - i) as nat) == le_bytes(x as nat, 8),
        decreases 8 - i,
    {
        let ghost before = out@;
        let byte = (rest % 256) as u8;
        assert(le_bytes(rest as nat, (8 - i) as nat) == seq![byte] + le_bytes(
            (rest / 256) as nat,
            (8 - i - 1) as nat,
        ));
        out.push(byte);
        assert(out@ == before + seq![byte]);
        assert(before + (seq![byte] + le_bytes((rest / 256) as nat, (8 - i - 1) as nat)) =~= out@
            + le_bytes((rest / 256) as nat, (8 - i - 1) as nat));
        rest = rest / 256;
        i = i + 1;
    }
    assert(le_bytes(rest as nat, 0) =~= seq![]);
    assert(out@ + seq![] =~= out@);
    out
}

/// The Merkle leaf for `owner` holding `amount` keys.
pub fn claim_leaf(owner: &[u8; 32], amount: u64) -> (r: [u8; 32])
    ensures
        r@ == claim_leaf_of(owner@, amount),
{
    let amount_bytes = u64_le_bytes(amount);
    keccak_hashv(owner.as_slice(), amount_bytes.as_slice())
}

/// Folds `proof` onto `leaf`, hashing the smaller of each pair first, and
/// compares the result with `root`.
pub fn verify_merkle_proof(proof: &[[u8; 32]], root: &[u8; 32], leaf: &[u8; 32]) -> (r: bool)
    ensures
        r == (merkle_fold(leaf@, proof@) == root@),
{
    let mut computed_hash: [u8; 32] = *leaf;
    let mut i: usize = 0;
    while i < proof.len()
        invariant
            i <= proof@.len(),
            computed_hash@ == merkle_fold(leaf@, proof@.subrange(0, i as int)),
        decreases proof@.len() - i,
    {
        let proof_element = &proof[i];
        assert(proof@.subrange(0, i + 1).drop_last() =~= proof@.subrange(0, i as int));
        assert(proof@.subrange(0, i + 1).last() == proof@[i as int]);
        computed_hash = if hash_le(&computed_hash, proof_element) {
            keccak_hashv(computed_hash.as_slice(), proof_element.as_slice())
        } else {
            keccak_hashv(proof_element.as_slice(), computed_hash.as_slice())
        };
        i = i + 1;
    }
    assert(proof@.subrange(0, proof@.len() as int) =~= proof@);
    bytes32_eq(&computed_hash, root)
}

} // verus!
