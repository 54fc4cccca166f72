//! Freelancer matching: the per-score seeds and the hash value that each
//! deterministic score is drawn from.
use vstd::prelude::*;
use sha2::Digest;

verus! {

/// The little-endian bytes of a 64-bit value.
pub open spec fn le_bytes(x: u64) -> Seq<u8> {
    Seq::new(8, |k: int| ((x as int / pow256(k)) % 256) as u8)
}

/// 256 to the power `k`.
pub open spec fn pow256(k: int) -> int
    decreases k,
{
    if k <= 0 { 1 } else { 256 * pow256(k - 1) }
}

/// The seed of one score of a freelancer for a generation: the user id's
/// little-endian two's-complement bytes, the score's label, and the
/// generation id's bytes.
pub open spec fn score_seed(user_id: i64, label: Seq<u8>, generation: Seq<u8>) -> Seq<u8> {
    le_bytes(user_id as u64) + label + generation
}

proof fn lemma_pow256_positive(k: int)
    ensures
        pow256(k) >= 1,
    decreases k,
{
    if k > 0 {
        lemma_pow256_positive(k - 1);
    }
}

/// The seed of one score (see `score_seed`).
pub fn build_seed(user_id: i64, label: &[u8], gen_bytes: &[u8; 16]) -> (r: Vec<u8>)
    ensures
        r@ == score_seed(user_id, label@, gen_bytes@),
{
    let x: u64 = user_id as u64;
    let mut seed: Vec<u8> = Vec::new();
    let mut v: u64 = x;
    let mut k: usize = 0;
    while k < 8
        invariant
            k <= 8,
            seed.len() == k,
            v as int == x as int / pow256(k as int),
            forall|j: int| 0 <= j < k ==> seed@[j] == ((x as int / pow256(j)) % 256) as u8,
        decreases 8 - k,
    {
        proof {
            lemma_pow256_positive(k as int);
            assert(pow256(k + 1) == 256 * pow256(k as int));
            vstd::arithmetic::div_mod::lemma_div_denominator(x as int, pow256(k as int), 256);
        }
        seed.push((v % 256) as u8);
        v = v / 256;
        k = k + 1;
    }
    assert(seed@ =~= le_bytes(x));
    let mut i: usize = 0;
    let ghost base = seed@;
    while i < label.len()
        invariant
            i <= label.len(),
            seed@ =~= base + label@.take(i as int),
        decreases label.len() - i,
    {
        seed.push(label[i]);
        i = i + 1;
    }
    assert(label@.take(label.len() as int) =~= label@);
    let ghost mid = seed@;
    let mut j: usize = 0;
    while j < 16
        invariant
            j <= 16,
            seed@ =~= mid + gen_bytes@.take(j as int),
        decreases 16 - j,
    {
        seed.push(gen_bytes[j]);
        j = j + 1;
    }
    assert(gen_bytes@.take(16) =~= gen_bytes@);
    seed
}

/// What SHA-256 gives for some bytes.
pub uninterp spec fn sha256_digest(data: Seq<u8>) -> Seq<u8>;

/// Calls `sha2::Sha256::digest`; the digest depends on the bytes alone and
/// is named `sha256_digest`; SHA-256 digests are 32 bytes long.
#[verifier::external_body]
fn sha256(data: &[u8]) -> (r: Vec<u8>)
    ensures
        r@ == sha256_digest(data@),
        r@.len() == 32,
{
    sha2::Sha256::digest(data).to_vec()
}

/// The big-endian value of the first eight bytes.
pub open spec fn be_prefix(b: Seq<u8>) -> int
    decreases b.len(),
{
    if b.len() == 0 {
        0
    } else {
        be_prefix(b.drop_last()) * 256 + b.last() as int
    }
}

/// The value a score is drawn from: the first eight bytes of the seed's
/// SHA-256 digest, read big-endian.
pub fn seed_hash_value(seed: &[u8]) -> (r: u64)
    ensures
        r as int == be_prefix(sha256_digest(seed@).take(8)),
{
    let digest = sha256(seed);
    let mut value: u64 = 0;
    let mut k: usize = 0;
    assert(digest@.take(0) =~= Seq::<u8>::empty());
    while k < 8
        invariant
            k <= 8,
            digest@.len() == 32,
            value as int == be_prefix(digest@.take(k as int)),
            value as int <= pow256(k as int) - 1,
        decreases 8 - k,
    {
        assert(digest@.take(k + 1).drop_last() =~= digest@.take(k as int));
        proof {
            assert(pow256(k + 1) == 256 * pow256(k as int));
            assert(pow256(8) == 0x1_0000_0000_0000_0000int) by {
                reveal_with_fuel(pow256, 9);
            }
            lemma_pow256_monotone(k + 1, 8);
            assert(value * 256 + 255 <= pow256(k + 1) - 1) by (nonlinear_arith)
                requires
                    value <= pow256(k as int) - 1,
                    pow256(k + 1) == 256 * pow256(k as int),
            ;
        }
        value = value * 256 + digest[k] as u64;
        k = k + 1;
    }
    value
}

proof fn lemma_pow256_monotone(a: int, b: int)
    requires
        0 <= a <= b,
    ensures
        pow256(a) <= pow256(b),
    decreases b,
{
    if a < b {
        lemma_pow256_monotone(a, b - 1);
        lemma_pow256_positive(b - 1);
    }
}

} // verus!
