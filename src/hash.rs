//! The commitment digest: a 32-byte XOR-fold checksum with one round of
//! diffusion, and the 40-byte preimage that binds an outcome to a salt.
//!
//! This is a checksum, not a cryptographic hash.
use vstd::prelude::*;

verus! {

/// Input bytes past this many are ignored by the digest.
pub const MAX_HASH_INPUT: usize = 10_000;

/// Byte `k` of the little-endian encoding of `x` (`k` in `0..8`).
pub open spec fn le_byte(x: u64, k: int) -> u8 {
    ((x >> ((8 * k) as u64)) & 0xff) as u8
}

/// The XOR of every byte of `d[..n]` whose index is `p` modulo 32.
pub open spec fn xor_fold(d: Seq<u8>, p: int, n: nat) -> u8
    decreases n,
{
    if n == 0 {
        0
    } else if (n - 1) % 32 == p {
        xor_fold(d, p, (n - 1) as nat) ^ d[n - 1]
    } else {
        xor_fold(d, p, (n - 1) as nat)
    }
}

/// Number of input bytes that the digest folds in.
pub open spec fn folded_len(d: Seq<u8>) -> nat {
    if d.len() < MAX_HASH_INPUT {
        d.len()
    } else {
        MAX_HASH_INPUT as nat
    }
}

/// The 32 slots before diffusion: the folded length in the first four bytes,
/// every folded byte XORed into slot `index mod 32`.
pub open spec fn fold_slots(d: Seq<u8>) -> Seq<u8> {
    Seq::new(
        32,
        |p: int|
            (if p < 4 {
                le_byte(folded_len(d) as u64, p)
            } else {
                0u8
            }) ^ xor_fold(d, p, folded_len(d)),
    )
}

/// The first `k` diffusion steps: step `i` adds slot `(i + 7) mod 32` into
/// slot `i`, in place and with wrapping.
pub open spec fn diffuse(s: Seq<u8>, k: nat) -> Seq<u8>
    decreases k,
{
    if k == 0 {
        s
    } else {
        let t = diffuse(s, (k - 1) as nat);
        let i = k - 1;
        t.update(i, t[i].wrapping_add(t[(i + 7) % 32]))
    }
}

/// The digest of `d`: all zeros for the empty input.
pub open spec fn digest(d: Seq<u8>) -> Seq<u8> {
    if d.len() == 0 {
        Seq::new(32, |i: int| 0u8)
    } else {
        diffuse(fold_slots(d), 32)
    }
}

/// Computes the digest of `data`.
pub fn simple_hash(data: &[u8]) -> (r: [u8; 32])
    ensures
        r@ == digest(data@),
{
    let mut result = [0u8; 32];
    if data.len() == 0 {
        assert(result@ =~= digest(data@));
        return result;
    }
    let max_len: usize = if data.len() < MAX_HASH_INPUT {
        data.len()
    } else {
        MAX_HASH_INPUT
    };
    let len = max_len as u64;
    proof {
        assert((len & 0xff) <= 0xff && ((len >> 8u64) & 0xff) <= 0xff && ((len >> 16u64) & 0xff)
            <= 0xff && ((len >> 24u64) & 0xff) <= 0xff) by (bit_vector);
    }
    result[0] = (len & 0xff) as u8;
    result[1] = ((len >> 8) & 0xff) as u8;
    result[2] = ((len >> 16) & 0xff) as u8;
    result[3] = ((len >> 24) & 0xff) as u8;
    proof {
        assert forall|p: int| 0 <= p < 32 implies #[trigger] result@[p] == (if p < 4 {
            le_byte(len, p)
        } else {
            0u8
        }) ^ xor_fold(data@, p, 0) by {
            let v = result@[p];
            assert(v ^ 0u8 == v) by (bit_vector);
            assert(len >> 0u64 == len) by (bit_vector);
        }
    }
    let mut i: usize = 0;
    while i < max_len
        invariant
            max_len == folded_len(data@),
            max_len <= data@.len(),
            i <= max_len,
            len == folded_len(data@),
            result@.len() == 32,
            forall|p: int|
                0 <= p < 32 ==> #[trigger] result@[p] == (if p < 4 {
                    le_byte(len, p)
                } else {
                    0u8
                }) ^ xor_fold(data@, p, i as nat),
        decreases max_len - i,
    {
        let pos = i % 32;
        let old_byte = result[pos];
        let b = data[i];
        result[pos] = old_byte ^ b;
        proof {
            assert forall|p: int| 0 <= p < 32 implies #[trigger] result@[p] == (if p < 4 {
                le_byte(len, p)
            } else {
                0u8
            }) ^ xor_fold(data@, p, (i + 1) as nat) by {
                let lb: u8 = if p < 4 {
                    le_byte(len, p)
                } else {
                    0u8
                };
                let x = xor_fold(data@, p, i as nat);
                if p == pos as int {
                    assert((lb ^ x) ^ b == lb ^ (x ^ b)) by (bit_vector);
                }
            }
        }
        i = i + 1;
    }
    assert(result@ =~= fold_slots(data@));
    let ghost slots = result@;
    let mut j: usize = 0;
    while j < 32
        invariant
            j <= 32,
            result@ == diffuse(slots, j as nat),
            result@.len() == 32,
        decreases 32 - j,
    {
        let a = result[j];
        let b = result[(j + 7) % 32];
        result[j] = a.wrapping_add(b);
        j = j + 1;
    }
    result
}

/// The commitment preimage: the outcome index as eight little-endian bytes,
/// followed by the 32-byte salt.
pub open spec fn preimage(outcome: u64, salt: Seq<u8>) -> Seq<u8> {
    Seq::new(8, |k: int| le_byte(outcome, k)) + salt
}

/// Whether `hash` is the digest of the preimage of `outcome` and `salt`.
pub open spec fn opens(hash: Seq<u8>, outcome: u64, salt: Seq<u8>) -> bool {
    hash == digest(preimage(outcome, salt))
}

/// Builds the 40-byte preimage that a commitment digest is taken over.
pub fn commitment_preimage(outcome_index: usize, salt: &[u8; 32]) -> (r: [u8; 40])
    ensures
        r@ == preimage(outcome_index as u64, salt@),
{
    let x = outcome_index as u64;
    let mut data = [0u8; 40];
    let mut k: usize = 0;
    while k < 8
        invariant
            k <= 8,
            data@.len() == 40,
            forall|j: int| 0 <= j < k ==> #[trigger] data@[j] == le_byte(x, j),
        decreases 8 - k,
    {
        let sh = (8 * k) as u64;
        proof {
            assert((x >> sh) & 0xff <= 0xff) by (bit_vector);
        }
        data[k] = ((x >> sh) & 0xff) as u8;
        k = k + 1;
    }
    let mut m: usize = 0;
    while m < 32
        invariant
            m <= 32,
            data@.len() == 40,
            forall|j: int| 0 <= j < 8 ==> #[trigger] data@[j] == le_byte(x, j),
            forall|j: int| 8 <= j < 8 + m ==> #[trigger] data@[j] == salt@[j - 8],
        decreases 32 - m,
    {
        data[8 + m] = salt[m];
        m = m + 1;
    }
    assert(data@ =~= preimage(x, salt@));
    data
}

/// The commitment digest of `outcome_index` sealed with `salt`.
pub fn commitment_hash(outcome_index: usize, salt: &[u8; 32]) -> (r: [u8; 32])
    ensures
        r@ == digest(preimage(outcome_index as u64, salt@)),
{
    let data = commitment_preimage(outcome_index, salt);
    simple_hash(&data)
}

/// Whether two digests are equal, byte for byte.
pub fn same_digest(a: &[u8; 32], b: &[u8; 32]) -> (r: bool)
    ensures
        r == (a@ == b@),
{
    let mut i: usize = 0;
    while i < 32
        invariant
            i <= 32,
            a@.len() == 32,
            b@.len() == 32,
            forall|j: int| 0 <= j < i ==> a@[j] == b@[j],
        decreases 32 - i,
    {
        if a[i] != b[i] {
            return false;
        }
        i = i + 1;
    }
    assert(a@ =~= b@);
    true
}

/// Whether `commitment_hash` opens to `outcome_index` under `salt`.
pub fn verify_commitment(commitment_hash: &[u8; 32], outcome_index: usize, salt: &[u8; 32]) -> (r:
    bool)
    ensures
        r == opens(commitment_hash@, outcome_index as u64, salt@),
{
    let computed = self::commitment_hash(outcome_index, salt);
    same_digest(&computed, commitment_hash)
}

/// The digest is a function of its input, always 32 bytes long, and all
/// zeros on the empty input.
pub proof fn lemma_digest_deterministic(d1: Seq<u8>, d2: Seq<u8>)
    requires
        d1 == d2,
    ensures
        digest(d1) == digest(d2),
        digest(d1).len() == 32,
        digest(Seq::<u8>::empty()) == Seq::new(32, |i: int| 0u8),
{
    if d1.len() > 0 {
        lemma_diffuse_len(fold_slots(d1), 32);
    }
}

proof fn lemma_diffuse_len(s: Seq<u8>, k: nat)
    requires
        s.len() == 32,
        k <= 32,
    ensures
        diffuse(s, k).len() == 32,
    decreases k,
{
    if k > 0 {
        lemma_diffuse_len(s, (k - 1) as nat);
    }
}

/// After `k` steps, slots from `k` on still hold their input value and each
/// slot below `k` holds what its own step wrote.
proof fn lemma_diffuse_slots(s: Seq<u8>, k: nat)
    requires
        s.len() == 32,
        k <= 32,
    ensures
        diffuse(s, k).len() == 32,
        forall|i: int| k <= i < 32 ==> #[trigger] diffuse(s, k)[i] == s[i],
        forall|i: int| 0 <= i < k ==> #[trigger] diffuse(s, k)[i] == diffuse(s, (i + 1) as nat)[i],
    decreases k,
{
    lemma_diffuse_len(s, k);
    if k > 0 {
        lemma_diffuse_slots(s, (k - 1) as nat);
    }
}

/// Diffusion loses nothing: equal outputs come from equal inputs.
proof fn lemma_diffuse_injective(s1: Seq<u8>, s2: Seq<u8>)
    requires
        s1.len() == 32,
        s2.len() == 32,
        diffuse(s1, 32) == diffuse(s2, 32),
    ensures
        s1 == s2,
{
    lemma_diffuse_slots(s1, 32);
    lemma_diffuse_slots(s2, 32);
    lemma_diffuse_agree_from(s1, s2, 0);
    assert(s1 =~= s2);
}

proof fn lemma_diffuse_step(s: Seq<u8>, i: int)
    requires
        s.len() == 32,
        0 <= i < 32,
    ensures
        diffuse(s, (i + 1) as nat)[i] == s[i].wrapping_add(
            if i < 25 {
                s[i + 7]
            } else {
                diffuse(s, 32)[i - 25]
            },
        ),
{
    lemma_diffuse_slots(s, i as nat);
    lemma_diffuse_slots(s, 32);
    if i >= 25 {
        lemma_diffuse_slots(s, (i - 24) as nat);
    }
}

proof fn lemma_diffuse_agree_from(s1: Seq<u8>, s2: Seq<u8>, i: int)
    requires
        s1.len() == 32,
        s2.len() == 32,
        0 <= i <= 32,
        diffuse(s1, 32) == diffuse(s2, 32),
    ensures
        forall|j: int| i <= j < 32 ==> s1[j] == s2[j],
    decreases 32 - i,
{
    if i < 32 {
        lemma_diffuse_agree_from(s1, s2, i + 1);
        lemma_diffuse_slots(s1, 32);
        lemma_diffuse_slots(s2, 32);
        lemma_diffuse_step(s1, i);
        lemma_diffuse_step(s2, i);
        let x1 = if i < 25 {
            s1[i + 7]
        } else {
            diffuse(s1, 32)[i - 25]
        };
        let x2 = if i < 25 {
            s2[i + 7]
        } else {
            diffuse(s2, 32)[i - 25]
        };
        assert(x1 == x2);
        assert(diffuse(s1, 32)[i] == diffuse(s1, (i + 1) as nat)[i]);
        assert(diffuse(s2, 32)[i] == diffuse(s2, (i + 1) as nat)[i]);
        assert(s1[i].wrapping_add(x1) == s2[i].wrapping_add(x1));
    }
}

/// Folding up to index 64 visits slot `p` at most twice: at `p` and `p + 32`.
proof fn lemma_xor_fold_short(d: Seq<u8>, p: int, n: nat)
    requires
        0 <= p < 32,
        n <= 64,
        n <= d.len(),
    ensures
        xor_fold(d, p, n) == (if p < n {
            d[p]
        } else {
            0u8
        }) ^ (if p + 32 < n {
            d[p + 32]
        } else {
            0u8
        }),
    decreases n,
{
    assert(0u8 ^ 0u8 == 0u8) by (bit_vector);
    if n > 0 {
        lemma_xor_fold_short(d, p, (n - 1) as nat);
        let a: u8 = if p < n - 1 {
            d[p]
        } else {
            0u8
        };
        let b: u8 = if p + 32 < n - 1 {
            d[p + 32]
        } else {
            0u8
        };
        let c = d[n - 1];
        let q = n - 1;
        assert(q % 32 == p <==> (q == p || q == p + 32));
        assert((a ^ b) ^ c == a ^ (b ^ c)) by (bit_vector);
        assert(0u8 ^ c == c) by (bit_vector);
        assert(c ^ 0u8 == c) by (bit_vector);
        assert(0u8 ^ 0u8 == 0u8) by (bit_vector);
        assert(a ^ 0u8 == a) by (bit_vector);
        assert(0u8 ^ a == a) by (bit_vector);
    }
}

/// The slots of a 40-byte preimage before diffusion.
proof fn lemma_preimage_slots(o: u64, salt: Seq<u8>, p: int)
    requires
        salt.len() == 32,
        0 <= p < 32,
    ensures
        fold_slots(preimage(o, salt))[p] == (if p < 4 {
            le_byte(40, p)
        } else {
            0u8
        }) ^ ((if p < 8 {
            le_byte(o, p)
        } else {
            salt[p - 8]
        }) ^ (if p < 8 {
            salt[p + 24]
        } else {
            0u8
        })),
{
    let d = preimage(o, salt);
    assert(d.len() == 40);
    assert(folded_len(d) == 40);
    lemma_xor_fold_short(d, p, 40);
    assert(d[p] == (if p < 8 {
        le_byte(o, p)
    } else {
        salt[p - 8]
    }));
    if p < 8 {
        assert(d[p + 32] == salt[p + 24]);
    }
}

proof fn lemma_le_bytes_injective(x: u64, y: u64)
    requires
        forall|k: int| 0 <= k < 8 ==> #[trigger] le_byte(x, k) == le_byte(y, k),
    ensures
        x == y,
{
    assert(le_byte(x, 0) == le_byte(y, 0));
    assert(le_byte(x, 1) == le_byte(y, 1));
    assert(le_byte(x, 2) == le_byte(y, 2));
    assert(le_byte(x, 3) == le_byte(y, 3));
    assert(le_byte(x, 4) == le_byte(y, 4));
    assert(le_byte(x, 5) == le_byte(y, 5));
    assert(le_byte(x, 6) == le_byte(y, 6));
    assert(le_byte(x, 7) == le_byte(y, 7));
    assert((((x >> 0u64) & 0xff) as u8 == ((y >> 0u64) & 0xff) as u8 && ((x >> 8u64) & 0xff) as u8
        == ((y >> 8u64) & 0xff) as u8 && ((x >> 16u64) & 0xff) as u8 == ((y >> 16u64) & 0xff) as u8
        && ((x >> 24u64) & 0xff) as u8 == ((y >> 24u64) & 0xff) as u8 && ((x >> 32u64) & 0xff) as u8
        == ((y >> 32u64) & 0xff) as u8 && ((x >> 40u64) & 0xff) as u8 == ((y >> 40u64) & 0xff) as u8
        && ((x >> 48u64) & 0xff) as u8 == ((y >> 48u64) & 0xff) as u8 && ((x >> 56u64) & 0xff) as u8
        == ((y >> 56u64) & 0xff) as u8) ==> x == y) by (bit_vector);
}

/// A commitment opens to the outcome and salt it was made from; changing
/// only the outcome, or only the salt, makes it fail to open.
pub proof fn lemma_commitment_round_trip(outcome: u64, salt: Seq<u8>, other_outcome: u64, other_salt: Seq<u8>)
    requires
        salt.len() == 32,
        other_salt.len() == 32,
    ensures
        opens(digest(preimage(outcome, salt)), outcome, salt),
        outcome != other_outcome ==> !opens(digest(preimage(outcome, salt)), other_outcome, salt),
        salt != other_salt ==> !opens(digest(preimage(outcome, salt)), outcome, other_salt),
{
    let f1 = fold_slots(preimage(outcome, salt));
    if outcome != other_outcome && opens(digest(preimage(outcome, salt)), other_outcome, salt) {
        let f2 = fold_slots(preimage(other_outcome, salt));
        lemma_diffuse_injective(f1, f2);
        assert forall|k: int| 0 <= k < 8 implies #[trigger] le_byte(outcome, k) == le_byte(
            other_outcome,
            k,
        ) by {
            lemma_preimage_slots(outcome, salt, k);
            lemma_preimage_slots(other_outcome, salt, k);
            let l = if k < 4 {
                le_byte(40, k)
            } else {
                0u8
            };
            let a = le_byte(outcome, k);
            let b = le_byte(other_outcome, k);
            let c = salt[k + 24];
            assert(l ^ (a ^ c) == l ^ (b ^ c) ==> a == b) by (bit_vector);
        }
        lemma_le_bytes_injective(outcome, other_outcome);
    }
    if salt != other_salt && opens(digest(preimage(outcome, salt)), outcome, other_salt) {
        let f2 = fold_slots(preimage(outcome, other_salt));
        lemma_diffuse_injective(f1, f2);
        assert forall|m: int| 0 <= m < 32 implies salt[m] == other_salt[m] by {
            let p = if m < 24 {
                m + 8
            } else {
                m - 24
            };
            lemma_preimage_slots(outcome, salt, p);
            lemma_preimage_slots(outcome, other_salt, p);
            let l = if p < 4 {
                le_byte(40, p)
            } else {
                0u8
            };
            let a = salt[m];
            let b = other_salt[m];
            if m < 24 {
                assert(l ^ (a ^ 0u8) == l ^ (b ^ 0u8) ==> a == b) by (bit_vector);
            } else {
                let c = le_byte(outcome, p);
                assert(l ^ (c ^ a) == l ^ (c ^ b) ==> a == b) by (bit_vector);
            }
        }
        assert(salt =~= other_salt);
    }
}

} // verus!
