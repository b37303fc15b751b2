//! Identifiers derived from an account and a byte payload: the SCALE encoding
//! of the pair, encoded once more as a byte vector, hashed with BLAKE2b-128.

use vstd::prelude::*;
use parity_scale_codec::Encode;

verus! {

broadcast use vstd::array::group_array_axioms;

/// The `n` least significant bytes of `v`, least significant first.
pub open spec fn le_bytes(v: nat, n: nat) -> Seq<u8>
    decreases n,
{
    if n == 0 {
        Seq::empty()
    } else {
        seq![(v % 256) as u8] + le_bytes(v / 256, (n - 1) as nat)
    }
}

/// The SCALE compact encoding of a length that fits in a `u32`.
pub open spec fn compact_len_prefix(n: nat) -> Seq<u8> {
    if n < 0x40 {
        seq![(n * 4) as u8]
    } else if n < 0x4000 {
        le_bytes(n * 4 + 1, 2)
    } else if n < 0x4000_0000 {
        le_bytes(n * 4 + 2, 4)
    } else {
        seq![3u8] + le_bytes(n, 4)
    }
}

/// The SCALE encoding of a byte vector: its compact length, then its bytes.
pub open spec fn scale_bytes(b: Seq<u8>) -> Seq<u8> {
    compact_len_prefix(b.len()) + b
}

/// The SCALE encoding of the pair `(account, bytes)`: the account as eight
/// little-endian bytes, then the encoded byte vector.
pub open spec fn scale_account_and_bytes(account: u64, b: Seq<u8>) -> Seq<u8> {
    le_bytes(account as nat, 8) + scale_bytes(b)
}

/// The BLAKE2b digest with a 16-byte output of `data`.
pub uninterp spec fn blake2_128_digest(data: Seq<u8>) -> Seq<u8>;

/// The identifier of the payload `(account, bytes)`: the digest of its
/// encoding, itself encoded as a byte vector.
pub open spec fn spec_payload_id(account: u64, b: Seq<u8>) -> Seq<u8> {
    blake2_128_digest(scale_bytes(scale_account_and_bytes(account, b)))
}

/// The identifier of the payload `(account, bytes)` as a 16-byte array.
pub open spec fn spec_payload_key(account: u64, b: Seq<u8>) -> [u8; 16] {
    choose|k: [u8; 16]| k@ == spec_payload_id(account, b)
}

/// Calls `Encode::encode` of `parity_scale_codec` on the pair
/// `(account, bytes)`. The contract claims that the result is the account's
/// eight little-endian bytes, then the compact length of `bytes`, then
/// `bytes`; the crate panics on a slice longer than `u32::MAX`, which
/// `requires` leaves out.
#[verifier::external_body]
fn encode_account_and_bytes(account: u64, bytes: &[u8]) -> (res: Vec<u8>)
    requires
        bytes@.len() <= u32::MAX,
    ensures
        res@ == scale_account_and_bytes(account, bytes@),
{
    (account, bytes).encode()
}

/// Calls `Encode::encode` of `parity_scale_codec` on a byte slice. The
/// contract claims that the result is the compact length of `bytes`, then
/// `bytes`; the crate panics on a slice longer than `u32::MAX`, which
/// `requires` leaves out.
#[verifier::external_body]
fn encode_bytes(bytes: &[u8]) -> (res: Vec<u8>)
    requires
        bytes@.len() <= u32::MAX,
    ensures
        res@ == scale_bytes(bytes@),
{
    bytes.encode()
}

/// Calls `sp_crypto_hashing::blake2_128`. The contract names its result
/// `blake2_128_digest` of the input and claims nothing more of it.
#[verifier::external_body]
fn blake2_128(data: &[u8]) -> (res: [u8; 16])
    ensures
        res@ == blake2_128_digest(data@),
{
    sp_crypto_hashing::blake2_128(data)
}

proof fn lemma_le_bytes_len(v: nat, n: nat)
    ensures
        le_bytes(v, n).len() == n,
    decreases n,
{
    if n > 0 {
        lemma_le_bytes_len(v / 256, (n - 1) as nat);
    }
}

proof fn lemma_compact_len_prefix_len(n: nat)
    ensures
        compact_len_prefix(n).len() <= 5,
{
    lemma_le_bytes_len(n * 4 + 1, 2);
    lemma_le_bytes_len(n * 4 + 2, 4);
    lemma_le_bytes_len(n, 4);
}

/// The identifier of the payload `(account, bytes)`, as the runtime hashes
/// it: BLAKE2b-128 of the SCALE encoding of the encoded pair.
pub fn payload_id(account: u64, bytes: &[u8]) -> (id: [u8; 16])
    requires
        bytes@.len() <= u32::MAX - 13,
    ensures
        id@ == spec_payload_id(account, bytes@),
        id == spec_payload_key(account, bytes@),
{
    let encoded = encode_account_and_bytes(account, bytes);
    proof {
        lemma_le_bytes_len(account as nat, 8);
        lemma_compact_len_prefix_len(bytes@.len());
    }
    let hashed_input = encode_bytes(encoded.as_slice());
    let id = blake2_128(hashed_input.as_slice());
    proof {
        let k = spec_payload_key(account, bytes@);
        assert(k@ == id@);
        assert(k =~= id);
    }
    id
}

/// A copy of a byte vector.
pub fn copy_bytes(v: &Vec<u8>) -> (res: Vec<u8>)
    ensures
        res@ == v@,
{
    let mut res: Vec<u8> = Vec::new();
    let mut i: usize = 0;
    while i < v.len()
        invariant
            i <= v@.len(),
            res@ == v@.take(i as int),
        decreases v@.len() - i,
    {
        res.push(v[i]);
        i = i + 1;
        proof {
            assert(res@ =~= v@.take(i as int));
        }
    }
    proof {
        assert(v@.take(v@.len() as int) =~= v@);
    }
    res
}

} // verus!
