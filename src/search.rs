//! The bounded digest search: the first nonce whose decimal text, appended to
//! the seed, hashes to the expected SHA-1 digest.

use vstd::prelude::*;
use vstd::utf8::encode_utf8;
use crate::text::{append_bytes, decimal, push_decimal, same_bytes};

verus! {

/// The SHA-1 digest of a byte string.
pub uninterp spec fn sha1_of(data: Seq<u8>) -> Seq<u8>;

/// Relies on `sha1::Sha1::digest` (through the `Digest` trait): the SHA-1
/// digest of `data`, which is always twenty bytes.
#[verifier::external_body]
fn sha1_digest(data: &[u8]) -> (r: Vec<u8>)
    ensures
        r@ == sha1_of(data@),
        r@.len() == 20,
{
    <sha1::Sha1 as sha1::Digest>::digest(data).to_vec()
}

/// The largest difficulty whose search space, `100 * difficulty + 1` nonces,
/// can be counted in `u64`.
pub const MAX_DIFFICULTY: u64 = (u64::MAX - 1) / 100;

/// The last nonce that a search at difficulty `diff` tries.
pub open spec fn last_nonce(diff: nat) -> nat {
    100 * diff
}

/// The bytes that are hashed for `nonce`: the seed, then the nonce in decimal.
pub open spec fn candidate(seed: Seq<u8>, nonce: nat) -> Seq<u8> {
    seed + decimal(nonce)
}

/// Whether `nonce` answers the job given by `seed` and `expected`.
pub open spec fn solves(seed: Seq<u8>, expected: Seq<u8>, nonce: nat) -> bool {
    sha1_of(candidate(seed, nonce)) == expected
}

/// What a search over nonces `0..=last_nonce(diff)` finds: the least nonce
/// that solves the job, or nothing when none of them does.
pub open spec fn search_result(seed: Seq<u8>, expected: Seq<u8>, diff: nat, r: Option<u64>) -> bool {
    match r {
        Some(k) => {
            &&& k <= last_nonce(diff)
            &&& solves(seed, expected, k as nat)
            &&& forall|j: nat| j < k ==> !#[trigger] solves(seed, expected, j)
        },
        None => forall|j: nat| j <= last_nonce(diff) ==> !#[trigger] solves(seed, expected, j),
    }
}

/// Searches nonces `0, 1, ..., 100 * diff` in order for the first one whose
/// digest `sha1(last_h || decimal(nonce))` equals `exp_h`; `None` when the
/// whole space is exhausted, distinct from a found nonce `0`.
pub fn pow(last_h: String, exp_h: [u8; 20], diff: u64) -> (r: Option<u64>)
    requires
        diff <= MAX_DIFFICULTY,
    ensures
        search_result(encode_utf8(last_h@), exp_h@, diff as nat, r),
{
    let seed: &[u8] = last_h.as_str().as_bytes();
    let expected: &[u8] = exp_h.as_slice();
    let last: u64 = 100 * diff;
    let mut nonce: u64 = 0;
    while nonce <= last
        invariant
            last == last_nonce(diff as nat),
            last < u64::MAX,
            seed@ == encode_utf8(last_h@),
            expected@ == exp_h@,
            forall|j: nat| j < nonce ==> !#[trigger] solves(seed@, expected@, j),
        decreases last + 1 - nonce,
    {
        let mut data: Vec<u8> = Vec::new();
        append_bytes(&mut data, seed);
        push_decimal(&mut data, nonce);
        assert(data@ =~= candidate(seed@, nonce as nat));
        let digest = sha1_digest(data.as_slice());
        if same_bytes(digest.as_slice(), expected) {
            return Some(nonce);
        }
        nonce = nonce + 1;
    }
    None
}

/// A nonce planted in the search space is found: when the expected digest is
/// the digest of `seed` followed by `k`, with `k <= 100 * diff`, the search
/// returns `k`, unless a smaller nonce happens to hash to the same digest.
pub proof fn lemma_planted_nonce_found(seed: Seq<u8>, diff: nat, k: nat, r: Option<u64>)
    requires
        k <= last_nonce(diff),
        forall|j: nat| j < k ==> !#[trigger] solves(seed, sha1_of(candidate(seed, k)), j),
        search_result(seed, sha1_of(candidate(seed, k)), diff, r),
    ensures
        r == Some(k as u64),
{
    let expected = sha1_of(candidate(seed, k));
    assert(solves(seed, expected, k));
    match r {
        Some(found) => {
            if found < k {
                assert(!solves(seed, expected, found as nat));
            } else if found > k {
                assert(!solves(seed, expected, k));
            }
        },
        None => {
            assert(!solves(seed, expected, k));
        },
    }
}

/// An exhausted search is told apart from a found nonce: it returns `None`
/// exactly when no nonce of the space solves the job, and `Some(0)` only when
/// nonce `0` does.
pub proof fn lemma_miss_is_not_nonce_zero(seed: Seq<u8>, expected: Seq<u8>, diff: nat, r: Option<u64>)
    requires
        search_result(seed, expected, diff, r),
    ensures
        r is None <==> forall|j: nat| j <= last_nonce(diff) ==> !#[trigger] solves(seed, expected, j),
        r == Some(0u64) ==> solves(seed, expected, 0),
{
    if let Some(k) = r {
        assert(k <= last_nonce(diff) && solves(seed, expected, k as nat));
    }
}

} // verus!
