use vstd::prelude::*;
use vstd::utf8::encode_utf8;

use crate::codec::{push_bytes, push_u64, u64_bytes};

verus! {

/// Length in bytes of the hash of a viewing key.
pub const VIEWING_KEY_SIZE: usize = 32;

/// SHA-256 digest of a byte string.
pub uninterp spec fn sha256_of(data: Seq<u8>) -> Seq<u8>;

/// First 32 bytes drawn from a generator seeded with `seed` and `entropy`.
pub uninterp spec fn prng_bytes_of(seed: Seq<u8>, entropy: Seq<u8>) -> Seq<u8>;

/// Standard base64 text of a byte string.
pub uninterp spec fn base64_of(data: Seq<u8>) -> Seq<char>;

/// Relies on secret_toolkit::crypto::sha_256: the SHA-256 digest of `data`,
/// 32 bytes long.
#[verifier::external_body]
pub(crate) fn sha_256(data: &[u8]) -> (r: Vec<u8>)
    ensures
        r@ == sha256_of(data@),
        r@.len() == VIEWING_KEY_SIZE,
{
    secret_toolkit::crypto::sha_256(data).to_vec()
}

/// Relies on secret_toolkit::crypto::ContractPrng::new and its rand_bytes: the
/// first 32 bytes of a generator that is seeded from `seed` and `entropy` alone.
#[verifier::external_body]
fn first_random_bytes(seed: &[u8], entropy: &[u8]) -> (r: Vec<u8>)
    ensures
        r@ == prng_bytes_of(seed@, entropy@),
{
    secret_toolkit::crypto::ContractPrng::new(seed, entropy).rand_bytes().to_vec()
}

/// Relies on base64::encode: the standard base64 text of `data`.
#[verifier::external_body]
pub(crate) fn base64_encode(data: &[u8]) -> (r: String)
    ensures
        r@ == base64_of(data@),
{
    base64::encode(data)
}

/// Compares two byte strings in time that depends on their lengths only.
pub fn ct_slice_compare(a: &[u8], b: &[u8]) -> (r: bool)
    ensures
        r == (a@ == b@),
{
    if a.len() != b.len() {
        return false;
    }
    let mut diff: u8 = 0;
    let mut i: usize = 0;
    assert(a@.subrange(0, 0) =~= b@.subrange(0, 0));
    while i < a.len()
        invariant
            i <= a@.len() == b@.len(),
            (diff == 0) == (a@.subrange(0, i as int) == b@.subrange(0, i as int)),
        decreases a@.len() - i,
    {
        let x = a[i];
        let y = b[i];
        let d = diff;
        let nd = d | (x ^ y);
        assert((nd == 0) == (d == 0 && x == y)) by (bit_vector)
            requires
                nd == d | (x ^ y),
        ;
        diff = nd;
        i = i + 1;
        assert(a@.subrange(0, i as int) =~= a@.subrange(0, i as int - 1).push(x));
        assert(b@.subrange(0, i as int) =~= b@.subrange(0, i as int - 1).push(y));
        proof {
            if a@.subrange(0, i as int) == b@.subrange(0, i as int) {
                assert(a@.subrange(0, i as int)[i - 1] == b@.subrange(0, i as int)[i - 1]);
                assert(a@.subrange(0, i as int - 1) =~= a@.subrange(0, i as int).subrange(0, i - 1));
                assert(b@.subrange(0, i as int - 1) =~= b@.subrange(0, i as int).subrange(0, i - 1));
            }
        }
    }
    assert(a@ =~= a@.subrange(0, i as int));
    assert(b@ =~= b@.subrange(0, i as int));
    diff == 0
}

/// What the environment of a call supplies to key generation.
pub struct CallEnv {
    /// Canonical bytes of the caller's identity.
    pub sender: Vec<u8>,
    /// Human-readable address of the caller.
    pub sender_address: String,
    pub block_height: u64,
    pub block_time: u64,
}

/// The entropy fed to the generator: block height and time, the caller's
/// address, then the caller's own entropy.
pub open spec fn key_entropy(height: u64, time: u64, address: Seq<char>, entropy: Seq<u8>) -> Seq<
    u8,
> {
    u64_bytes(height) + u64_bytes(time) + encode_utf8(address) + entropy
}

/// The text `"api_key_"` that starts every token.
pub open spec fn token_prefix() -> Seq<char> {
    seq!['a', 'p', 'i', '_', 'k', 'e', 'y', '_']
}

/// The token derived from the contract seed, the environment and the entropy.
pub open spec fn derived_token(
    seed: Seq<u8>,
    height: u64,
    time: u64,
    address: Seq<char>,
    entropy: Seq<u8>,
) -> Seq<char> {
    token_prefix() + base64_of(sha256_of(prng_bytes_of(seed, key_entropy(height, time, address, entropy))))
}

/// The hash under which a token is stored.
pub open spec fn token_hash(token: Seq<char>) -> Seq<u8> {
    sha256_of(encode_utf8(token))
}

/// A bearer credential that lets its holder read an identity's reminder.
pub struct ViewingKey(pub String);

impl ViewingKey {
    /// Derives a fresh token from the contract seed, the environment and the
    /// caller's entropy.
    pub fn new(env: &CallEnv, seed: &Vec<u8>, entropy: &[u8]) -> (r: ViewingKey)
        ensures
            r.0@ == derived_token(seed@, env.block_height, env.block_time, env.sender_address@, entropy@),
    {
        let mut rng_entropy: Vec<u8> = Vec::new();
        push_u64(&mut rng_entropy, env.block_height);
        push_u64(&mut rng_entropy, env.block_time);
        let address_bytes = vstd::slice::slice_to_vec(env.sender_address.as_str().as_bytes());
        push_bytes(&mut rng_entropy, &address_bytes);
        let entropy_bytes = vstd::slice::slice_to_vec(entropy);
        push_bytes(&mut rng_entropy, &entropy_bytes);
        assert(rng_entropy@ =~= key_entropy(env.block_height, env.block_time, env.sender_address@, entropy@));
        let rand_bytes = first_random_bytes(seed.as_slice(), rng_entropy.as_slice());
        let key = sha_256(rand_bytes.as_slice());
        let encoded = base64_encode(key.as_slice());
        let prefix = String::from_str("api_key_");
        proof {
            reveal_strlit("api_key_");
        }
        assert(prefix@ =~= token_prefix());
        ViewingKey(prefix.concat(encoded.as_str()))
    }

    /// The hash of the token, which is what gets stored.
    pub fn to_hashed(&self) -> (r: Vec<u8>)
        ensures
            r@ == token_hash(self.0@),
            r@.len() == VIEWING_KEY_SIZE,
    {
        sha_256(self.0.as_str().as_bytes())
    }

    /// Whether the token hashes to `hashed`, compared in constant time.
    pub fn check_viewing_key(&self, hashed: &[u8]) -> (r: bool)
        ensures
            r == (token_hash(self.0@) == hashed@),
    {
        let mine = self.to_hashed();
        ct_slice_compare(mine.as_slice(), hashed)
    }
}

} // verus!
