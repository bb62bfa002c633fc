//! Ed25519 key material from a PEM file.

use vstd::prelude::*;

verus! {

/// The secret key that `ed25519_compact` reads from a PEM text: 64 bytes, the
/// seed and then the public key. `None` for a text that holds no such key.
pub uninterp spec fn pem_secret_key(pem: Seq<char>) -> Option<Seq<u8>>;

/// The first 32 bytes of a key, its seed, are present and not all zero.
pub open spec fn seed_is_set(key: Seq<u8>) -> bool {
    key.len() >= 32 && exists|i: int| 0 <= i < 32 && key[i] != 0
}

/// The public half of a secret key: its last 32 bytes.
pub open spec fn public_half(secret: Seq<u8>) -> Seq<u8> {
    secret.subrange(32, 64)
}

/// Reads a secret key with `ed25519_compact::SecretKey::from_pem`. The result
/// is the key named by `pem_secret_key`. A key that comes out has 64 bytes,
/// and its seed is not all zero: `from_pem` derives the key pair from the seed
/// and refuses the zero seed.
#[verifier::external_body]
pub(crate) fn secret_key_from_pem(pem: &str) -> (key: Option<Vec<u8>>)
    ensures
        match key {
            Some(k) => pem_secret_key(pem@) == Some(k@) && k@.len() == 64 && seed_is_set(k@),
            None => pem_secret_key(pem@) is None,
        },
{
    match ed25519_compact::SecretKey::from_pem(pem) {
        Ok(sk) => Some(sk.to_vec()),
        Err(_) => None,
    }
}

/// The public half of a 64-byte secret key, copied out.
pub(crate) fn public_key_of(secret: &Vec<u8>) -> (public: Vec<u8>)
    requires
        secret@.len() == 64,
    ensures
        public@ == public_half(secret@),
{
    let mut public: Vec<u8> = Vec::new();
    let mut i: usize = 32;
    while i < 64
        invariant
            32 <= i <= 64,
            secret@.len() == 64,
            public@ == secret@.subrange(32, i as int),
        decreases 64 - i,
    {
        public.push(secret[i]);
        i = i + 1;
        assert(public@ =~= secret@.subrange(32, i as int));
    }
    public
}

} // verus!
