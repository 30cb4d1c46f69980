//! AES-CTR adapters: AES-128-CTR and AES-256-CTR over a full 16-byte
//! big-endian counter block, backed by the `aes` and `ctr` crates.
//!
//! CTR mode XORs the plaintext with a keystream, so encryption and
//! decryption are the same operation, ciphertext and plaintext have equal
//! length, and there is no authentication tag.  Each family is offered both
//! as a one-shot [`Crypter`] and as a reusable [`StatefulCrypter`] adapter.

use crate::CipherError;
use crate::Crypter;
use crate::StatefulCrypter;
use aes::Aes128;
use aes::Aes256;
use cipher::KeyIvInit;
use cipher::StreamCipher;
use ctr::Ctr128BE;
use generic_array::GenericArray;
use vstd::prelude::*;

verus! {

/// `pt` XORed with the AES-128-CTR keystream for `(key, iv)`.
pub uninterp spec fn aes128_ctr_xor(key: Seq<u8>, iv: Seq<u8>, pt: Seq<u8>) -> Seq<u8>;

/// `pt` XORed with the AES-256-CTR keystream for `(key, iv)`.
pub uninterp spec fn aes256_ctr_xor(key: Seq<u8>, iv: Seq<u8>, pt: Seq<u8>) -> Seq<u8>;

/// Relies on `ctr::Ctr128BE<aes::Aes128>` (`cipher::StreamCipher::
/// try_apply_keystream`): XORs the buffer in place with a keystream that is
/// a function of key and IV alone, keeping its length; applying the same
/// keystream again restores the input.  The 128-bit counter wraps and cannot
/// run out within one buffer, so the call always succeeds.
#[verifier::external_body]
fn aes128_ctr_apply(key: &[u8], iv: &[u8], data: &mut Vec<u8>) -> (r: bool)
    requires
        key@.len() == 16,
        iv@.len() == 16,
    ensures
        r,
        r ==> final(data)@ == aes128_ctr_xor(key@, iv@, old(data)@) && final(data)@.len()
            == old(data)@.len(),
        r ==> aes128_ctr_xor(key@, iv@, final(data)@) == old(data)@,
        r ==> forall|pt: Seq<u8>|
            old(data)@ == #[trigger] aes128_ctr_xor(key@, iv@, pt) ==> final(data)@ == pt,
{
    let mut c: Ctr128BE<Aes128> =
        Ctr128BE::new(GenericArray::from_slice(key), GenericArray::from_slice(iv));
    c.try_apply_keystream(data.as_mut_slice()).is_ok()
}

/// Relies on `ctr::Ctr128BE<aes::Aes256>`; same contract as for AES-128-CTR,
/// with a 32-byte key.
#[verifier::external_body]
fn aes256_ctr_apply(key: &[u8], iv: &[u8], data: &mut Vec<u8>) -> (r: bool)
    requires
        key@.len() == 32,
        iv@.len() == 16,
    ensures
        r,
        r ==> final(data)@ == aes256_ctr_xor(key@, iv@, old(data)@) && final(data)@.len()
            == old(data)@.len(),
        r ==> aes256_ctr_xor(key@, iv@, final(data)@) == old(data)@,
        r ==> forall|pt: Seq<u8>|
            old(data)@ == #[trigger] aes256_ctr_xor(key@, iv@, pt) ==> final(data)@ == pt,
{
    let mut c: Ctr128BE<Aes256> =
        Ctr128BE::new(GenericArray::from_slice(key), GenericArray::from_slice(iv));
    c.try_apply_keystream(data.as_mut_slice()).is_ok()
}

/// One-shot AES-128-CTR.
pub struct Aes128Ctr;

impl Crypter for Aes128Ctr {
    open spec fn spec_key_length() -> usize {
        16
    }

    open spec fn spec_iv_length() -> usize {
        16
    }

    open spec fn spec_block_length() -> usize {
        16
    }

    open spec fn spec_tag_length() -> usize {
        0
    }

    open spec fn spec_fits(n: nat) -> bool {
        true
    }

    open spec fn spec_encrypt(key: Seq<u8>, iv: Seq<u8>, pt: Seq<u8>) -> Seq<u8> {
        aes128_ctr_xor(key, iv, pt)
    }

    fn key_length() -> usize {
        16
    }

    fn iv_length() -> usize {
        16
    }

    fn block_length() -> usize {
        16
    }

    fn encrypt(key: &[u8], iv: &[u8], data: &[u8]) -> Result<Vec<u8>, CipherError> {
        if key.len() != 16 {
            Err(CipherError::KeyLength)
        } else if iv.len() != 16 {
            Err(CipherError::IvLength)
        } else {
            let mut out = vstd::slice::slice_to_vec(data);
            if aes128_ctr_apply(key, iv, &mut out) {
                Ok(out)
            } else {
                Err(CipherError::Backend)
            }
        }
    }

    fn decrypt(key: &[u8], iv: &[u8], data: &[u8]) -> Result<Vec<u8>, CipherError> {
        if key.len() != 16 {
            Err(CipherError::KeyLength)
        } else if iv.len() != 16 {
            Err(CipherError::IvLength)
        } else {
            let mut out = vstd::slice::slice_to_vec(data);
            if aes128_ctr_apply(key, iv, &mut out) {
                Ok(out)
            } else {
                Err(CipherError::Backend)
            }
        }
    }
}

/// One-shot AES-256-CTR.
pub struct Aes256Ctr;

impl Crypter for Aes256Ctr {
    open spec fn spec_key_length() -> usize {
        32
    }

    open spec fn spec_iv_length() -> usize {
        16
    }

    open spec fn spec_block_length() -> usize {
        16
    }

    open spec fn spec_tag_length() -> usize {
        0
    }

    open spec fn spec_fits(n: nat) -> bool {
        true
    }

    open spec fn spec_encrypt(key: Seq<u8>, iv: Seq<u8>, pt: Seq<u8>) -> Seq<u8> {
        aes256_ctr_xor(key, iv, pt)
    }

    fn key_length() -> usize {
        32
    }

    fn iv_length() -> usize {
        16
    }

    fn block_length() -> usize {
        16
    }

    fn encrypt(key: &[u8], iv: &[u8], data: &[u8]) -> Result<Vec<u8>, CipherError> {
        if key.len() != 32 {
            Err(CipherError::KeyLength)
        } else if iv.len() != 16 {
            Err(CipherError::IvLength)
        } else {
            let mut out = vstd::slice::slice_to_vec(data);
            if aes256_ctr_apply(key, iv, &mut out) {
                Ok(out)
            } else {
                Err(CipherError::Backend)
            }
        }
    }

    fn decrypt(key: &[u8], iv: &[u8], data: &[u8]) -> Result<Vec<u8>, CipherError> {
        if key.len() != 32 {
            Err(CipherError::KeyLength)
        } else if iv.len() != 16 {
            Err(CipherError::IvLength)
        } else {
            let mut out = vstd::slice::slice_to_vec(data);
            if aes256_ctr_apply(key, iv, &mut out) {
                Ok(out)
            } else {
                Err(CipherError::Backend)
            }
        }
    }
}

/// Reusable AES-128-CTR adapter.
///
/// The backing crate keys a fresh keystream on every call, so rebinding to
/// the key and IV of the call happens inside `encrypt`/`decrypt`; the
/// adapter itself carries no data between calls.
pub struct StatefulAes128Ctr;

impl StatefulAes128Ctr {
    /// Create a fresh adapter.
    pub fn new() -> Self {
        StatefulAes128Ctr
    }
}

impl Default for StatefulAes128Ctr {
    fn default() -> (r: Self)
        ensures
            r == (StatefulAes128Ctr {}),
    {
        Self::new()
    }
}

impl StatefulCrypter for StatefulAes128Ctr {
    open spec fn spec_key_length() -> usize {
        16
    }

    open spec fn spec_iv_length() -> usize {
        16
    }

    open spec fn spec_block_length() -> usize {
        16
    }

    open spec fn spec_fits(n: nat) -> bool {
        true
    }

    open spec fn spec_encrypt(key: Seq<u8>, iv: Seq<u8>, pt: Seq<u8>) -> Seq<u8> {
        aes128_ctr_xor(key, iv, pt)
    }

    fn key_length() -> usize {
        16
    }

    fn iv_length() -> usize {
        16
    }

    fn block_length() -> usize {
        16
    }

    fn encrypt(&mut self, key: &[u8], iv: &[u8], data: &mut Vec<u8>) -> Result<(), CipherError> {
        if key.len() != 16 {
            Err(CipherError::KeyLength)
        } else if iv.len() != 16 {
            Err(CipherError::IvLength)
        } else {
            if aes128_ctr_apply(key, iv, data) {
                Ok(())
            } else {
                Err(CipherError::Backend)
            }
        }
    }

    fn decrypt(&mut self, key: &[u8], iv: &[u8], data: &mut Vec<u8>) -> Result<(), CipherError> {
        if key.len() != 16 {
            Err(CipherError::KeyLength)
        } else if iv.len() != 16 {
            Err(CipherError::IvLength)
        } else {
            if aes128_ctr_apply(key, iv, data) {
                Ok(())
            } else {
                Err(CipherError::Backend)
            }
        }
    }
}

/// Reusable AES-256-CTR adapter.
pub struct StatefulAes256Ctr;

impl StatefulAes256Ctr {
    /// Create a fresh adapter.
    pub fn new() -> Self {
        StatefulAes256Ctr
    }
}

impl Default for StatefulAes256Ctr {
    fn default() -> (r: Self)
        ensures
            r == (StatefulAes256Ctr {}),
    {
        Self::new()
    }
}

impl StatefulCrypter for StatefulAes256Ctr {
    open spec fn spec_key_length() -> usize {
        32
    }

    open spec fn spec_iv_length() -> usize {
        16
    }

    open spec fn spec_block_length() -> usize {
        16
    }

    open spec fn spec_fits(n: nat) -> bool {
        true
    }

    open spec fn spec_encrypt(key: Seq<u8>, iv: Seq<u8>, pt: Seq<u8>) -> Seq<u8> {
        aes256_ctr_xor(key, iv, pt)
    }

    fn key_length() -> usize {
        32
    }

    fn iv_length() -> usize {
        16
    }

    fn block_length() -> usize {
        16
    }

    fn encrypt(&mut self, key: &[u8], iv: &[u8], data: &mut Vec<u8>) -> Result<(), CipherError> {
        if key.len() != 32 {
            Err(CipherError::KeyLength)
        } else if iv.len() != 16 {
            Err(CipherError::IvLength)
        } else {
            if aes256_ctr_apply(key, iv, data) {
                Ok(())
            } else {
                Err(CipherError::Backend)
            }
        }
    }

    fn decrypt(&mut self, key: &[u8], iv: &[u8], data: &mut Vec<u8>) -> Result<(), CipherError> {
        if key.len() != 32 {
            Err(CipherError::KeyLength)
        } else if iv.len() != 16 {
            Err(CipherError::IvLength)
        } else {
            if aes256_ctr_apply(key, iv, data) {
                Ok(())
            } else {
                Err(CipherError::Backend)
            }
        }
    }
}

/// The stateless and the stateful AES-128-CTR adapters compute the same
/// ciphertext for the same key, IV and plaintext.
pub proof fn lemma_aes128_ctr_stateless_stateful_agree(key: Seq<u8>, iv: Seq<u8>, pt: Seq<u8>)
    ensures
        <Aes128Ctr as Crypter>::spec_encrypt(key, iv, pt) == <StatefulAes128Ctr as StatefulCrypter>::spec_encrypt(key, iv, pt),
{
}

/// The stateless and the stateful AES-256-CTR adapters compute the same
/// ciphertext for the same key, IV and plaintext.
pub proof fn lemma_aes256_ctr_stateless_stateful_agree(key: Seq<u8>, iv: Seq<u8>, pt: Seq<u8>)
    ensures
        <Aes256Ctr as Crypter>::spec_encrypt(key, iv, pt) == <StatefulAes256Ctr as StatefulCrypter>::spec_encrypt(key, iv, pt),
{
}

} // verus!

