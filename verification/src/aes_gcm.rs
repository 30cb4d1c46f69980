//! AES-GCM adapters: AES-128-GCM and AES-256-GCM with the standard 96-bit
//! nonce and 16-byte authentication tag, backed by the `aes-gcm` crate.

use crate::CipherError;
use crate::Crypter;
use aes_gcm::aead::Aead;
use aes_gcm::Aes128Gcm as LibAes128Gcm;
use aes_gcm::Aes256Gcm as LibAes256Gcm;
use aes_gcm::KeyInit;
use generic_array::GenericArray;
use vstd::prelude::*;

verus! {

/// Longest plaintext AES-GCM accepts, in bytes (2^36; the backing crate
/// rejects anything longer).
pub const GCM_P_MAX: u64 = 0x10_0000_0000;

/// The AES-128-GCM ciphertext-with-tag for `(key, iv, pt)`.
pub uninterp spec fn aes128_gcm_seal(key: Seq<u8>, iv: Seq<u8>, pt: Seq<u8>) -> Seq<u8>;

/// The AES-256-GCM ciphertext-with-tag for `(key, iv, pt)`.
pub uninterp spec fn aes256_gcm_seal(key: Seq<u8>, iv: Seq<u8>, pt: Seq<u8>) -> Seq<u8>;

/// Relies on `aes_gcm::Aes128Gcm` (`aead::Aead::encrypt`): the result is a
/// function of key, nonce and plaintext alone, is the plaintext length plus
/// a 16-byte tag, and the call fails exactly when the plaintext is longer
/// than 2^36 bytes.
#[verifier::external_body]
fn aes128_gcm_encrypt(key: &[u8], iv: &[u8], data: &[u8]) -> (r: Option<Vec<u8>>)
    requires
        key@.len() == 16,
        iv@.len() == 12,
    ensures
        r matches Some(ct) ==> ct@ == aes128_gcm_seal(key@, iv@, data@) && ct@.len()
            == data@.len() + 16,
        r is Some <==> data@.len() <= GCM_P_MAX,
{
    let cipher = LibAes128Gcm::new(GenericArray::from_slice(key));
    match cipher.encrypt(GenericArray::from_slice(iv), data) {
        Ok(ct) => Some(ct),
        Err(_) => None,
    }
}

/// Relies on `aes_gcm::Aes128Gcm` (`aead::Aead::decrypt`): succeeds on
/// exactly the buffers `encrypt` produces under the same key and nonce, and
/// then returns the plaintext whose encryption the buffer is.
#[verifier::external_body]
fn aes128_gcm_open(key: &[u8], iv: &[u8], data: &[u8]) -> (r: Option<Vec<u8>>)
    requires
        key@.len() == 16,
        iv@.len() == 12,
    ensures
        r matches Some(pt) ==> data@ == aes128_gcm_seal(key@, iv@, pt@) && data@.len()
            == pt@.len() + 16,
        r is None ==> forall|pt: Seq<u8>|
            pt.len() <= GCM_P_MAX ==> data@ != #[trigger] aes128_gcm_seal(key@, iv@, pt),
        r matches Some(p) ==> forall|pt: Seq<u8>|
            data@ == #[trigger] aes128_gcm_seal(key@, iv@, pt) ==> p@ == pt,
{
    let cipher = LibAes128Gcm::new(GenericArray::from_slice(key));
    match cipher.decrypt(GenericArray::from_slice(iv), data) {
        Ok(pt) => Some(pt),
        Err(_) => None,
    }
}

/// Relies on `aes_gcm::Aes256Gcm` (`aead::Aead::encrypt`); same contract as
/// for AES-128-GCM, with a 32-byte key.
#[verifier::external_body]
fn aes256_gcm_encrypt(key: &[u8], iv: &[u8], data: &[u8]) -> (r: Option<Vec<u8>>)
    requires
        key@.len() == 32,
        iv@.len() == 12,
    ensures
        r matches Some(ct) ==> ct@ == aes256_gcm_seal(key@, iv@, data@) && ct@.len()
            == data@.len() + 16,
        r is Some <==> data@.len() <= GCM_P_MAX,
{
    let cipher = LibAes256Gcm::new(GenericArray::from_slice(key));
    match cipher.encrypt(GenericArray::from_slice(iv), data) {
        Ok(ct) => Some(ct),
        Err(_) => None,
    }
}

/// Relies on `aes_gcm::Aes256Gcm` (`aead::Aead::decrypt`); same contract as
/// for AES-128-GCM, with a 32-byte key.
#[verifier::external_body]
fn aes256_gcm_open(key: &[u8], iv: &[u8], data: &[u8]) -> (r: Option<Vec<u8>>)
    requires
        key@.len() == 32,
        iv@.len() == 12,
    ensures
        r matches Some(pt) ==> data@ == aes256_gcm_seal(key@, iv@, pt@) && data@.len()
            == pt@.len() + 16,
        r is None ==> forall|pt: Seq<u8>|
            pt.len() <= GCM_P_MAX ==> data@ != #[trigger] aes256_gcm_seal(key@, iv@, pt),
        r matches Some(p) ==> forall|pt: Seq<u8>|
            data@ == #[trigger] aes256_gcm_seal(key@, iv@, pt) ==> p@ == pt,
{
    let cipher = LibAes256Gcm::new(GenericArray::from_slice(key));
    match cipher.decrypt(GenericArray::from_slice(iv), data) {
        Ok(pt) => Some(pt),
        Err(_) => None,
    }
}

/// One-shot AES-128-GCM.
pub struct Aes128Gcm;

impl Crypter for Aes128Gcm {
    open spec fn spec_key_length() -> usize {
        16
    }

    open spec fn spec_iv_length() -> usize {
        12
    }

    open spec fn spec_block_length() -> usize {
        16
    }

    open spec fn spec_tag_length() -> usize {
        16
    }

    open spec fn spec_fits(n: nat) -> bool {
        n <= GCM_P_MAX
    }

    open spec fn spec_encrypt(key: Seq<u8>, iv: Seq<u8>, pt: Seq<u8>) -> Seq<u8> {
        aes128_gcm_seal(key, iv, pt)
    }

    fn key_length() -> usize {
        16
    }

    fn iv_length() -> usize {
        12
    }

    fn block_length() -> usize {
        16
    }

    fn encrypt(key: &[u8], iv: &[u8], data: &[u8]) -> Result<Vec<u8>, CipherError> {
        if key.len() != 16 {
            Err(CipherError::KeyLength)
        } else if iv.len() != 12 {
            Err(CipherError::IvLength)
        } else {
            match aes128_gcm_encrypt(key, iv, data) {
                Some(ct) => Ok(ct),
                None => Err(CipherError::Backend),
            }
        }
    }

    fn decrypt(key: &[u8], iv: &[u8], data: &[u8]) -> Result<Vec<u8>, CipherError> {
        if key.len() != 16 {
            Err(CipherError::KeyLength)
        } else if iv.len() != 12 {
            Err(CipherError::IvLength)
        } else if data.len() as u64 > GCM_P_MAX + 16 {
            Err(CipherError::Authentication)
        } else {
            match aes128_gcm_open(key, iv, data) {
                Some(pt) => Ok(pt),
                None => Err(CipherError::Authentication),
            }
        }
    }
}

/// One-shot AES-256-GCM.
pub struct Aes256Gcm;

impl Crypter for Aes256Gcm {
    open spec fn spec_key_length() -> usize {
        32
    }

    open spec fn spec_iv_length() -> usize {
        12
    }

    open spec fn spec_block_length() -> usize {
        16
    }

    open spec fn spec_tag_length() -> usize {
        16
    }

    open spec fn spec_fits(n: nat) -> bool {
        n <= GCM_P_MAX
    }

    open spec fn spec_encrypt(key: Seq<u8>, iv: Seq<u8>, pt: Seq<u8>) -> Seq<u8> {
        aes256_gcm_seal(key, iv, pt)
    }

    fn key_length() -> usize {
        32
    }

    fn iv_length() -> usize {
        12
    }

    fn block_length() -> usize {
        16
    }

    fn encrypt(key: &[u8], iv: &[u8], data: &[u8]) -> Result<Vec<u8>, CipherError> {
        if key.len() != 32 {
            Err(CipherError::KeyLength)
        } else if iv.len() != 12 {
            Err(CipherError::IvLength)
        } else {
            match aes256_gcm_encrypt(key, iv, data) {
                Some(ct) => Ok(ct),
                None => Err(CipherError::Backend),
            }
        }
    }

    fn decrypt(key: &[u8], iv: &[u8], data: &[u8]) -> Result<Vec<u8>, CipherError> {
        if key.len() != 32 {
            Err(CipherError::KeyLength)
        } else if iv.len() != 12 {
            Err(CipherError::IvLength)
        } else if data.len() as u64 > GCM_P_MAX + 16 {
            Err(CipherError::Authentication)
        } else {
            match aes256_gcm_open(key, iv, data) {
                Some(pt) => Ok(pt),
                None => Err(CipherError::Authentication),
            }
        }
    }
}

} // verus!


