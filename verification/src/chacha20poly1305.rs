//! ChaCha20-Poly1305 adapters: the IETF construction with a 96-bit nonce,
//! and XChaCha20-Poly1305 with a 192-bit extended nonce, backed by the
//! `chacha20poly1305` crate.  Both use a 32-byte key and a 16-byte tag.

use crate::CipherError;
use crate::Crypter;
use chacha20poly1305::aead::Aead;
use chacha20poly1305::ChaCha20Poly1305 as LibChaCha20Poly1305;
use chacha20poly1305::KeyInit;
use chacha20poly1305::XChaCha20Poly1305 as LibXChaCha20Poly1305;
use generic_array::GenericArray;
use vstd::prelude::*;

verus! {

/// Longest buffer (X)ChaCha20-Poly1305 can process: 64 * (2^32 - 2) bytes.
/// The backing crate spends keystream block 0 on the Poly1305 key, leaving
/// 2^32 - 2 blocks of its 32-bit counter for the message, and it panics
/// rather than fail if the keystream runs out, so the adapters reject
/// anything longer before calling it.
pub const CHACHA_P_MAX: u64 = 0x3F_FFFF_FF80;

/// The ChaCha20-Poly1305 ciphertext-with-tag for `(key, iv, pt)`.
pub uninterp spec fn chacha20_poly1305_seal(key: Seq<u8>, iv: Seq<u8>, pt: Seq<u8>) -> Seq<u8>;

/// The XChaCha20-Poly1305 ciphertext-with-tag for `(key, iv, pt)`.
pub uninterp spec fn xchacha20_poly1305_seal(key: Seq<u8>, iv: Seq<u8>, pt: Seq<u8>) -> Seq<u8>;

/// Relies on `chacha20poly1305::ChaCha20Poly1305` (`aead::Aead::encrypt`):
/// the result is a function of key, nonce and plaintext alone and is the
/// plaintext length plus a 16-byte tag.  The caller must keep the plaintext
/// within the keystream budget — the backing crate panics beyond it — and
/// within that budget the call cannot fail.
#[verifier::external_body]
fn chacha20_poly1305_encrypt(key: &[u8], iv: &[u8], data: &[u8]) -> (r: Option<Vec<u8>>)
    requires
        key@.len() == 32,
        iv@.len() == 12,
        data@.len() <= CHACHA_P_MAX,
    ensures
        r matches Some(ct) ==> ct@ == chacha20_poly1305_seal(key@, iv@, data@) && ct@.len()
            == data@.len() + 16,
        r is Some <==> data@.len() <= CHACHA_P_MAX,
{
    let cipher = LibChaCha20Poly1305::new(GenericArray::from_slice(key));
    match cipher.encrypt(GenericArray::from_slice(iv), data) {
        Ok(ct) => Some(ct),
        Err(_) => None,
    }
}

/// Relies on `chacha20poly1305::ChaCha20Poly1305` (`aead::Aead::decrypt`):
/// succeeds on exactly the buffers `encrypt` produces under the same key and
/// nonce, and then returns the plaintext whose encryption the buffer is.
/// The caller must keep the buffer within the keystream budget plus the tag;
/// the backing crate panics beyond it.
#[verifier::external_body]
fn chacha20_poly1305_open(key: &[u8], iv: &[u8], data: &[u8]) -> (r: Option<Vec<u8>>)
    requires
        key@.len() == 32,
        iv@.len() == 12,
        data@.len() <= CHACHA_P_MAX + 16,
    ensures
        r matches Some(pt) ==> data@ == chacha20_poly1305_seal(key@, iv@, pt@) && data@.len()
            == pt@.len() + 16,
        r is None ==> forall|pt: Seq<u8>|
            pt.len() <= CHACHA_P_MAX ==> data@ != #[trigger] chacha20_poly1305_seal(
                key@,
                iv@,
                pt,
            ),
        r matches Some(p) ==> forall|pt: Seq<u8>|
            data@ == #[trigger] chacha20_poly1305_seal(key@, iv@, pt) ==> p@ == pt,
{
    let cipher = LibChaCha20Poly1305::new(GenericArray::from_slice(key));
    match cipher.decrypt(GenericArray::from_slice(iv), data) {
        Ok(pt) => Some(pt),
        Err(_) => None,
    }
}

/// Relies on `chacha20poly1305::XChaCha20Poly1305` (`aead::Aead::encrypt`);
/// same contract and keystream budget as for ChaCha20-Poly1305, with a
/// 24-byte extended nonce.
#[verifier::external_body]
fn xchacha20_poly1305_encrypt(key: &[u8], iv: &[u8], data: &[u8]) -> (r: Option<Vec<u8>>)
    requires
        key@.len() == 32,
        iv@.len() == 24,
        data@.len() <= CHACHA_P_MAX,
    ensures
        r matches Some(ct) ==> ct@ == xchacha20_poly1305_seal(key@, iv@, data@) && ct@.len()
            == data@.len() + 16,
        r is Some <==> data@.len() <= CHACHA_P_MAX,
{
    let cipher = LibXChaCha20Poly1305::new(GenericArray::from_slice(key));
    match cipher.encrypt(GenericArray::from_slice(iv), data) {
        Ok(ct) => Some(ct),
        Err(_) => None,
    }
}

/// Relies on `chacha20poly1305::XChaCha20Poly1305` (`aead::Aead::decrypt`);
/// same contract and keystream budget as for ChaCha20-Poly1305, with a
/// 24-byte extended nonce.
#[verifier::external_body]
fn xchacha20_poly1305_open(key: &[u8], iv: &[u8], data: &[u8]) -> (r: Option<Vec<u8>>)
    requires
        key@.len() == 32,
        iv@.len() == 24,
        data@.len() <= CHACHA_P_MAX + 16,
    ensures
        r matches Some(pt) ==> data@ == xchacha20_poly1305_seal(key@, iv@, pt@) && data@.len()
            == pt@.len() + 16,
        r is None ==> forall|pt: Seq<u8>|
            pt.len() <= CHACHA_P_MAX ==> data@ != #[trigger] xchacha20_poly1305_seal(
                key@,
                iv@,
                pt,
            ),
        r matches Some(p) ==> forall|pt: Seq<u8>|
            data@ == #[trigger] xchacha20_poly1305_seal(key@, iv@, pt) ==> p@ == pt,
{
    let cipher = LibXChaCha20Poly1305::new(GenericArray::from_slice(key));
    match cipher.decrypt(GenericArray::from_slice(iv), data) {
        Ok(pt) => Some(pt),
        Err(_) => None,
    }
}

/// One-shot ChaCha20-Poly1305 (IETF, 96-bit nonce).
pub struct ChaCha20Poly1305;

impl Crypter for ChaCha20Poly1305 {
    open spec fn spec_key_length() -> usize {
        32
    }

    open spec fn spec_iv_length() -> usize {
        12
    }

    open spec fn spec_block_length() -> usize {
        64
    }

    open spec fn spec_tag_length() -> usize {
        16
    }

    open spec fn spec_fits(n: nat) -> bool {
        n <= CHACHA_P_MAX
    }

    open spec fn spec_encrypt(key: Seq<u8>, iv: Seq<u8>, pt: Seq<u8>) -> Seq<u8> {
        chacha20_poly1305_seal(key, iv, pt)
    }

    fn key_length() -> usize {
        32
    }

    fn iv_length() -> usize {
        12
    }

    fn block_length() -> usize {
        64
    }

    fn encrypt(key: &[u8], iv: &[u8], data: &[u8]) -> Result<Vec<u8>, CipherError> {
        if key.len() != 32 {
            Err(CipherError::KeyLength)
        } else if iv.len() != 12 {
            Err(CipherError::IvLength)
        } else if data.len() as u64 > CHACHA_P_MAX {
            Err(CipherError::Backend)
        } else {
            match chacha20_poly1305_encrypt(key, iv, data) {
                Some(ct) => Ok(ct),
                None => Err(CipherError::Backend),
            }
        }
    }

    fn decrypt(key: &[u8], iv: &[u8], data: &[u8]) -> Result<Vec<u8>, CipherError> {
        if key.len() != 32 {
            Err(CipherError::KeyLength)
        } else if iv.len() != 12 {
            Err(CipherError::IvLength)
        } else if data.len() as u64 > CHACHA_P_MAX + 16 {
            Err(CipherError::Authentication)
        } else {
            match chacha20_poly1305_open(key, iv, data) {
                Some(pt) => Ok(pt),
                None => Err(CipherError::Authentication),
            }
        }
    }
}

/// One-shot XChaCha20-Poly1305 (192-bit extended nonce).
pub struct XChaCha20Poly1305;

impl Crypter for XChaCha20Poly1305 {
    open spec fn spec_key_length() -> usize {
        32
    }

    open spec fn spec_iv_length() -> usize {
        24
    }

    open spec fn spec_block_length() -> usize {
        64
    }

    open spec fn spec_tag_length() -> usize {
        16
    }

    open spec fn spec_fits(n: nat) -> bool {
        n <= CHACHA_P_MAX
    }

    open spec fn spec_encrypt(key: Seq<u8>, iv: Seq<u8>, pt: Seq<u8>) -> Seq<u8> {
        xchacha20_poly1305_seal(key, iv, pt)
    }

    fn key_length() -> usize {
        32
    }

    fn iv_length() -> usize {
        24
    }

    fn block_length() -> usize {
        64
    }

    fn encrypt(key: &[u8], iv: &[u8], data: &[u8]) -> Result<Vec<u8>, CipherError> {
        if key.len() != 32 {
            Err(CipherError::KeyLength)
        } else if iv.len() != 24 {
            Err(CipherError::IvLength)
        } else if data.len() as u64 > CHACHA_P_MAX {
            Err(CipherError::Backend)
        } else {
            match xchacha20_poly1305_encrypt(key, iv, data) {
                Some(ct) => Ok(ct),
                None => Err(CipherError::Backend),
            }
        }
    }

    fn decrypt(key: &[u8], iv: &[u8], data: &[u8]) -> Result<Vec<u8>, CipherError> {
        if key.len() != 32 {
            Err(CipherError::KeyLength)
        } else if iv.len() != 24 {
            Err(CipherError::IvLength)
        } else if data.len() as u64 > CHACHA_P_MAX + 16 {
            Err(CipherError::Authentication)
        } else {
            match xchacha20_poly1305_open(key, iv, data) {
                Some(pt) => Ok(pt),
                None => Err(CipherError::Authentication),
            }
        }
    }
}

} // verus!
