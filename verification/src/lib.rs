//! A uniform interface over symmetric encryption primitives.
//!
//! Every cipher variant answers the same length questions (key, IV/nonce,
//! block) and offers `encrypt` / `decrypt` over byte buffers, either as
//! one-shot associated functions ([`Crypter`]) or through a reusable adapter
//! object ([`StatefulCrypter`]).  The cipher mathematics themselves are done
//! by backing cryptographic crates; this layer pins down the dispatch
//! contract: exact length validation, error signaling, the relation between
//! ciphertext and plaintext lengths, and the round trip between `encrypt`
//! and `decrypt`.

use vstd::prelude::*;

pub mod aes_ctr;
pub mod aes_gcm;
pub mod aes_gcm_siv;
pub mod chacha20poly1305;

verus! {

/// How an encryption or decryption call fails.
///
/// No call is ever retried internally and no partial output is returned:
/// on failure the operation has had no observable effect.
#[derive(Clone, Copy, Debug, PartialEq, Eq, Structural)]
pub enum CipherError {
    /// The key is not exactly `key_length()` bytes long.
    KeyLength,
    /// The IV/nonce is not exactly `iv_length()` bytes long.
    IvLength,
    /// The backing cipher rejected the request; for the variants here this
    /// happens exactly when the plaintext is longer than the construction
    /// supports.
    Backend,
    /// The ciphertext was rejected on decryption (AEAD tag mismatch, or a
    /// buffer no encryption could have produced).
    Authentication,
}

/// An all-zero byte sequence of length `n`.
pub open spec fn zero_seq(n: nat) -> Seq<u8> {
    Seq::new(n, |i: int| 0u8)
}

/// An all-zero IV of length `n`, as a fresh buffer.
pub fn zero_iv(n: usize) -> (r: Vec<u8>)
    ensures
        r@ == zero_seq(n as nat),
{
    let mut v: Vec<u8> = Vec::new();
    while v.len() < n
        invariant
            v@.len() <= n,
            v@ == zero_seq(v@.len()),
        decreases n - v@.len(),
    {
        v.push(0u8);
        proof {
            assert(v@ =~= zero_seq(v@.len()));
        }
    }
    v
}

/// A stateless cipher: every call is independent and sets up a fresh cipher
/// context internally.
///
/// Each implementor fixes a cipher identity (key, IV and block lengths) and
/// an encryption function `spec_encrypt`.  `encrypt` returns a newly
/// allocated ciphertext; for AEAD variants it is the plaintext length plus
/// `spec_tag_length()` bytes of authentication tag, appended after the
/// ciphertext.  `decrypt` accepts exactly the buffers `encrypt` produces and
/// returns the original plaintext.
pub trait Crypter {
    /// Exact key length in bytes.
    spec fn spec_key_length() -> usize;

    /// Exact IV/nonce length in bytes.
    spec fn spec_iv_length() -> usize;

    /// Block length of the underlying primitive in bytes.
    spec fn spec_block_length() -> usize;

    /// Bytes the ciphertext is longer than the plaintext (the AEAD tag;
    /// zero for plain stream modes).
    spec fn spec_tag_length() -> usize;

    /// Whether the backing cipher accepts a plaintext of length `n`.
    spec fn spec_fits(n: nat) -> bool;

    /// The ciphertext for `(key, iv, pt)`; a fixed function of its
    /// arguments alone.
    spec fn spec_encrypt(key: Seq<u8>, iv: Seq<u8>, pt: Seq<u8>) -> Seq<u8>;

    fn key_length() -> (r: usize)
        ensures
            r == Self::spec_key_length(),
    ;

    fn iv_length() -> (r: usize)
        ensures
            r == Self::spec_iv_length(),
    ;

    fn block_length() -> (r: usize)
        ensures
            r == Self::spec_block_length(),
    ;

    /// Encrypt `data` under `key` and `iv`, returning a fresh buffer.
    ///
    /// Succeeds exactly when the key and IV have their exact lengths and
    /// the plaintext is not longer than the backing cipher supports.
    fn encrypt(key: &[u8], iv: &[u8], data: &[u8]) -> (r: Result<Vec<u8>, CipherError>)
        ensures
            r is Ok <==> (key@.len() == Self::spec_key_length()
                && iv@.len() == Self::spec_iv_length() && Self::spec_fits(data@.len())),
            r matches Ok(ct) ==> ct@ == Self::spec_encrypt(key@, iv@, data@)
                && ct@.len() == data@.len() + Self::spec_tag_length(),
            r == Err::<Vec<u8>, CipherError>(CipherError::KeyLength) <==> key@.len()
                != Self::spec_key_length(),
            r == Err::<Vec<u8>, CipherError>(CipherError::IvLength) <==> (key@.len()
                == Self::spec_key_length() && iv@.len() != Self::spec_iv_length()),
            r == Err::<Vec<u8>, CipherError>(CipherError::Backend) <==> (key@.len()
                == Self::spec_key_length() && iv@.len() == Self::spec_iv_length()
                && !Self::spec_fits(data@.len())),
    ;

    /// Decrypt a buffer produced by `encrypt` under the same `key` and `iv`.
    ///
    /// Whenever `data` is the encryption of some plaintext under `(key, iv)`,
    /// the call succeeds and returns exactly that plaintext; and a returned
    /// plaintext always re-encrypts to `data`, is no longer than the variant
    /// accepts, and is the only plaintext whose encryption `data` is — so a
    /// wrong plaintext is never returned silently, and the result is a
    /// function of `(key, iv, data)` alone.
    fn decrypt(key: &[u8], iv: &[u8], data: &[u8]) -> (r: Result<Vec<u8>, CipherError>)
        ensures
            r matches Ok(pt) ==> key@.len() == Self::spec_key_length()
                && iv@.len() == Self::spec_iv_length()
                && data@ == Self::spec_encrypt(key@, iv@, pt@)
                && data@.len() == pt@.len() + Self::spec_tag_length()
                && Self::spec_fits(pt@.len()),
            r matches Ok(p) ==> forall|pt: Seq<u8>|
                data@ == #[trigger] Self::spec_encrypt(key@, iv@, pt) ==> p@ == pt,
            forall|pt: Seq<u8>| (key@.len() == Self::spec_key_length()
                && iv@.len() == Self::spec_iv_length() && Self::spec_fits(pt.len())
                && data@ == #[trigger] Self::spec_encrypt(key@, iv@, pt)
                && data@.len() == pt.len() + Self::spec_tag_length())
                ==> (r matches Ok(p) && p@ == pt),
            r == Err::<Vec<u8>, CipherError>(CipherError::KeyLength) <==> key@.len()
                != Self::spec_key_length(),
            r == Err::<Vec<u8>, CipherError>(CipherError::IvLength) <==> (key@.len()
                == Self::spec_key_length() && iv@.len() != Self::spec_iv_length()),
            r matches Err(e) ==> ((key@.len() == Self::spec_key_length() && iv@.len()
                == Self::spec_iv_length()) ==> e == CipherError::Authentication),
    ;

    /// `encrypt` with an implicit all-zero IV.
    ///
    /// Reusing a zero IV across calls with the same key forfeits
    /// confidentiality for every mode here except AES-GCM-SIV; a key must be
    /// used for at most one onetime call unless the cipher is
    /// nonce-misuse-resistant.
    fn onetime_encrypt(key: &[u8], data: &[u8]) -> (r: Result<Vec<u8>, CipherError>)
        ensures
            r is Ok <==> (key@.len() == Self::spec_key_length()
                && Self::spec_fits(data@.len())),
            r matches Ok(ct) ==> ct@ == Self::spec_encrypt(
                key@,
                zero_seq(Self::spec_iv_length() as nat),
                data@,
            ) && ct@.len() == data@.len() + Self::spec_tag_length(),
            r == Err::<Vec<u8>, CipherError>(CipherError::KeyLength) <==> key@.len()
                != Self::spec_key_length(),
            r == Err::<Vec<u8>, CipherError>(CipherError::Backend) <==> (key@.len()
                == Self::spec_key_length() && !Self::spec_fits(data@.len())),
        {
            let iv = zero_iv(Self::iv_length());
            Self::encrypt(key, iv.as_slice(), data)
        }

    /// `decrypt` with an implicit all-zero IV: it returns exactly what
    /// `decrypt` returns for a zero IV of the variant's length.
    fn onetime_decrypt(key: &[u8], data: &[u8]) -> (r: Result<Vec<u8>, CipherError>)
        ensures
            r matches Ok(pt) ==> key@.len() == Self::spec_key_length()
                && data@ == Self::spec_encrypt(key@, zero_seq(Self::spec_iv_length() as nat), pt@)
                && data@.len() == pt@.len() + Self::spec_tag_length()
                && Self::spec_fits(pt@.len()),
            r matches Ok(p) ==> forall|pt: Seq<u8>|
                data@ == #[trigger] Self::spec_encrypt(
                    key@,
                    zero_seq(Self::spec_iv_length() as nat),
                    pt,
                ) ==> p@ == pt,
            forall|pt: Seq<u8>| (key@.len() == Self::spec_key_length()
                && Self::spec_fits(pt.len())
                && data@ == #[trigger] Self::spec_encrypt(
                    key@,
                    zero_seq(Self::spec_iv_length() as nat),
                    pt,
                ) && data@.len() == pt.len() + Self::spec_tag_length())
                ==> (r matches Ok(p) && p@ == pt),
            r == Err::<Vec<u8>, CipherError>(CipherError::KeyLength) <==> key@.len()
                != Self::spec_key_length(),
            r matches Err(e) ==> (key@.len() == Self::spec_key_length()
                ==> e == CipherError::Authentication),
        {
            let iv = zero_iv(Self::iv_length());
            Self::decrypt(key, iv.as_slice(), data)
        }
}

/// A reusable cipher adapter: the same operations as [`Crypter`], performed
/// in place through a long-lived object.
///
/// An adapter instance owns its cipher state exclusively; every call rebinds
/// it to the key and IV passed for that call, so calls with different keys
/// never affect one another.  One instance must not be shared between
/// threads without external exclusion.
pub trait StatefulCrypter {
    /// Exact key length in bytes.
    spec fn spec_key_length() -> usize;

    /// Exact IV/nonce length in bytes.
    spec fn spec_iv_length() -> usize;

    /// Block length of the underlying primitive in bytes.
    spec fn spec_block_length() -> usize;

    /// Whether the backing cipher accepts a buffer of length `n`.
    spec fn spec_fits(n: nat) -> bool;

    /// The ciphertext for `(key, iv, pt)`; a fixed function of its
    /// arguments alone.
    spec fn spec_encrypt(key: Seq<u8>, iv: Seq<u8>, pt: Seq<u8>) -> Seq<u8>;

    fn key_length() -> (r: usize)
        ensures
            r == Self::spec_key_length(),
    ;

    fn iv_length() -> (r: usize)
        ensures
            r == Self::spec_iv_length(),
    ;

    fn block_length() -> (r: usize)
        ensures
            r == Self::spec_block_length(),
    ;

    /// Encrypt `data` in place under `key` and `iv`.
    ///
    /// Succeeds exactly when the key and IV have their exact lengths and the
    /// buffer is not longer than the backing cipher supports; on failure the
    /// buffer is left untouched.
    fn encrypt(&mut self, key: &[u8], iv: &[u8], data: &mut Vec<u8>) -> (r: Result<
        (),
        CipherError,
    >)
        ensures
            r is Ok <==> (key@.len() == Self::spec_key_length()
                && iv@.len() == Self::spec_iv_length() && Self::spec_fits(old(data)@.len())),
            r is Ok ==> final(data)@ == Self::spec_encrypt(key@, iv@, old(data)@),
            r is Err ==> final(data)@ == old(data)@,
            r == Err::<(), CipherError>(CipherError::KeyLength) <==> key@.len()
                != Self::spec_key_length(),
            r == Err::<(), CipherError>(CipherError::IvLength) <==> (key@.len()
                == Self::spec_key_length() && iv@.len() != Self::spec_iv_length()),
            r == Err::<(), CipherError>(CipherError::Backend) <==> (key@.len()
                == Self::spec_key_length() && iv@.len() == Self::spec_iv_length()
                && !Self::spec_fits(old(data)@.len())),
    ;

    /// Decrypt `data` in place under `key` and `iv`.
    ///
    /// Whenever the buffer is the encryption of some plaintext under
    /// `(key, iv)`, the call succeeds and leaves exactly that plaintext in
    /// the buffer; on failure the buffer is left untouched.
    fn decrypt(&mut self, key: &[u8], iv: &[u8], data: &mut Vec<u8>) -> (r: Result<
        (),
        CipherError,
    >)
        ensures
            r is Ok <==> (key@.len() == Self::spec_key_length()
                && iv@.len() == Self::spec_iv_length() && Self::spec_fits(old(data)@.len())),
            r is Ok ==> old(data)@ == Self::spec_encrypt(key@, iv@, final(data)@),
            r is Ok ==> forall|pt: Seq<u8>|
                old(data)@ == #[trigger] Self::spec_encrypt(key@, iv@, pt) ==> final(data)@ == pt,
            r is Err ==> final(data)@ == old(data)@,
            r == Err::<(), CipherError>(CipherError::KeyLength) <==> key@.len()
                != Self::spec_key_length(),
            r == Err::<(), CipherError>(CipherError::IvLength) <==> (key@.len()
                == Self::spec_key_length() && iv@.len() != Self::spec_iv_length()),
            r == Err::<(), CipherError>(CipherError::Backend) <==> (key@.len()
                == Self::spec_key_length() && iv@.len() == Self::spec_iv_length()
                && !Self::spec_fits(old(data)@.len())),
    ;

    /// In-place `encrypt` with an implicit all-zero IV.
    ///
    /// The same nonce-reuse warning as for [`Crypter::onetime_encrypt`]
    /// applies: a key must be used for at most one onetime call.
    fn onetime_encrypt(&mut self, key: &[u8], data: &mut Vec<u8>) -> (r: Result<(), CipherError>)
        ensures
            r is Ok <==> (key@.len() == Self::spec_key_length()
                && Self::spec_fits(old(data)@.len())),
            r is Ok ==> final(data)@ == Self::spec_encrypt(
                key@,
                zero_seq(Self::spec_iv_length() as nat),
                old(data)@,
            ),
            r is Err ==> final(data)@ == old(data)@,
            r == Err::<(), CipherError>(CipherError::KeyLength) <==> key@.len()
                != Self::spec_key_length(),
            r == Err::<(), CipherError>(CipherError::Backend) <==> (key@.len()
                == Self::spec_key_length() && !Self::spec_fits(old(data)@.len())),
        {
            let iv = zero_iv(Self::iv_length());
            self.encrypt(key, iv.as_slice(), data)
        }

    /// In-place `decrypt` with an implicit all-zero IV.
    fn onetime_decrypt(&mut self, key: &[u8], data: &mut Vec<u8>) -> (r: Result<(), CipherError>)
        ensures
            r is Ok <==> (key@.len() == Self::spec_key_length()
                && Self::spec_fits(old(data)@.len())),
            r is Ok ==> old(data)@ == Self::spec_encrypt(
                key@,
                zero_seq(Self::spec_iv_length() as nat),
                final(data)@,
            ),
            r is Ok ==> forall|pt: Seq<u8>|
                old(data)@ == #[trigger] Self::spec_encrypt(
                    key@,
                    zero_seq(Self::spec_iv_length() as nat),
                    pt,
                ) ==> final(data)@ == pt,
            r is Err ==> final(data)@ == old(data)@,
            r == Err::<(), CipherError>(CipherError::KeyLength) <==> key@.len()
                != Self::spec_key_length(),
            r == Err::<(), CipherError>(CipherError::Backend) <==> (key@.len()
                == Self::spec_key_length() && !Self::spec_fits(old(data)@.len())),
        {
            let iv = zero_iv(Self::iv_length());
            self.decrypt(key, iv.as_slice(), data)
        }
}

} // verus!
