use crypter::chacha20poly1305::ChaCha20Poly1305;
use crypter::chacha20poly1305::XChaCha20Poly1305;
use crypter::CipherError;
use crypter::Crypter;
use rand::thread_rng;
use rand::RngCore;

#[test]
fn chacha20poly1305_works() -> Result<(), CipherError> {
    let mut key = vec![0; ChaCha20Poly1305::key_length()];
    thread_rng().fill_bytes(&mut key);

    let mut iv = vec![0; ChaCha20Poly1305::iv_length()];
    thread_rng().fill_bytes(&mut iv);

    let pt = b"this is a super secret message";
    let ct = ChaCha20Poly1305::encrypt(&key, &iv, pt)?;
    let xt = ChaCha20Poly1305::decrypt(&key, &iv, &ct)?;

    assert_eq!(&pt[..], &xt[..]);

    Ok(())
}

#[test]
fn xchacha20poly1305_works() -> Result<(), CipherError> {
    let mut key = vec![0; XChaCha20Poly1305::key_length()];
    thread_rng().fill_bytes(&mut key);

    let mut iv = vec![0; XChaCha20Poly1305::iv_length()];
    thread_rng().fill_bytes(&mut iv);

    let pt = b"this is a super secret message";
    let ct = XChaCha20Poly1305::encrypt(&key, &iv, pt)?;
    let xt = XChaCha20Poly1305::decrypt(&key, &iv, &ct)?;

    assert_eq!(&pt[..], &xt[..]);

    Ok(())
}

#[test]
fn chacha20poly1305_lengths() {
    assert_eq!(ChaCha20Poly1305::key_length(), 32);
    assert_eq!(ChaCha20Poly1305::iv_length(), 12);
    assert_eq!(ChaCha20Poly1305::block_length(), 64);
    assert_eq!(XChaCha20Poly1305::key_length(), 32);
    assert_eq!(XChaCha20Poly1305::iv_length(), 24);
    assert_eq!(XChaCha20Poly1305::block_length(), 64);
}

#[test]
fn chacha20poly1305_tamper_detection() {
    let mut key = vec![0; ChaCha20Poly1305::key_length()];
    thread_rng().fill_bytes(&mut key);

    let mut iv = vec![0; ChaCha20Poly1305::iv_length()];
    thread_rng().fill_bytes(&mut iv);

    let pt = b"this is a super secret message";
    let ct = ChaCha20Poly1305::encrypt(&key, &iv, pt).unwrap();
    assert_eq!(ct.len(), pt.len() + 16);

    for i in 0..ct.len() {
        let mut bad = ct.clone();
        bad[i] ^= 0x80;
        assert_eq!(
            ChaCha20Poly1305::decrypt(&key, &iv, &bad),
            Err(CipherError::Authentication)
        );
    }
}

#[test]
fn chacha20poly1305_length_contract() {
    let pt = b"data";
    assert_eq!(
        ChaCha20Poly1305::encrypt(&[0u8; 16], &[0u8; 12], pt),
        Err(CipherError::KeyLength)
    );
    assert_eq!(
        ChaCha20Poly1305::encrypt(&[0u8; 32], &[0u8; 24], pt),
        Err(CipherError::IvLength)
    );
    assert_eq!(
        XChaCha20Poly1305::encrypt(&[0u8; 32], &[0u8; 12], pt),
        Err(CipherError::IvLength)
    );
    assert_eq!(
        XChaCha20Poly1305::decrypt(&[0u8; 24], &[0u8; 24], pt),
        Err(CipherError::KeyLength)
    );
}

#[test]
fn xchacha20poly1305_onetime_matches_zero_iv() {
    let mut key = vec![0; XChaCha20Poly1305::key_length()];
    thread_rng().fill_bytes(&mut key);

    let pt = b"this is a super secret message";
    let zero_iv = vec![0u8; XChaCha20Poly1305::iv_length()];

    let a = XChaCha20Poly1305::onetime_encrypt(&key, pt).unwrap();
    let b = XChaCha20Poly1305::encrypt(&key, &zero_iv, pt).unwrap();
    assert_eq!(a, b);

    let xt = XChaCha20Poly1305::onetime_decrypt(&key, &a).unwrap();
    assert_eq!(&xt[..], &pt[..]);
}

#[test]
fn chacha20poly1305_ciphertext_layout() {
    let pt = b"this is a super secret message";
    let key = vec![8u8; 32];

    let iv12 = vec![9u8; 12];
    let ct = ChaCha20Poly1305::encrypt(&key, &iv12, pt).unwrap();
    assert_eq!(ct.len(), pt.len() + 16);
    assert_ne!(&ct[..pt.len()], &pt[..]);
    let xt = ChaCha20Poly1305::decrypt(&key, &iv12, &ct).unwrap();
    assert_eq!(&xt[..], &pt[..]);

    let iv24 = vec![10u8; 24];
    let ct = XChaCha20Poly1305::encrypt(&key, &iv24, pt).unwrap();
    assert_eq!(ct.len(), pt.len() + 16);
    assert_ne!(&ct[..pt.len()], &pt[..]);
    let xt = XChaCha20Poly1305::decrypt(&key, &iv24, &ct).unwrap();
    assert_eq!(&xt[..], &pt[..]);

    let empty = XChaCha20Poly1305::encrypt(&key, &iv24, &[]).unwrap();
    assert_eq!(empty.len(), 16);
    assert_eq!(XChaCha20Poly1305::decrypt(&key, &iv24, &empty).unwrap().len(), 0);
}
