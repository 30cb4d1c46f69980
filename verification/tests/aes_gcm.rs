use crypter::aes_gcm::Aes128Gcm;
use crypter::aes_gcm::Aes256Gcm;
use crypter::CipherError;
use crypter::Crypter;
use rand::thread_rng;
use rand::RngCore;

#[test]
fn aes128gcm_works() -> Result<(), CipherError> {
    let mut key = vec![0; Aes128Gcm::key_length()];
    thread_rng().fill_bytes(&mut key);

    let mut iv = vec![0; Aes128Gcm::iv_length()];
    thread_rng().fill_bytes(&mut iv);

    let pt = b"this is a super secret message";
    let ct = Aes128Gcm::encrypt(&key, &iv, pt)?;
    let xt = Aes128Gcm::decrypt(&key, &iv, &ct)?;

    assert_eq!(&pt[..], &xt[..]);

    Ok(())
}

#[test]
fn aes256gcm_works() -> Result<(), CipherError> {
    let mut key = vec![0; Aes256Gcm::key_length()];
    thread_rng().fill_bytes(&mut key);

    let mut iv = vec![0; Aes256Gcm::iv_length()];
    thread_rng().fill_bytes(&mut iv);

    let pt = b"this is a super secret message";
    let ct = Aes256Gcm::encrypt(&key, &iv, pt)?;
    let xt = Aes256Gcm::decrypt(&key, &iv, &ct)?;

    assert_eq!(&pt[..], &xt[..]);

    Ok(())
}

#[test]
fn aes128gcm_lengths() {
    assert_eq!(Aes128Gcm::key_length(), 16);
    assert_eq!(Aes128Gcm::iv_length(), 12);
    assert_eq!(Aes128Gcm::block_length(), 16);
    assert_eq!(Aes256Gcm::key_length(), 32);
    assert_eq!(Aes256Gcm::iv_length(), 12);
    assert_eq!(Aes256Gcm::block_length(), 16);
}

#[test]
fn aes128gcm_ciphertext_layout() {
    let key = vec![1u8; 16];
    let iv = vec![2u8; 12];
    let pt = b"this is a super secret message";

    let ct = Aes128Gcm::encrypt(&key, &iv, pt).unwrap();
    assert_eq!(ct.len(), pt.len() + 16);
    assert_ne!(&ct[..pt.len()], &pt[..]);

    let xt = Aes128Gcm::decrypt(&key, &iv, &ct).unwrap();
    assert_eq!(&xt[..], &pt[..]);

    let empty = Aes128Gcm::encrypt(&key, &iv, &[]).unwrap();
    assert_eq!(empty.len(), 16);
    assert_eq!(Aes128Gcm::decrypt(&key, &iv, &empty).unwrap().len(), 0);
}

#[test]
fn aes128gcm_tamper_detection() {
    let mut key = vec![0; Aes128Gcm::key_length()];
    thread_rng().fill_bytes(&mut key);

    let mut iv = vec![0; Aes128Gcm::iv_length()];
    thread_rng().fill_bytes(&mut iv);

    let pt = b"this is a super secret message";
    let ct = Aes128Gcm::encrypt(&key, &iv, pt).unwrap();
    assert_eq!(ct.len(), pt.len() + 16);

    for i in 0..ct.len() {
        for bit in 0..8 {
            let mut bad = ct.clone();
            bad[i] ^= 1 << bit;
            assert_eq!(
                Aes128Gcm::decrypt(&key, &iv, &bad),
                Err(CipherError::Authentication)
            );
        }
    }

    let short = &ct[..15];
    assert_eq!(
        Aes128Gcm::decrypt(&key, &iv, short),
        Err(CipherError::Authentication)
    );
}

#[test]
fn aes128gcm_length_contract() {
    let pt = b"data";
    assert_eq!(
        Aes128Gcm::encrypt(&[0u8; 15], &[0u8; 12], pt),
        Err(CipherError::KeyLength)
    );
    assert_eq!(
        Aes128Gcm::encrypt(&[0u8; 17], &[0u8; 12], pt),
        Err(CipherError::KeyLength)
    );
    assert_eq!(
        Aes128Gcm::encrypt(&[0u8; 16], &[0u8; 11], pt),
        Err(CipherError::IvLength)
    );
    assert_eq!(
        Aes128Gcm::decrypt(&[0u8; 15], &[0u8; 12], pt),
        Err(CipherError::KeyLength)
    );
    assert_eq!(
        Aes128Gcm::decrypt(&[0u8; 16], &[0u8; 16], pt),
        Err(CipherError::IvLength)
    );
    assert_eq!(
        Aes256Gcm::encrypt(&[0u8; 16], &[0u8; 12], pt),
        Err(CipherError::KeyLength)
    );
    assert_eq!(
        Aes256Gcm::decrypt(&[0u8; 32], &[0u8; 13], pt),
        Err(CipherError::IvLength)
    );
}

#[test]
fn aes128gcm_onetime_matches_zero_iv() {
    let mut key = vec![0; Aes128Gcm::key_length()];
    thread_rng().fill_bytes(&mut key);

    let pt = b"this is a super secret message";
    let zero_iv = vec![0u8; Aes128Gcm::iv_length()];

    let a = Aes128Gcm::onetime_encrypt(&key, pt).unwrap();
    let b = Aes128Gcm::encrypt(&key, &zero_iv, pt).unwrap();
    assert_eq!(a, b);

    let xt = Aes128Gcm::onetime_decrypt(&key, &a).unwrap();
    assert_eq!(&xt[..], &pt[..]);
}

#[test]
fn aes256gcm_ciphertext_layout() {
    let key = vec![3u8; 32];
    let iv = vec![4u8; 12];
    let pt = b"this is a super secret message";

    let ct = Aes256Gcm::encrypt(&key, &iv, pt).unwrap();
    assert_eq!(ct.len(), pt.len() + 16);
    assert_ne!(&ct[..pt.len()], &pt[..]);

    let xt = Aes256Gcm::decrypt(&key, &iv, &ct).unwrap();
    assert_eq!(&xt[..], &pt[..]);
}
