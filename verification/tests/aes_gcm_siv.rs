use crypter::aes_gcm_siv::Aes128GcmSiv;
use crypter::aes_gcm_siv::Aes256GcmSiv;
use crypter::CipherError;
use crypter::Crypter;
use rand::thread_rng;
use rand::RngCore;

#[test]
fn aes_gcm_siv_aes128gcm_works() -> Result<(), CipherError> {
    let mut key = vec![0; Aes128GcmSiv::key_length()];
    thread_rng().fill_bytes(&mut key);

    let mut iv = vec![0; Aes128GcmSiv::iv_length()];
    thread_rng().fill_bytes(&mut iv);

    let pt = b"this is a super secret message";
    let ct = Aes128GcmSiv::encrypt(&key, &iv, pt)?;
    let xt = Aes128GcmSiv::decrypt(&key, &iv, &ct)?;

    assert_eq!(&pt[..], &xt[..]);

    Ok(())
}

#[test]
fn aes_gcm_siv_aes256gcm_works() -> Result<(), CipherError> {
    let mut key = vec![0; Aes256GcmSiv::key_length()];
    thread_rng().fill_bytes(&mut key);

    let mut iv = vec![0; Aes256GcmSiv::iv_length()];
    thread_rng().fill_bytes(&mut iv);

    let pt = b"this is a super secret message";
    let ct = Aes256GcmSiv::encrypt(&key, &iv, pt)?;
    let xt = Aes256GcmSiv::decrypt(&key, &iv, &ct)?;

    assert_eq!(&pt[..], &xt[..]);

    Ok(())
}

#[test]
fn aes_gcm_siv_lengths() {
    assert_eq!(Aes128GcmSiv::key_length(), 16);
    assert_eq!(Aes128GcmSiv::iv_length(), 12);
    assert_eq!(Aes128GcmSiv::block_length(), 16);
    assert_eq!(Aes256GcmSiv::key_length(), 32);
    assert_eq!(Aes256GcmSiv::iv_length(), 12);
    assert_eq!(Aes256GcmSiv::block_length(), 16);
}

#[test]
fn aes_gcm_siv_tamper_detection() {
    let mut key = vec![0; Aes128GcmSiv::key_length()];
    thread_rng().fill_bytes(&mut key);

    let mut iv = vec![0; Aes128GcmSiv::iv_length()];
    thread_rng().fill_bytes(&mut iv);

    let pt = b"this is a super secret message";
    let ct = Aes128GcmSiv::encrypt(&key, &iv, pt).unwrap();
    assert_eq!(ct.len(), pt.len() + 16);

    for i in 0..ct.len() {
        let mut bad = ct.clone();
        bad[i] ^= 0x01;
        assert_eq!(
            Aes128GcmSiv::decrypt(&key, &iv, &bad),
            Err(CipherError::Authentication)
        );
    }
}

#[test]
fn aes_gcm_siv_length_contract() {
    let pt = b"data";
    assert_eq!(
        Aes128GcmSiv::encrypt(&[0u8; 12], &[0u8; 12], pt),
        Err(CipherError::KeyLength)
    );
    assert_eq!(
        Aes128GcmSiv::encrypt(&[0u8; 16], &[0u8; 16], pt),
        Err(CipherError::IvLength)
    );
    assert_eq!(
        Aes256GcmSiv::decrypt(&[0u8; 31], &[0u8; 12], pt),
        Err(CipherError::KeyLength)
    );
    assert_eq!(
        Aes256GcmSiv::decrypt(&[0u8; 32], &[0u8; 0], pt),
        Err(CipherError::IvLength)
    );
}

#[test]
fn aes_gcm_siv_onetime_matches_zero_iv() {
    let mut key = vec![0; Aes256GcmSiv::key_length()];
    thread_rng().fill_bytes(&mut key);

    let pt = b"this is a super secret message";
    let zero_iv = vec![0u8; Aes256GcmSiv::iv_length()];

    let a = Aes256GcmSiv::onetime_encrypt(&key, pt).unwrap();
    let b = Aes256GcmSiv::encrypt(&key, &zero_iv, pt).unwrap();
    assert_eq!(a, b);

    let xt = Aes256GcmSiv::onetime_decrypt(&key, &a).unwrap();
    assert_eq!(&xt[..], &pt[..]);
}

#[test]
fn aes_gcm_siv_ciphertext_layout() {
    let pt = b"this is a super secret message";

    let key128 = vec![5u8; 16];
    let iv = vec![6u8; 12];
    let ct = Aes128GcmSiv::encrypt(&key128, &iv, pt).unwrap();
    assert_eq!(ct.len(), pt.len() + 16);
    assert_ne!(&ct[..pt.len()], &pt[..]);
    let xt = Aes128GcmSiv::decrypt(&key128, &iv, &ct).unwrap();
    assert_eq!(&xt[..], &pt[..]);

    let key256 = vec![7u8; 32];
    let ct = Aes256GcmSiv::encrypt(&key256, &iv, pt).unwrap();
    assert_eq!(ct.len(), pt.len() + 16);
    assert_ne!(&ct[..pt.len()], &pt[..]);
    let xt = Aes256GcmSiv::decrypt(&key256, &iv, &ct).unwrap();
    assert_eq!(&xt[..], &pt[..]);
}
