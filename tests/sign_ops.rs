use pqembed::{Error, Falcon1024, Falcon512, MlDsa44, MlDsa65, MlDsa87, SignVariant};

#[test]
fn test_mldsa44_keypair() {
    let mut pk = [0u8; MlDsa44::PUBLIC_KEY_LEN];
    let mut sk = [0u8; MlDsa44::SECRET_KEY_LEN];
    let result = MlDsa44::keypair(&mut pk, &mut sk);
    assert!(result.is_ok(), "ML-DSA-44 keypair generation failed");
    assert!(!pk.iter().all(|&x| x == 0), "Public key should not be all zeros");
    assert!(!sk.iter().all(|&x| x == 0), "Secret key should not be all zeros");
}

#[test]
fn test_mldsa65_keypair() {
    let mut pk = [0u8; MlDsa65::PUBLIC_KEY_LEN];
    let mut sk = [0u8; MlDsa65::SECRET_KEY_LEN];
    let result = MlDsa65::keypair(&mut pk, &mut sk);
    assert!(result.is_ok(), "ML-DSA-65 keypair generation failed");
    assert!(!pk.iter().all(|&x| x == 0), "Public key should not be all zeros");
    assert!(!sk.iter().all(|&x| x == 0), "Secret key should not be all zeros");
}

#[test]
fn test_mldsa87_keypair() {
    let mut pk = [0u8; MlDsa87::PUBLIC_KEY_LEN];
    let mut sk = [0u8; MlDsa87::SECRET_KEY_LEN];
    let result = MlDsa87::keypair(&mut pk, &mut sk);
    assert!(result.is_ok(), "ML-DSA-87 keypair generation failed");
    assert!(!pk.iter().all(|&x| x == 0), "Public key should not be all zeros");
    assert!(!sk.iter().all(|&x| x == 0), "Secret key should not be all zeros");
}

#[test]
fn test_falcon512_keypair() {
    let mut pk = [0u8; Falcon512::PUBLIC_KEY_LEN];
    let mut sk = [0u8; Falcon512::SECRET_KEY_LEN];
    let result = Falcon512::keypair(&mut pk, &mut sk);
    assert!(result.is_ok(), "Falcon-512 keypair generation failed");
    assert!(!pk.iter().all(|&x| x == 0), "Public key should not be all zeros");
    assert!(!sk.iter().all(|&x| x == 0), "Secret key should not be all zeros");
}

#[test]
fn test_falcon1024_keypair() {
    let mut pk = [0u8; Falcon1024::PUBLIC_KEY_LEN];
    let mut sk = [0u8; Falcon1024::SECRET_KEY_LEN];
    let result = Falcon1024::keypair(&mut pk, &mut sk);
    assert!(result.is_ok(), "Falcon-1024 keypair generation failed");
    assert!(!pk.iter().all(|&x| x == 0), "Public key should not be all zeros");
    assert!(!sk.iter().all(|&x| x == 0), "Secret key should not be all zeros");
}

#[test]
fn test_mldsa44_sign_verify() {
    let mut pk = [0u8; 1312];
    let mut sk = [0u8; 2560];
    MlDsa44::keypair(&mut pk, &mut sk).unwrap();
    let msg = b"a fixed message of thirty-seven bytes";
    assert_eq!(msg.len(), 37);
    let mut sig = [0u8; MlDsa44::SIGNATURE_LEN_MAX];
    let n = MlDsa44::sign(&mut sig, msg, &sk).unwrap();
    assert!(n <= 2420);
    assert_eq!(n, 2420);
    assert_eq!(MlDsa44::verify(&sig[..n], msg, &pk), Ok(true));
    let mut other = *msg;
    other[5] ^= 0x01;
    assert_eq!(MlDsa44::verify(&sig[..n], &other, &pk), Ok(false));
}

#[test]
fn test_falcon512_sign_verify() {
    let mut pk = [0u8; 897];
    let mut sk = [0u8; 1281];
    Falcon512::keypair(&mut pk, &mut sk).unwrap();
    let msg = b"Hello, world!";
    let mut sig = [0u8; 666];
    let n = Falcon512::sign(&mut sig, msg, &sk).unwrap();
    assert_eq!(n, 666);
    assert_eq!(Falcon512::verify(&sig[..n], msg, &pk), Ok(true));
    assert_eq!(Falcon512::verify(&sig[..n], b"Hello, world?", &pk), Ok(false));
}

#[test]
fn mldsa65_mldsa87_falcon1024_sign_verify() {
    let msg = b"post-quantum";
    let mut pk = [0u8; 1952];
    let mut sk = [0u8; 4032];
    MlDsa65::keypair(&mut pk, &mut sk).unwrap();
    let mut sig = [0u8; 3309];
    let n = MlDsa65::sign(&mut sig, msg, &sk).unwrap();
    assert_eq!(n, 3309);
    assert_eq!(MlDsa65::verify(&sig, msg, &pk), Ok(true));
    assert_eq!(MlDsa65::verify(&sig, b"post-quantun", &pk), Ok(false));

    let mut pk = [0u8; 2592];
    let mut sk = [0u8; 4896];
    MlDsa87::keypair(&mut pk, &mut sk).unwrap();
    let mut sig = [0u8; 4627];
    let n = MlDsa87::sign(&mut sig, msg, &sk).unwrap();
    assert_eq!(n, 4627);
    assert_eq!(MlDsa87::verify(&sig, msg, &pk), Ok(true));

    let mut pk = [0u8; 1793];
    let mut sk = [0u8; 2305];
    Falcon1024::keypair(&mut pk, &mut sk).unwrap();
    let mut sig = [0u8; 1280];
    let n = Falcon1024::sign(&mut sig, msg, &sk).unwrap();
    assert_eq!(n, 1280);
    assert_eq!(Falcon1024::verify(&sig, msg, &pk), Ok(true));
    assert_eq!(Falcon1024::verify(&sig, b"", &pk), Ok(false));
}

#[test]
fn sign_buffer_checks() {
    let sk = [0u8; 2560];
    let mut sig = [3u8; 2419];
    assert_eq!(MlDsa44::sign(&mut sig, b"m", &sk), Err(Error::BufferTooSmall));
    assert!(sig.iter().all(|&x| x == 3));
    let mut sig = [3u8; 2420];
    assert_eq!(MlDsa44::sign(&mut sig, b"m", &sk[..2559]), Err(Error::InvalidInput));
    assert!(sig.iter().all(|&x| x == 3));
}

#[test]
fn sign_into_larger_buffer_leaves_tail() {
    let mut pk = [0u8; 897];
    let mut sk = [0u8; 1281];
    Falcon512::keypair(&mut pk, &mut sk).unwrap();
    let mut sig = [0xAAu8; 700];
    let n = Falcon512::sign(&mut sig, b"tail", &sk).unwrap();
    assert_eq!(n, 666);
    assert!(sig[n..].iter().all(|&x| x == 0xAA));
    assert_eq!(Falcon512::verify(&sig[..n], b"tail", &pk), Ok(true));
}

#[test]
fn verify_tells_malformed_from_rejected() {
    let mut pk = [0u8; 1312];
    let mut sk = [0u8; 2560];
    MlDsa44::keypair(&mut pk, &mut sk).unwrap();
    let mut sig = [0u8; 2420];
    MlDsa44::sign(&mut sig, b"m", &sk).unwrap();
    assert_eq!(MlDsa44::verify(&sig, b"m", &pk[..1311]), Err(Error::InvalidInput));
    assert_eq!(MlDsa44::verify(&[], b"m", &pk), Err(Error::InvalidInput));
    let long = [0u8; 2421];
    assert_eq!(MlDsa44::verify(&long, b"m", &pk), Err(Error::InvalidInput));
    assert_eq!(MlDsa44::verify(&sig[..100], b"m", &pk), Ok(false));
    let mut bad = sig;
    bad[10] ^= 0x80;
    assert_eq!(MlDsa44::verify(&bad, b"m", &pk), Ok(false));
}

#[test]
fn sign_variant_descriptors() {
    let d = SignVariant::MlDsa44.descriptor();
    assert_eq!((d.public_key_len, d.secret_key_len, d.signature_len_max), (1312, 2560, 2420));
    let d = SignVariant::Falcon1024.descriptor();
    assert_eq!((d.public_key_len, d.secret_key_len, d.signature_len_max), (1793, 2305, 1280));
    let v = SignVariant::MlDsa87;
    let mut pk = vec![0u8; 2592];
    let mut sk = vec![0u8; 4896];
    v.keypair(&mut pk, &mut sk).unwrap();
    let mut sig = vec![0u8; 4627];
    let n = v.sign(&mut sig, b"x", &sk).unwrap();
    assert_eq!(v.verify(&sig[..n], b"x", &pk), Ok(true));
    let mut short_pk = vec![0u8; 10];
    assert_eq!(v.keypair(&mut short_pk, &mut sk), Err(Error::BufferTooSmall));
}

#[test]
fn mldsa_keys_share_public_seed() {
    let mut pk = [0u8; 1952];
    let mut sk = [0u8; 4032];
    MlDsa65::keypair(&mut pk, &mut sk).unwrap();
    assert_eq!(&pk[..32], &sk[..32]);
}
