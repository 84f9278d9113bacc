use ecvrf_core::api::{
    ecvrf_proof_to_hash, ecvrf_prove, ecvrf_verify, generate_ecvrf_keypair,
    generate_vrf_params_for_contract, WasmECVRFKeypair,
};
use ecvrf_core::keys::{KeyPair, PrivateKey, Proof, PublicKey, VrfError};
use ecvrf_core::vrf::{proof_to_hash, prove, verify};
use rand::rngs::StdRng;
use rand::SeedableRng;

fn keypair(seed: u64) -> WasmECVRFKeypair {
    let mut rng = StdRng::seed_from_u64(seed);
    generate_ecvrf_keypair(&mut rng).expect("key generation")
}

#[test]
fn scenario_prove_verify_and_output() {
    let kp = keypair(7);
    let m = b"test-message";
    let proof = ecvrf_prove(&kp.sk(), m).unwrap();
    assert_eq!(ecvrf_verify(&kp.pk(), m, &proof), Ok(true));
    assert_eq!(ecvrf_proof_to_hash(&proof).unwrap().len(), 64);
    assert_eq!(ecvrf_prove(&kp.sk(), m).unwrap(), proof);
    assert_eq!(ecvrf_verify(&kp.pk(), b"different-message", &proof), Ok(false));
}

#[test]
fn completeness_over_keys_and_messages() {
    let messages: [&[u8]; 4] = [b"", b"a", b"test-message", &[0u8; 300]];
    for seed in 0..5u64 {
        let kp = keypair(seed);
        for m in messages.iter() {
            let proof = ecvrf_prove(&kp.sk(), m).unwrap();
            assert_eq!(proof.len(), 80);
            assert_eq!(ecvrf_verify(&kp.pk(), m, &proof), Ok(true));
        }
    }
}

#[test]
fn encodings_have_fixed_lengths() {
    let kp = keypair(1);
    assert_eq!(kp.sk().len(), 32);
    assert_eq!(kp.pk().len(), 32);
}

#[test]
fn prove_is_deterministic() {
    let kp = keypair(11);
    let a = ecvrf_prove(&kp.sk(), b"msg").unwrap();
    let b = ecvrf_prove(&kp.sk(), b"msg").unwrap();
    assert_eq!(a, b);
    let c = ecvrf_prove(&kp.sk(), b"msh").unwrap();
    assert_ne!(a, c);
}

#[test]
fn output_is_deterministic_and_depends_on_gamma_only() {
    let kp = keypair(12);
    let p1 = ecvrf_prove(&kp.sk(), b"x").unwrap();
    let p2 = ecvrf_prove(&kp.sk(), b"x").unwrap();
    let h1 = ecvrf_proof_to_hash(&p1).unwrap();
    assert_eq!(h1, ecvrf_proof_to_hash(&p2).unwrap());
    let mut other = p1.clone();
    other[40] ^= 0x55;
    other[48] ^= 0x01;
    assert_eq!(ecvrf_proof_to_hash(&other).unwrap(), h1);
    assert_eq!(ecvrf_verify(&kp.pk(), b"x", &other), Ok(false));
    assert_ne!(h1[..32], p1[..32]);
}

#[test]
fn soundness_under_another_key() {
    let kp1 = keypair(21);
    let kp2 = keypair(22);
    assert_ne!(kp1.pk(), kp2.pk());
    let proof = ecvrf_prove(&kp1.sk(), b"m").unwrap();
    assert_eq!(ecvrf_verify(&kp2.pk(), b"m", &proof), Ok(false));
}

#[test]
fn tampering_is_detected() {
    let kp = keypair(31);
    let m = b"tamper".to_vec();
    let proof = ecvrf_prove(&kp.sk(), &m).unwrap();
    for i in 0..m.len() * 8 {
        let mut t = m.clone();
        t[i / 8] ^= 1 << (i % 8);
        assert_eq!(ecvrf_verify(&kp.pk(), &t, &proof), Ok(false));
    }
    for i in 0..256 {
        let mut pk = kp.pk();
        pk[i / 8] ^= 1 << (i % 8);
        assert_ne!(ecvrf_verify(&pk, &m, &proof), Ok(true));
    }
    for i in 0..640 {
        let mut p = proof.clone();
        p[i / 8] ^= 1 << (i % 8);
        assert_ne!(ecvrf_verify(&kp.pk(), &m, &p), Ok(true));
    }
}

#[test]
fn keys_and_proofs_round_trip() {
    let kp = keypair(41);
    let sk = PrivateKey::from_bytes(&kp.sk()).unwrap();
    assert_eq!(sk.to_bytes(), kp.sk());
    let pk = PublicKey::from_bytes(&kp.pk()).unwrap();
    assert_eq!(pk.to_bytes(), kp.pk());
    let bytes = ecvrf_prove(&kp.sk(), b"r").unwrap();
    let proof = Proof::from_bytes(&bytes).unwrap();
    assert_eq!(proof.to_bytes(), bytes);
}

#[test]
fn public_key_is_derived_from_private_key() {
    let kp = keypair(42);
    let sk = PrivateKey::from_bytes(&kp.sk()).unwrap();
    let pk = sk.public_key().to_bytes();
    assert_eq!(pk, kp.pk());
    assert_ne!(pk, kp.sk());
    let pair = KeyPair::from_private_key(sk);
    assert_eq!(pair.public_key().to_bytes(), kp.pk());
}

#[test]
fn typed_operations_agree_with_bytes() {
    let kp = keypair(43);
    let pair = KeyPair::from_private_key(PrivateKey::from_bytes(&kp.sk()).unwrap());
    let proof = prove(&pair, b"typed");
    assert_eq!(proof.to_bytes(), ecvrf_prove(&kp.sk(), b"typed").unwrap());
    assert!(verify(pair.public_key(), b"typed", &proof));
    assert!(!verify(pair.public_key(), b"typed!", &proof));
    assert_eq!(proof_to_hash(&proof), ecvrf_proof_to_hash(&proof.to_bytes()).unwrap());
}

#[test]
fn wrong_lengths_are_invalid_encodings() {
    let kp = keypair(51);
    let proof = ecvrf_prove(&kp.sk(), b"m").unwrap();
    assert_eq!(ecvrf_prove(&kp.sk()[..31], b"m"), Err(VrfError::InvalidEncoding));
    let mut long_sk = kp.sk();
    long_sk.push(0);
    assert_eq!(ecvrf_prove(&long_sk, b"m"), Err(VrfError::InvalidEncoding));
    let mut long_pk = kp.pk();
    long_pk.push(0);
    assert_eq!(ecvrf_verify(&long_pk, b"m", &proof), Err(VrfError::InvalidEncoding));
    assert_eq!(ecvrf_verify(&kp.pk(), b"m", &proof[..79]), Err(VrfError::InvalidEncoding));
    let mut long_proof = proof.clone();
    long_proof.push(0);
    assert_eq!(ecvrf_verify(&kp.pk(), b"m", &long_proof), Err(VrfError::InvalidEncoding));
    assert_eq!(ecvrf_proof_to_hash(&[]), Err(VrfError::InvalidEncoding));
}

#[test]
fn zero_private_key_is_invalid_key() {
    assert_eq!(ecvrf_prove(&[0u8; 32], b"m"), Err(VrfError::InvalidKey));
    assert!(matches!(
        generate_vrf_params_for_contract(&[0u8; 32], b"m"),
        Err(VrfError::InvalidKey)
    ));
}

#[test]
fn non_canonical_scalar_is_invalid_encoding() {
    assert_eq!(ecvrf_prove(&[0xffu8; 32], b"m"), Err(VrfError::InvalidEncoding));
    // the group order itself, least significant byte first
    let order: [u8; 32] = [
        0xed, 0xd3, 0xf5, 0x5c, 0x1a, 0x63, 0x12, 0x58, 0xd6, 0x9c, 0xf7, 0xa2, 0xde, 0xf9,
        0xde, 0x14, 0, 0, 0, 0, 0, 0, 0, 0, 0, 0, 0, 0, 0, 0, 0, 0x10,
    ];
    assert_eq!(ecvrf_prove(&order, b"m"), Err(VrfError::InvalidEncoding));
    let mut below = order;
    below[0] -= 1;
    assert!(ecvrf_prove(&below, b"m").is_ok());
    let mut one = [0u8; 32];
    one[0] = 1;
    assert!(ecvrf_prove(&one, b"m").is_ok());
}

#[test]
fn identity_and_off_curve_points_are_refused() {
    let kp = keypair(52);
    let proof = ecvrf_prove(&kp.sk(), b"m").unwrap();
    assert_eq!(ecvrf_verify(&[0u8; 32], b"m", &proof), Err(VrfError::InvalidEncoding));
    assert_eq!(ecvrf_verify(&[0xffu8; 32], b"m", &proof), Err(VrfError::InvalidEncoding));
    let mut identity_gamma = proof.clone();
    for b in identity_gamma[..32].iter_mut() {
        *b = 0;
    }
    assert_eq!(ecvrf_verify(&kp.pk(), b"m", &identity_gamma), Err(VrfError::InvalidEncoding));
    assert_eq!(ecvrf_proof_to_hash(&identity_gamma), Err(VrfError::InvalidEncoding));
    let mut bad_response = proof.clone();
    for b in bad_response[48..].iter_mut() {
        *b = 0xff;
    }
    assert_eq!(ecvrf_proof_to_hash(&bad_response), Err(VrfError::InvalidEncoding));
    assert!(PublicKey::from_bytes(&[0u8; 32]).is_err());
}

#[test]
fn contract_parameters_bundle_output_proof_and_key() {
    let kp = keypair(61);
    let params = generate_vrf_params_for_contract(&kp.sk(), b"alpha").unwrap();
    let proof = ecvrf_prove(&kp.sk(), b"alpha").unwrap();
    assert_eq!(params.proof_bytes(), proof);
    assert_eq!(params.output(), ecvrf_proof_to_hash(&proof).unwrap());
    assert_eq!(params.output().len(), 64);
    assert_eq!(params.public_key(), kp.pk());
    assert_eq!(ecvrf_verify(&params.public_key(), b"alpha", &params.proof_bytes()), Ok(true));
    assert!(matches!(
        generate_vrf_params_for_contract(&kp.sk()[..5], b"alpha"),
        Err(VrfError::InvalidEncoding)
    ));
}

#[test]
fn keypair_record_keeps_its_fields() {
    let kp = WasmECVRFKeypair::new(vec![1, 2, 3], vec![4, 5]);
    assert_eq!(kp.sk(), vec![1, 2, 3]);
    assert_eq!(kp.pk(), vec![4, 5]);
}

#[test]
fn distinct_seeds_give_distinct_keys() {
    assert_ne!(keypair(100).sk(), keypair(101).sk());
    assert_eq!(keypair(100).sk(), keypair(100).sk());
}
