use account_provisioning::error::Error;
use account_provisioning::hasher::{CredentialHasher, MAX_LANES, SALT_BYTES};
use argon2::{Argon2, PasswordHash, PasswordVerifier};

#[test]
fn same_plaintext_hashes_differently() {
    let hasher = CredentialHasher::new(8, 1, 1);
    let first = hasher.hash("correct horse").unwrap();
    let second = hasher.hash("correct horse").unwrap();
    assert_ne!(first, second);
    let first = PasswordHash::new(&first).unwrap();
    let second = PasswordHash::new(&second).unwrap();
    assert_ne!(first.salt.unwrap().as_str(), second.salt.unwrap().as_str());
}

#[test]
fn hash_is_self_describing() {
    let hasher = CredentialHasher::new(16, 2, 1);
    let encoded = hasher.hash("pw").unwrap();
    assert!(encoded.starts_with("$argon2id$v=19$m=16,t=2,p=1$"));
    let parsed = PasswordHash::new(&encoded).unwrap();
    assert_eq!(parsed.salt.unwrap().as_str().len(), 22);
    assert_eq!(parsed.hash.unwrap().len(), 32);
    assert!(Argon2::default().verify_password(b"pw", &parsed).is_ok());
    assert!(Argon2::default().verify_password(b"pw2", &parsed).is_err());
}

#[test]
fn recommended_parameters_hash() {
    let hasher = CredentialHasher::new(19 * 1024, 2, 1);
    let encoded = hasher.hash("pw").unwrap();
    assert!(encoded.starts_with("$argon2id$v=19$m=19456,t=2,p=1$"));
}

#[test]
fn given_entropy_fixes_the_hash() {
    let hasher = CredentialHasher::new(8, 1, 1);
    let zeros = vec![0u8; SALT_BYTES];
    let first = hasher.hash_with_entropy("pw", &zeros).unwrap();
    let second = hasher.hash_with_entropy("pw", &zeros).unwrap();
    assert_eq!(first, second);
    assert!(first.starts_with("$argon2id$v=19$m=8,t=1,p=1$AAAAAAAAAAAAAAAAAAAAAA$"));
    assert_eq!(first.len(), "$argon2id$v=19$m=8,t=1,p=1$AAAAAAAAAAAAAAAAAAAAAA$".len() + 43);

    let other_password = hasher.hash_with_entropy("pw2", &zeros).unwrap();
    assert_ne!(first, other_password);
    let ones = vec![1u8; SALT_BYTES];
    let other_salt = hasher.hash_with_entropy("pw", &ones).unwrap();
    assert_ne!(first, other_salt);
    assert!(other_salt.starts_with("$argon2id$v=19$m=8,t=1,p=1$AQEBAQEBAQEBAQEBAQEBAQ$"));
}

#[test]
fn bad_parameters_are_internal_errors() {
    for (m, t, p) in [(1u32, 1u32, 1u32), (8, 0, 1), (8, 1, 0), (8, 1, 2)] {
        let result = CredentialHasher::new(m, t, p).hash("pw");
        assert!(matches!(result, Err(Error::InternalError(_))), "{:?}", (m, t, p));
    }
}

#[test]
fn too_many_lanes_are_refused_before_hashing() {
    for lanes in [MAX_LANES + 1, u32::MAX] {
        let result = CredentialHasher::new(u32::MAX, 1, lanes).hash("pw");
        assert_eq!(result, Err(Error::InternalError("parallelism out of range".to_string())));
    }
}

#[test]
fn bad_entropy_is_an_internal_error() {
    let hasher = CredentialHasher::new(8, 1, 1);
    let too_long = vec![7u8; 49];
    assert!(matches!(hasher.hash_with_entropy("pw", &too_long), Err(Error::InternalError(_))));
    let too_short = vec![7u8; 2];
    assert!(matches!(hasher.hash_with_entropy("pw", &too_short), Err(Error::InternalError(_))));
}
