use steam_mobile::totp::{generate_auth_code, Secret};

const SHARED_SECRET_B64: &str = "AAECAwQFBgcICQoLDA0ODxAREhM=";

#[test]
fn secret_from_b64_decodes_bytes() {
    let secret = Secret::from_b64(SHARED_SECRET_B64).unwrap();
    let expected: Vec<u8> = (0u8..20).collect();
    assert_eq!(secret.bytes, expected);
}

#[test]
fn secret_from_b64_rejects_garbage() {
    assert!(Secret::from_b64("!!not base64!!").is_err());
}

#[test]
fn auth_code_known_vector() {
    let secret = Secret::from_b64(SHARED_SECRET_B64).unwrap();
    assert_eq!(generate_auth_code(&secret, 1_000_000), "WH888");
}

#[test]
fn auth_code_stable_inside_window() {
    let secret = Secret::from_b64(SHARED_SECRET_B64).unwrap();
    let a = generate_auth_code(&secret, 1_000_000);
    let b = generate_auth_code(&secret, 1_000_014);
    assert_eq!(a, b);
}

#[test]
fn auth_code_moves_with_the_window() {
    let secret = Secret::from_b64(SHARED_SECRET_B64).unwrap();
    assert_eq!(generate_auth_code(&secret, 1_000_050), "J7FVR");
    assert_ne!(generate_auth_code(&secret, 1_000_000), generate_auth_code(&secret, 1_000_050));
}

#[test]
fn auth_code_is_a_pure_mapping() {
    let s1 = Secret::from_b64(SHARED_SECRET_B64).unwrap();
    let s2 = Secret::new((0u8..20).collect());
    assert_eq!(generate_auth_code(&s1, 777_777), generate_auth_code(&s2, 777_777));
}
