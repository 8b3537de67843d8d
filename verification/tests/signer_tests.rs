use steam_mobile::signer::generate_confirmation_hash;
use steam_mobile::totp::Secret;

const IDENTITY_SECRET_B64: &str = "ZGVmZ2hpamtsbW5vcHFyc3R1dnc=";

#[test]
fn confirmation_hash_known_vector() {
    let secret = Secret::from_b64(IDENTITY_SECRET_B64).unwrap();
    let sig = generate_confirmation_hash(&secret, "conf", 1_600_000_000);
    assert_eq!(sig, "rPdqP9PKeTFCE5Rh/v+i7V/eQUg=");
}

#[test]
fn confirmation_hash_is_deterministic() {
    let secret = Secret::from_b64(IDENTITY_SECRET_B64).unwrap();
    let a = generate_confirmation_hash(&secret, "allow", 1_600_000_000);
    let b = generate_confirmation_hash(&secret, "allow", 1_600_000_000);
    assert_eq!(a, b);
    assert_eq!(a, "Wq8fuBfH+6hpwtVLG+T5v0ZjP/c=");
}

#[test]
fn confirmation_hash_changes_with_the_tag() {
    let secret = Secret::from_b64(IDENTITY_SECRET_B64).unwrap();
    let allow = generate_confirmation_hash(&secret, "allow", 1_600_000_000);
    let cancel = generate_confirmation_hash(&secret, "cancel", 1_600_000_000);
    assert_eq!(cancel, "x1kSMc1jM9RJxyX8uxlVLd0zZRA=");
    assert_ne!(allow, cancel);
}

#[test]
fn confirmation_hash_changes_with_the_time() {
    let secret = Secret::from_b64(IDENTITY_SECRET_B64).unwrap();
    let a = generate_confirmation_hash(&secret, "conf", 1_600_000_000);
    let b = generate_confirmation_hash(&secret, "conf", 1_600_000_001);
    assert_ne!(a, b);
}
