use hedge_protocol::address::{derive_address, Role};
use hedge_protocol::bytes::{bytes_clone, bytes_eq};
use sha2::Digest;

#[test]
fn derived_address_is_sha256_of_id_and_discriminator() {
    let hedge_id: Vec<u8> = vec![1, 2, 3, 4];
    for (role, tag) in [
        (Role::Hedge, b"hedge".as_slice()),
        (Role::Risk, b"risk".as_slice()),
        (Role::Ctrl, b"ctrl".as_slice()),
    ] {
        let addr = derive_address(&hedge_id, role);
        let mut preimage = hedge_id.clone();
        preimage.extend_from_slice(tag);
        let expected = sha2::Sha256::digest(&preimage);
        assert_eq!(addr.as_slice(), expected.as_slice());
        // a digest, not the preimage handed back
        assert_ne!(addr, preimage);
        assert_eq!(addr.len(), 32);
    }
}

#[test]
fn derivation_is_deterministic_and_role_sensitive() {
    let hedge_id: Vec<u8> = b"h1".to_vec();
    let a1 = derive_address(&hedge_id, Role::Hedge);
    let a2 = derive_address(&hedge_id, Role::Hedge);
    assert_eq!(a1, a2);
    let b = derive_address(&hedge_id, Role::Risk);
    let c = derive_address(&hedge_id, Role::Ctrl);
    assert_ne!(a1, b);
    assert_ne!(a1, c);
    assert_ne!(b, c);
    let other = derive_address(&b"h2".to_vec(), Role::Hedge);
    assert_ne!(a1, other);
}

#[test]
fn byte_helpers() {
    let a: Vec<u8> = vec![1, 2, 3];
    let b: Vec<u8> = vec![1, 2, 3];
    let c: Vec<u8> = vec![1, 2, 4];
    let d: Vec<u8> = vec![1, 2];
    assert!(bytes_eq(&a, &b));
    assert!(!bytes_eq(&a, &c));
    assert!(!bytes_eq(&a, &d));
    let e = bytes_clone(&a);
    assert_eq!(e, a);
}
