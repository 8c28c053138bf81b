use keyhunter::crypto::{derive_address, generate_key, public_key_to_address};
use keyhunter::encode::scalar_bytes;

// The address of private key 1 (compressed public key) is a fixed point of
// the whole derivation pipeline; it pins every stage at once.
const KEY_ONE_ADDRESS: &str = "1BgGZ9tcN4rm9KBzDn7KprQz87SZ26SAMH";

#[test]
fn derive_address_of_key_one_is_the_known_address() {
    let addr = derive_address(1).expect("key 1 is a valid scalar");
    assert_eq!(addr, KEY_ONE_ADDRESS);
}

#[test]
fn derive_address_rejects_the_zero_scalar() {
    assert!(derive_address(0).is_none());
}

#[test]
fn derive_address_is_deterministic() {
    let a = derive_address(0xdeadbeef).unwrap();
    let b = derive_address(0xdeadbeef).unwrap();
    assert_eq!(a, b);
    let c = derive_address(0xdeadbef0).unwrap();
    assert_ne!(a, c);
}

#[test]
fn generate_key_pads_the_fragment_to_the_full_buffer() {
    let mut fragment = vec![0u8; 16];
    fragment[15] = 1;
    let addr = generate_key(&fragment).expect("key 1 is a valid scalar");
    assert_eq!(addr, KEY_ONE_ADDRESS);
}

#[test]
fn generate_key_rejects_the_zero_fragment() {
    let fragment = vec![0u8; 16];
    assert!(generate_key(&fragment).is_none());
}

#[test]
fn public_key_to_address_is_deterministic() {
    let pk = vec![2u8; 33];
    let a = public_key_to_address(&pk);
    let b = public_key_to_address(&pk);
    assert_eq!(a, b);
}

#[test]
fn scalar_and_derivation_agree_with_each_other() {
    // The same value, taken through the 32-byte buffer by hand or through
    // derive_address, reaches the same address.
    let v: u128 = 7;
    let bytes = scalar_bytes(v);
    assert_eq!(bytes.len(), 32);
    let via_value = derive_address(v).unwrap();
    let mut fragment = vec![0u8; 16];
    fragment.copy_from_slice(&bytes[16..32]);
    let via_fragment = generate_key(&fragment).unwrap();
    assert_eq!(via_value, via_fragment);
}
