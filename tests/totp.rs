use xlauth::codec::{from_storage_form, storable_secret};
use xlauth::totp::current_code;

const RFC_SEED: &[u8] = b"12345678901234567890";

#[test]
fn rfc6238_sha1_vectors() {
    for (t, expected) in [
        (59u64, "287082"),
        (1111111109, "081804"),
        (1234567890, "005924"),
        (2000000000, "279037"),
    ] {
        let mut s = RFC_SEED.to_vec();
        assert_eq!(current_code(&mut s, t), Ok(String::from(expected)));
        assert!(s.is_empty());
    }
}

#[test]
fn same_step_gives_same_code() {
    let mut a = RFC_SEED.to_vec();
    let mut b = RFC_SEED.to_vec();
    let first = current_code(&mut a, 60).unwrap();
    let second = current_code(&mut b, 89).unwrap();
    assert_eq!(first, "359152");
    assert_eq!(first, second);
    let mut c = RFC_SEED.to_vec();
    assert_eq!(current_code(&mut c, 90), Ok(String::from("969429")));
}

#[test]
fn short_secret_still_gives_a_code_and_is_wiped() {
    let mut s = b"Hello!\xde\xad\xbe\xef".to_vec();
    assert_eq!(current_code(&mut s, 59), Ok(String::from("996554")));
    assert!(s.is_empty());
    let mut empty: Vec<u8> = Vec::new();
    assert_eq!(current_code(&mut empty, 0), Ok(String::from("328482")));
}

#[test]
fn saved_alt_seed_generates_reference_codes() {
    let mut t = vec![String::from("JBSWY3DPEHPK3PXP")];
    let mut stored = storable_secret(&mut t).unwrap();
    let mut raw = from_storage_form(&mut stored).unwrap();
    assert_eq!(raw, b"Hello!\xde\xad\xbe\xef".to_vec());
    let mut again = raw.clone();
    assert_eq!(current_code(&mut raw, 0), Ok(String::from("282760")));
    assert_eq!(current_code(&mut again, 1234567890), Ok(String::from("742275")));
}

#[test]
fn saved_seed_generates_reference_codes() {
    let mut t = vec![String::from("GEZDGNBVGY3TQOJQ GEZDGNBVGY3TQOJQ")];
    let mut stored = storable_secret(&mut t).unwrap();
    let mut raw = from_storage_form(&mut stored).unwrap();
    assert_eq!(current_code(&mut raw, 1234567890), Ok(String::from("005924")));
}
