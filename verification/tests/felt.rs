use starknetid_resolver::felt::Felt;

fn prime_bytes() -> [u8; 32] {
    let mut bytes = [0u8; 32];
    bytes[0] = 0x08;
    bytes[7] = 0x11;
    bytes[31] = 0x01;
    bytes
}

#[test]
fn zero_is_zero() {
    assert!(Felt::zero().is_zero());
    assert_eq!(Felt::zero().to_bytes_be(), [0u8; 32]);
    assert!(Felt::from_u64(0).is_zero());
    assert!(!Felt::from_u64(1).is_zero());
}

#[test]
fn from_u64_fills_the_low_bytes() {
    let felt = Felt::from_u64(0x0102_0304_0506_0708);
    let mut expected = [0u8; 32];
    expected[24..].copy_from_slice(&[1, 2, 3, 4, 5, 6, 7, 8]);
    assert_eq!(felt.to_bytes_be(), expected);
    let max = Felt::from_u64(u64::MAX);
    let mut expected = [0u8; 32];
    expected[24..].copy_from_slice(&[0xff; 8]);
    assert_eq!(max.to_bytes_be(), expected);
}

#[test]
fn from_usize_agrees_with_from_u64() {
    assert!(Felt::from_usize(42).equals(&Felt::from_u64(42)));
    assert!(!Felt::from_usize(42).equals(&Felt::from_u64(43)));
}

#[test]
fn from_bytes_be_refuses_the_modulus_and_above() {
    assert!(Felt::from_bytes_be(prime_bytes()).is_none());
    assert!(Felt::from_bytes_be([0xff; 32]).is_none());
    let mut above = prime_bytes();
    above[31] = 0x02;
    assert!(Felt::from_bytes_be(above).is_none());
    let mut high = [0u8; 32];
    high[0] = 0x09;
    assert!(Felt::from_bytes_be(high).is_none());
}

#[test]
fn from_bytes_be_takes_what_is_below_the_modulus() {
    let mut largest = prime_bytes();
    largest[31] = 0x00;
    let felt = Felt::from_bytes_be(largest).expect("the modulus less one is canonical");
    assert_eq!(felt.to_bytes_be(), largest);
    let mut below = [0xffu8; 32];
    below[0] = 0x07;
    assert!(Felt::from_bytes_be(below).is_some());
    let mut low = prime_bytes();
    low[7] = 0x10;
    low[8] = 0xff;
    assert!(Felt::from_bytes_be(low).is_some());
}

#[test]
fn from_bytes_be_agrees_with_the_field_element() {
    let mut samples: Vec<[u8; 32]> = vec![[0u8; 32], prime_bytes(), [0xff; 32]];
    let mut largest = prime_bytes();
    largest[31] = 0;
    samples.push(largest);
    let mut seed: u64 = 0x9e37_79b9_7f4a_7c15;
    for round in 0..200 {
        let mut bytes = [0u8; 32];
        for byte in bytes.iter_mut() {
            seed = seed.wrapping_mul(6364136223846793005).wrapping_add(1442695040888963407);
            *byte = (seed >> 56) as u8;
        }
        if round % 2 == 0 {
            bytes[0] &= 0x0f;
        }
        samples.push(bytes);
    }
    for bytes in samples {
        let theirs = starknet::core::types::FieldElement::from_bytes_be(&bytes).ok();
        let ours = Felt::from_bytes_be(bytes);
        assert_eq!(ours.is_some(), theirs.is_some());
        if let (Some(ours), Some(theirs)) = (ours, theirs) {
            assert_eq!(ours.to_bytes_be(), theirs.to_bytes_be());
            assert_eq!(ours.to_string(), theirs.to_string());
        }
    }
}

#[test]
fn equals_compares_values() {
    let a = Felt::from_u64(777);
    let b = Felt::from_u64(777);
    let c = Felt::from_u64(778);
    assert!(a.equals(&b));
    assert!(!a.equals(&c));
    assert!(!Felt::zero().equals(&a));
}

#[test]
fn to_string_is_decimal() {
    assert_eq!(Felt::zero().to_string(), "0");
    assert_eq!(Felt::from_u64(7).to_string(), "7");
    assert_eq!(Felt::from_u64(10).to_string(), "10");
    assert_eq!(Felt::from_u64(777).to_string(), "777");
    assert_eq!(Felt::from_u64(u64::MAX).to_string(), "18446744073709551615");
    let mut largest = prime_bytes();
    largest[31] = 0;
    assert_eq!(
        Felt::from_bytes_be(largest).unwrap().to_string(),
        "3618502788666131213697322783095070105623107215331596699973092056135872020480"
    );
}

#[test]
fn to_string_is_not_the_bytes() {
    let felt = Felt::from_u64(0x3432);
    assert_eq!(felt.to_string(), "13362");
    assert_ne!(felt.to_string(), "42");
}
