use starknetid_resolver::felt::Felt;
use starknetid_resolver::selector::{get_selector_from_name, NonAsciiNameError};

fn theirs(name: &str) -> [u8; 32] {
    starknet::core::utils::get_selector_from_name(name).unwrap().to_bytes_be()
}

#[test]
fn selector_is_that_of_the_name() {
    for name in ["get_verifier_data", "aggregate", "get_unbounded_user_data", "transfer"] {
        let selector = get_selector_from_name(name).unwrap();
        assert_eq!(selector.to_bytes_be(), theirs(name));
        assert!(!selector.is_zero());
    }
}

#[test]
fn selector_of_transfer_is_known() {
    let selector = get_selector_from_name("transfer").unwrap();
    let expected = starknet::core::types::FieldElement::from_hex_be(
        "0x83afd3f4caedc6eebf44246fe54e38c95e3179a5ec9ea81740eca5b482d12e",
    )
    .unwrap();
    assert_eq!(selector.to_bytes_be(), expected.to_bytes_be());
}

#[test]
fn selectors_of_the_default_entry_points_are_zero() {
    assert!(get_selector_from_name("__default__").unwrap().is_zero());
    assert!(get_selector_from_name("__l1_default__").unwrap().is_zero());
}

#[test]
fn selectors_differ_between_names() {
    let a = get_selector_from_name("get_verifier_data").unwrap();
    let b = get_selector_from_name("aggregate").unwrap();
    assert!(!a.equals(&b));
    assert!(!a.equals(&Felt::zero()));
}

#[test]
fn a_name_outside_ascii_has_no_selector() {
    assert_eq!(get_selector_from_name("caf\u{e9}").unwrap_err(), NonAsciiNameError);
}
