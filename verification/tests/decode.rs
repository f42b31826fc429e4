use starknetid_resolver::decode::find_social_id;
use starknetid_resolver::felt::Felt;

fn buffer(values: &[u64]) -> Vec<Felt> {
    values.iter().map(|v| Felt::from_u64(*v)).collect()
}

fn decoded(values: &[u64]) -> String {
    find_social_id(&buffer(values)).to_string()
}

#[test]
fn a_single_set_pair_is_found_wherever_it_stands() {
    for pairs in 1..6usize {
        for k in 0..pairs {
            let mut values = vec![9u64, pairs as u64];
            for pair in 0..pairs {
                values.push(1);
                values.push(if pair == k { 777 } else { 0 });
            }
            assert_eq!(decoded(&values), "777");
        }
    }
}

#[test]
fn the_earliest_set_pair_wins() {
    assert_eq!(decoded(&[5, 3, 1, 0, 1, 11, 1, 22]), "11");
    assert_eq!(decoded(&[5, 3, 1, 33, 1, 11, 1, 22]), "33");
    assert_eq!(decoded(&[5, 2, 1, 7, 1, 7]), "7");
}

#[test]
fn no_set_pair_gives_zero() {
    assert!(find_social_id(&buffer(&[5, 2, 1, 0, 1, 0])).is_zero());
    assert!(find_social_id(&buffer(&[5, 1, 1, 0])).is_zero());
}

#[test]
fn a_short_buffer_gives_zero() {
    assert!(find_social_id(&buffer(&[])).is_zero());
    assert!(find_social_id(&buffer(&[7])).is_zero());
    assert!(find_social_id(&buffer(&[7, 7])).is_zero());
    assert!(find_social_id(&buffer(&[7, 7, 7])).is_zero());
}

#[test]
fn the_header_and_the_fillers_are_not_values() {
    assert!(find_social_id(&buffer(&[99, 98, 97, 0])).is_zero());
    assert_eq!(decoded(&[99, 98, 97, 5]), "5");
    assert_eq!(decoded(&[0, 0, 0, 5]), "5");
}

#[test]
fn an_element_behind_the_last_pair_is_not_read() {
    assert!(find_social_id(&buffer(&[5, 1, 1, 0, 44])).is_zero());
    assert_eq!(decoded(&[5, 1, 1, 8, 44]), "8");
    assert!(find_social_id(&buffer(&[5, 2, 1, 0, 1, 0, 44])).is_zero());
}

#[test]
fn a_large_social_id_comes_back_whole() {
    let mut bytes = [0u8; 32];
    bytes[0] = 0x07;
    bytes[31] = 0x09;
    let large = Felt::from_bytes_be(bytes).unwrap();
    let result = vec![Felt::zero(), Felt::from_u64(1), Felt::zero(), large];
    assert!(find_social_id(&result).equals(&large));
}
