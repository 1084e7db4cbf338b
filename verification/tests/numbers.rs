use nfo::{Key, Nat, Principal};

#[test]
fn zero_has_no_digits() {
    assert_eq!(Nat::from_u128(0).to_digits(), Vec::<u32>::new());
    assert_eq!(Nat::from_usize(0).to_digits(), Vec::<u32>::new());
}

#[test]
fn a_small_number_has_one_digit() {
    assert_eq!(Nat::from_u64(1125).to_digits(), vec![1125]);
    assert_eq!(Nat::from_u64(4294967295).to_digits(), vec![4294967295]);
}

#[test]
fn digits_are_in_base_two_to_the_thirty_two_least_significant_first() {
    assert_eq!(Nat::from_u64(4294967296).to_digits(), vec![0, 1]);
    assert_eq!(Nat::from_u64(112500000000).to_digits(), vec![830850304, 26]);
    assert_eq!(Nat::from_u64(u64::MAX).to_digits(), vec![u32::MAX, u32::MAX]);
    assert_eq!(Nat::from_u128(1u128 << 64).to_digits(), vec![0, 0, 1]);
    assert_eq!(Nat::from_u128(1u128 << 96).to_digits(), vec![0, 0, 0, 1]);
    assert_eq!(
        Nat::from_u128(u128::MAX).to_digits(),
        vec![u32::MAX, u32::MAX, u32::MAX, u32::MAX]
    );
}

#[test]
fn superfluous_zero_digits_are_dropped() {
    assert_eq!(Nat::from_digits(vec![5, 0, 0]), Nat::from_u64(5));
    assert_eq!(Nat::from_digits(vec![5, 0, 0]).to_digits(), vec![5]);
    assert_eq!(Nat::from_digits(vec![0, 0, 0]), Nat::from_u64(0));
    assert_eq!(Nat::from_digits(vec![]), Nat::from_u64(0));
    assert_eq!(Nat::from_digits(vec![0, 7]).to_digits(), vec![0, 7]);
}

#[test]
fn numbers_beyond_any_machine_integer_are_held() {
    let big = Nat::from_digits(vec![1, 2, 3, 4, 5, 6]);
    assert_eq!(big.to_digits(), vec![1, 2, 3, 4, 5, 6]);
    assert!(big.same(&big.clone()));
    assert!(!big.same(&Nat::from_u128(u128::MAX)));
}

#[test]
fn equal_numbers_are_the_same_key() {
    assert!(Nat::from_u64(7).same(&Nat::from_usize(7)));
    assert!(Nat::from_u64(7).same(&Nat::from_digits(vec![7, 0])));
    assert!(!Nat::from_u64(7).same(&Nat::from_u64(8)));
    assert!(!Nat::from_u64(7).same(&Nat::from_digits(vec![7, 1])));
    assert!(!Nat::from_u64(0).same(&Nat::from_digits(vec![0, 1])));
    assert_eq!(Nat::from_u64(7), Nat::from_u128(7));
    assert_ne!(Nat::from_u64(7), Nat::from_u128(8));
}

#[test]
fn the_digits_are_those_of_the_candid_number() {
    let samples: [u128; 8] = [
        0,
        1,
        4294967295,
        4294967296,
        18446744073709551615,
        18446744073709551616,
        79228162514264337593543950336,
        u128::MAX,
    ];
    for sample in samples {
        let outside = candid::Nat::from(sample);
        assert_eq!(Nat::from_u128(sample).to_digits(), outside.0.to_u32_digits());
        assert_eq!(Nat::from_digits(outside.0.to_u32_digits()), Nat::from_u128(sample));
    }
}

#[test]
fn a_principal_has_at_most_twenty_nine_bytes() {
    assert!(Principal::from_slice(&[7u8; 29]).is_some());
    assert!(Principal::from_slice(&[7u8; 30]).is_none());
    assert!(Principal::from_slice(&[]).is_some());
}

#[test]
fn a_principal_keeps_its_bytes() {
    let bytes = [9u8, 8, 7, 6];
    let principal = Principal::from_slice(&bytes).unwrap();
    assert_eq!(principal.as_slice(), &bytes);
    assert_eq!(principal.clone().as_slice(), &bytes);
    let empty = Principal::from_slice(&[]).unwrap();
    assert_eq!(empty.as_slice(), &[] as &[u8]);
}

#[test]
fn principals_are_the_same_when_their_bytes_are() {
    let a = Principal::from_slice(&[1, 2, 3]).unwrap();
    let b = Principal::from_slice(&[1, 2, 3]).unwrap();
    let c = Principal::from_slice(&[1, 2, 4]).unwrap();
    let d = Principal::from_slice(&[1, 2]).unwrap();
    assert!(a.same(&b));
    assert!(!a.same(&c));
    assert!(!a.same(&d));
    assert!(!d.same(&a));
    assert_eq!(a, b);
    assert_ne!(a, c);
}

#[test]
fn a_principal_of_the_outside_crate_carries_over() {
    let outside = candid::Principal::self_authenticating("a public key");
    let principal = Principal::from_slice(outside.as_slice()).unwrap();
    assert_eq!(principal.as_slice().len(), 29);
    assert_eq!(candid::Principal::from_slice(principal.as_slice()), outside);
}

#[test]
fn strings_are_the_same_key_when_equal() {
    assert!(String::from("loc").same(&String::from("loc")));
    assert!(!String::from("loc").same(&String::from("Loc")));
    assert!(!String::from("loc").same(&String::from("")));
}
