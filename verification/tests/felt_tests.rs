use starknet_in_rust::error::ParserError;
use starknet_in_rust::felt::Felt;
use starknet_in_rust::parser::{calldata_from_inputs, parse_felt};

const PRIME_DEC: &str =
    "3618502788666131213697322783095070105623107215331596699973092056135872020481";

fn prime_minus(n: u64) -> Felt {
    Felt::zero().minus(&Felt::from_u64(n))
}

#[test]
fn zero_is_zero() {
    assert!(Felt::zero().is_zero());
    assert!(Felt::zero().equals(&Felt::zero()));
    assert!(!Felt::one().is_zero());
    assert_eq!(Felt::zero().to_decimal_string(), "0");
    assert_eq!(Felt::one().to_decimal_string(), "1");
}

#[test]
fn small_numbers_round_trip() {
    assert_eq!(Felt::from_u64(144).to_decimal_string(), "144");
    assert_eq!(Felt::from_u64(144).to_u64(), Some(144));
    assert_eq!(Felt::from_u128(u128::MAX).to_u128(), Some(u128::MAX));
    assert_eq!(Felt::from_u128(u128::MAX).to_u64(), None);
    assert_eq!(Felt::from_u128(1 << 64).to_u64(), None);
    assert_eq!(Felt::from_u64(u64::MAX).to_u64(), Some(u64::MAX));
    assert_eq!(Felt::from_u64(7).to_usize(), Some(7));
    assert_eq!(
        Felt::from_u128(u128::MAX).to_decimal_string(),
        "340282366920938463463374607431768211455"
    );
}

#[test]
fn bytes_are_big_endian() {
    let mut bytes = [0u8; 32];
    bytes[31] = 1;
    bytes[30] = 2;
    assert_eq!(Felt::from_bytes_be(&bytes).to_decimal_string(), "513");
    assert_eq!(Felt::from_u64(513).to_be_bytes(), bytes);
}

#[test]
fn bytes_at_and_over_the_prime_are_reduced() {
    // The prime itself reads as zero, the prime plus five as five.
    let mut prime = [0u8; 32];
    prime[0] = 0x08;
    prime[7] = 0x11;
    prime[31] = 0x01;
    assert!(Felt::from_bytes_be(&prime).is_zero());
    prime[31] = 0x06;
    assert_eq!(Felt::from_bytes_be(&prime).to_decimal_string(), "5");
    assert_eq!(
        prime_minus(1).to_decimal_string(),
        "3618502788666131213697322783095070105623107215331596699973092056135872020480"
    );
    assert!(PRIME_DEC.ends_with("481"));
}

#[test]
fn addition_wraps_at_the_prime() {
    assert_eq!(Felt::from_u64(2).plus(&Felt::from_u64(3)).to_decimal_string(), "5");
    assert!(prime_minus(1).plus(&Felt::one()).is_zero());
    assert_eq!(prime_minus(1).plus(&Felt::from_u64(3)).to_decimal_string(), "2");
}

#[test]
fn subtraction_wraps_at_zero() {
    assert_eq!(Felt::from_u64(5).minus(&Felt::from_u64(3)).to_decimal_string(), "2");
    assert_eq!(
        Felt::from_u64(3).minus(&Felt::from_u64(5)).to_decimal_string(),
        "3618502788666131213697322783095070105623107215331596699973092056135872020479"
    );
}

#[test]
fn remainder_is_of_natural_numbers() {
    assert_eq!(
        Felt::from_u64(17).mod_floor(&Felt::from_u64(5)).to_decimal_string(),
        "2"
    );
    assert_eq!(
        prime_minus(1).mod_floor(&Felt::from_u64(10)).to_decimal_string(),
        "0"
    );
}

#[test]
fn order_is_of_natural_numbers() {
    assert!(Felt::from_u64(3).lt(&Felt::from_u64(5)));
    assert!(!Felt::from_u64(5).lt(&Felt::from_u64(3)));
    assert!(!Felt::from_u64(5).lt(&Felt::from_u64(5)));
    assert!(Felt::from_u64(256).lt(&Felt::from_u128(1 << 100)));
    assert!(Felt::from_u64(u64::MAX).lt(&prime_minus(1)));
    assert!(!prime_minus(1).lt(&Felt::zero()));
}

#[test]
fn signed_inputs_count_back_from_the_prime() {
    assert_eq!(Felt::from_i32(12).to_decimal_string(), "12");
    assert_eq!(Felt::from_i32(0).to_decimal_string(), "0");
    assert_eq!(Felt::from_i32(-1), prime_minus(1));
    assert_eq!(Felt::from_i32(i32::MIN), prime_minus(1 << 31));
    assert_eq!(
        calldata_from_inputs(&Some(vec![1, -1, 10])),
        vec![Felt::one(), prime_minus(1), Felt::from_u64(10)]
    );
    assert_eq!(calldata_from_inputs(&None), Vec::<Felt>::new());
}

#[test]
fn hex_text_is_read_after_its_prefix() {
    assert_eq!(parse_felt("0x10"), Ok(Felt::from_u64(16)));
    assert_eq!(parse_felt("0xff"), Ok(Felt::from_u64(255)));
    assert_eq!(
        parse_felt("0x112e35f48499939272000bd72eb840e502ca4c3aefa8800992e8defb746e0c9")
            .unwrap()
            .to_decimal_string(),
        "485685360977693822178494178685050472186234432883326654755380582597179924681"
    );
    assert_eq!(parse_felt("0x"), Err(ParserError::ParseFelt("0x".to_string())));
    assert_eq!(parse_felt("1"), Err(ParserError::ParseFelt("1".to_string())));
    assert_eq!(parse_felt("0xzz"), Err(ParserError::ParseFelt("0xzz".to_string())));
    assert_eq!(
        parse_felt("0x\u{e9}1"),
        Err(ParserError::ParseFelt("0x\u{e9}1".to_string()))
    );
}
