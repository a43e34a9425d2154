use dummy_builder::hex::{decode, encode};
use dummy_builder::primitives::Uint256;

#[test]
fn encode_writes_lower_case_with_prefix() {
    assert_eq!(encode(&[]), b"0x".to_vec());
    assert_eq!(encode(&[0x00, 0x0f, 0xa5, 0xff]), b"0x000fa5ff".to_vec());
}

#[test]
fn decode_reads_either_case() {
    assert_eq!(decode(b"0x"), Some(Vec::new()));
    assert_eq!(decode(b"0x000fa5ff"), Some(vec![0x00, 0x0f, 0xa5, 0xff]));
    assert_eq!(decode(b"0x000FA5Ff"), Some(vec![0x00, 0x0f, 0xa5, 0xff]));
}

#[test]
fn decode_rejects_what_is_not_hexadecimal() {
    assert_eq!(decode(b""), None);
    assert_eq!(decode(b"0"), None);
    assert_eq!(decode(b"00ff"), None);
    assert_eq!(decode(b"0X00"), None);
    assert_eq!(decode(b"0x0"), None);
    assert_eq!(decode(b"0x0g"), None);
    assert_eq!(decode(b"0xg0"), None);
    assert_eq!(decode(b"0x00 "), None);
    assert_eq!(decode(b"0x/0"), None);
    assert_eq!(decode(b"0x:0"), None);
    assert_eq!(decode(b"0x@0"), None);
    assert_eq!(decode(b"0xG0"), None);
    assert_eq!(decode(b"0x`0"), None);
}

#[test]
fn decode_undoes_encode() {
    let bytes: Vec<u8> = (0..=255u8).collect();
    assert_eq!(decode(&encode(&bytes)), Some(bytes));
}

fn number(low: u128, high: u128) -> Uint256 {
    let mut le_bytes = [0u8; 32];
    le_bytes[..16].copy_from_slice(&low.to_le_bytes());
    le_bytes[16..].copy_from_slice(&high.to_le_bytes());
    Uint256 { le_bytes }
}

#[test]
fn decimal_of_small_numbers() {
    assert_eq!(number(0, 0).to_decimal(), b"0".to_vec());
    assert_eq!(number(7, 0).to_decimal(), b"7".to_vec());
    assert_eq!(number(10, 0).to_decimal(), b"10".to_vec());
    assert_eq!(number(105, 0).to_decimal(), b"105".to_vec());
    assert_eq!(number(256, 0).to_decimal(), b"256".to_vec());
    assert_eq!(number(1_000_000_000_000_000_000, 0).to_decimal(), b"1000000000000000000".to_vec());
    assert_eq!(number(u128::MAX, 0).to_decimal(), u128::MAX.to_string().into_bytes());
}

#[test]
fn decimal_of_large_numbers() {
    assert_eq!(
        number(0, 1).to_decimal(),
        b"340282366920938463463374607431768211456".to_vec()
    );
    assert_eq!(
        number(u128::MAX, u128::MAX).to_decimal(),
        b"115792089237316195423570985008687907853269984665640564039457584007913129639935"
            .to_vec()
    );
}

#[test]
fn from_decimal_reads_what_fits() {
    assert_eq!(Uint256::from_decimal(b"0"), Some(number(0, 0)));
    assert_eq!(Uint256::from_decimal(b"007"), Some(number(7, 0)));
    assert_eq!(Uint256::from_decimal(b"256"), Some(number(256, 0)));
    assert_eq!(
        Uint256::from_decimal(b"340282366920938463463374607431768211456"),
        Some(number(0, 1))
    );
    assert_eq!(
        Uint256::from_decimal(
            b"115792089237316195423570985008687907853269984665640564039457584007913129639935"
        ),
        Some(number(u128::MAX, u128::MAX))
    );
}

#[test]
fn from_decimal_rejects_the_rest() {
    assert_eq!(Uint256::from_decimal(b""), None);
    assert_eq!(Uint256::from_decimal(b"-1"), None);
    assert_eq!(Uint256::from_decimal(b"1a"), None);
    assert_eq!(Uint256::from_decimal(b"0x10"), None);
    assert_eq!(Uint256::from_decimal(b" 1"), None);
    assert_eq!(Uint256::from_decimal(b"1/"), None);
    assert_eq!(Uint256::from_decimal(b"1:"), None);
    assert_eq!(
        Uint256::from_decimal(
            b"115792089237316195423570985008687907853269984665640564039457584007913129639936"
        ),
        None
    );
    assert_eq!(
        Uint256::from_decimal(
            b"1157920892373161954235709850086879078532699846656405640394575840079131296399350"
        ),
        None
    );
}

#[test]
fn from_decimal_undoes_to_decimal() {
    for n in [number(0, 0), number(1, 0), number(u128::MAX, 5), number(12345, u128::MAX)] {
        assert_eq!(Uint256::from_decimal(&n.to_decimal()), Some(n));
    }
}
