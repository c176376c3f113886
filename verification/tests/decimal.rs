use stx_settlement::decimal::{text_to_u128, u128_to_text};

#[test]
fn text_of_numbers() {
    assert_eq!(u128_to_text(0), b"0".to_vec());
    assert_eq!(u128_to_text(7), b"7".to_vec());
    assert_eq!(u128_to_text(10), b"10".to_vec());
    assert_eq!(u128_to_text(500), b"500".to_vec());
    assert_eq!(u128_to_text(18446744073709551615), b"18446744073709551615".to_vec());
    assert_eq!(
        u128_to_text(u128::MAX),
        b"340282366920938463463374607431768211455".to_vec()
    );
}

#[test]
fn numbers_of_text() {
    assert_eq!(text_to_u128(&b"0".to_vec(), u128::MAX), Some(0));
    assert_eq!(text_to_u128(&b"500".to_vec(), u128::MAX), Some(500));
    assert_eq!(text_to_u128(&b"+500".to_vec(), u128::MAX), Some(500));
    assert_eq!(text_to_u128(&b"000500".to_vec(), u128::MAX), Some(500));
    assert_eq!(
        text_to_u128(&b"340282366920938463463374607431768211455".to_vec(), u128::MAX),
        Some(u128::MAX)
    );
}

#[test]
fn text_that_writes_no_number() {
    let max = u128::MAX;
    assert_eq!(text_to_u128(&b"".to_vec(), max), None);
    assert_eq!(text_to_u128(&b"+".to_vec(), max), None);
    assert_eq!(text_to_u128(&b"-5".to_vec(), max), None);
    assert_eq!(text_to_u128(&b"++5".to_vec(), max), None);
    assert_eq!(text_to_u128(&b"5+".to_vec(), max), None);
    assert_eq!(text_to_u128(&b" 5".to_vec(), max), None);
    assert_eq!(text_to_u128(&b"5 ".to_vec(), max), None);
    assert_eq!(text_to_u128(&b"1_000".to_vec(), max), None);
    assert_eq!(text_to_u128(&b"12a".to_vec(), max), None);
    assert_eq!(text_to_u128(&b"0x10".to_vec(), max), None);
    assert_eq!(text_to_u128(&b"1.5".to_vec(), max), None);
}

#[test]
fn text_that_writes_too_large_a_number() {
    assert_eq!(
        text_to_u128(&b"340282366920938463463374607431768211456".to_vec(), u128::MAX),
        None
    );
    assert_eq!(
        text_to_u128(&b"3402823669209384634633746074317682114550".to_vec(), u128::MAX),
        None
    );
    assert_eq!(text_to_u128(&b"18446744073709551615".to_vec(), u64::MAX as u128), Some(u64::MAX as u128));
    assert_eq!(text_to_u128(&b"18446744073709551616".to_vec(), u64::MAX as u128), None);
    assert_eq!(text_to_u128(&b"10".to_vec(), 9), None);
    assert_eq!(text_to_u128(&b"9".to_vec(), 9), Some(9));
    assert_eq!(text_to_u128(&b"5".to_vec(), 0), None);
    assert_eq!(text_to_u128(&b"0".to_vec(), 0), Some(0));
}

#[test]
fn what_is_written_is_read() {
    for n in [0u128, 1, 9, 10, 99, 100, 12345, u64::MAX as u128, u128::MAX - 1, u128::MAX] {
        assert_eq!(text_to_u128(&u128_to_text(n), u128::MAX), Some(n));
        // as the standard library writes and reads it
        assert_eq!(u128_to_text(n), format!("{}", n).into_bytes());
    }
}
