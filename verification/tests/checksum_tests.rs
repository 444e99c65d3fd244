use controlplane::checksum::{validate_luhn, validate_verhoeff};

#[test]
fn luhn_accepts_known_card_numbers() {
    assert!(validate_luhn("4111111111111111"));
    assert!(validate_luhn("4111 1111 1111 1111"));
    assert!(validate_luhn("4111-1111-1111-1111"));
    assert!(validate_luhn("378282246310005"));
    assert!(validate_luhn("5555555555554444"));
}

#[test]
fn luhn_rejects_bad_checksum_and_lengths() {
    assert!(!validate_luhn("4111111111111112"));
    assert!(!validate_luhn("411111111111"));
    assert!(!validate_luhn("41111111111111111111"));
    assert!(!validate_luhn(""));
    assert!(!validate_luhn("abcd"));
}

#[test]
fn verhoeff_accepts_valid_aadhaar() {
    assert!(validate_verhoeff("234123412346"));
    assert!(validate_verhoeff("2341 2341 2346"));
}

#[test]
fn verhoeff_rejects_invalid_aadhaar() {
    assert!(!validate_verhoeff("234123412345"));
    assert!(!validate_verhoeff("123412341234"));
    assert!(!validate_verhoeff("23412341234"));
    assert!(!validate_verhoeff("0000 0000 0000"));
}

fn with_digit(s: &str, i: usize, d: char) -> String {
    s.chars().enumerate().map(|(k, c)| if k == i { d } else { c }).collect()
}

#[test]
fn every_single_digit_change_breaks_the_checksums() {
    let card = "4111111111111111";
    assert!(validate_luhn(card));
    for i in 0..card.len() {
        for d in '0'..='9' {
            if card.chars().nth(i) != Some(d) {
                assert!(!validate_luhn(&with_digit(card, i, d)), "{} {}", i, d);
            }
        }
    }
    let aadhaar = "234123412346";
    assert!(validate_verhoeff(aadhaar));
    for i in 0..aadhaar.len() {
        for d in '0'..='9' {
            if aadhaar.chars().nth(i) != Some(d) {
                assert!(!validate_verhoeff(&with_digit(aadhaar, i, d)), "{} {}", i, d);
            }
        }
    }
}
