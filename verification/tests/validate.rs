use appvarpack::validate::{var_prefix_str, ValidationError};

#[test]
fn accepts_two_ascii_letters() {
    assert_eq!(var_prefix_str("ab"), Ok("ab".to_string()));
    assert_eq!(var_prefix_str("XY"), Ok("XY".to_string()));
    assert_eq!(var_prefix_str("Zz"), Ok("Zz".to_string()));
}

#[test]
fn rejects_short_prefix() {
    assert_eq!(
        var_prefix_str("a"),
        Err(ValidationError::WrongLength { found: 1 })
    );
    assert_eq!(
        var_prefix_str(""),
        Err(ValidationError::WrongLength { found: 0 })
    );
}

#[test]
fn rejects_long_prefix() {
    assert_eq!(
        var_prefix_str("abc"),
        Err(ValidationError::WrongLength { found: 3 })
    );
}

#[test]
fn rejects_digit_in_prefix() {
    assert_eq!(
        var_prefix_str("a1"),
        Err(ValidationError::NonAlphabetic {
            character: '1',
            position: 1
        })
    );
    assert_eq!(
        var_prefix_str("1b"),
        Err(ValidationError::NonAlphabetic {
            character: '1',
            position: 0
        })
    );
}

#[test]
fn counts_characters_not_bytes() {
    // One two-byte character: length one in characters, two in bytes.
    assert_eq!(
        var_prefix_str("\u{e9}"),
        Err(ValidationError::WrongLength { found: 1 })
    );
    // Two characters, the first not ASCII alphabetic.
    assert_eq!(
        var_prefix_str("\u{e9}a"),
        Err(ValidationError::NonAlphabetic {
            character: '\u{e9}',
            position: 0
        })
    );
}
