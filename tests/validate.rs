use member_registry::{invalid_char, validate_name, ContractError, MAX_NAME_LENGTH, MIN_NAME_LENGTH};

#[test]
fn accepts_short_valid_name() {
    assert_eq!(validate_name("abc"), Ok(()));
}

#[test]
fn rejects_two_bytes_as_too_short() {
    assert_eq!(validate_name("ab"), Err(ContractError::NameTooShort { length: 2, min_length: 3 }));
}

#[test]
fn rejects_empty_name_as_too_short() {
    assert_eq!(validate_name(""), Err(ContractError::NameTooShort { length: 0, min_length: 3 }));
}

#[test]
fn rejects_65_bytes_as_too_long() {
    let name = "A".repeat(65);
    assert_eq!(
        validate_name(&name),
        Err(ContractError::NameTooLong { length: 65, max_length: 64 })
    );
}

#[test]
fn length_bounds_are_inclusive() {
    assert_eq!(validate_name(&"a".repeat(64)), Ok(()));
    assert_eq!(validate_name(&"z".repeat(3)), Ok(()));
    assert_eq!(
        validate_name(&"a".repeat(65)),
        Err(ContractError::NameTooLong { length: 65, max_length: 64 })
    );
    assert_eq!(MIN_NAME_LENGTH, 3);
    assert_eq!(MAX_NAME_LENGTH, 64);
}

#[test]
fn short_or_long_names_never_report_characters() {
    assert_eq!(validate_name("A*"), Err(ContractError::NameTooShort { length: 2, min_length: 3 }));
    assert_eq!(
        validate_name(&"*".repeat(70)),
        Err(ContractError::NameTooLong { length: 70, max_length: 64 })
    );
}

#[test]
fn reports_invalid_character() {
    assert_eq!(validate_name("ab*"), Err(ContractError::InvalidCharacter { c: '*' }));
}

#[test]
fn reports_first_invalid_character() {
    assert_eq!(validate_name("a-B_c*d"), Err(ContractError::InvalidCharacter { c: 'B' }));
    assert_eq!(validate_name("x y!"), Err(ContractError::InvalidCharacter { c: ' ' }));
}

#[test]
fn length_is_counted_in_bytes() {
    // 'é' is two bytes in UTF-8
    assert_eq!(validate_name("é"), Err(ContractError::NameTooShort { length: 2, min_length: 3 }));
    assert_eq!(validate_name("éa"), Err(ContractError::InvalidCharacter { c: 'é' }));
    assert_eq!(
        validate_name(&"é".repeat(33)),
        Err(ContractError::NameTooLong { length: 66, max_length: 64 })
    );
}

#[test]
fn accepts_all_allowed_characters() {
    assert_eq!(validate_name("0123456789"), Ok(()));
    assert_eq!(validate_name("abcdefghijklmnopqrstuvwxyz"), Ok(()));
    assert_eq!(validate_name("a.b-c_d"), Ok(()));
}

#[test]
fn invalid_char_classifies() {
    for c in ['0', '9', 'a', 'z', '.', '-', '_'] {
        assert!(!invalid_char(c), "{:?}", c);
    }
    for c in ['A', 'Z', '/', ':', '`', '{', ' ', '*', 'é', '\u{0}'] {
        assert!(invalid_char(c), "{:?}", c);
    }
}
