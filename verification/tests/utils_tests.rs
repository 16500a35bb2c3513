use rust_url_shortener::error::AppError;
use rust_url_shortener::utils::{
    code_from_symbols, generate_short_code, is_alphanumeric, DEFAULT_CODE_LENGTH,
};

#[test]
fn test_generate_short_code_length() {
    let code = generate_short_code(6).unwrap();
    assert_eq!(code.len(), 6, "Short code should be 6 characters long");
}

#[test]
fn test_generate_short_code_custom_length() {
    let code = generate_short_code(10).unwrap();
    assert_eq!(code.len(), 10, "Short code should be 10 characters long");
}

#[test]
fn test_generate_short_code_alphanumeric() {
    let code = generate_short_code(8).unwrap();
    assert!(
        code.chars().all(|c| c.is_alphanumeric()),
        "Short code should only contain alphanumeric characters"
    );
}

#[test]
fn test_generate_short_code_uniqueness() {
    let code1 = generate_short_code(8).unwrap();
    let code2 = generate_short_code(8).unwrap();
    assert!(
        !code1.is_empty() && !code2.is_empty(),
        "Generated codes should not be empty"
    );
}

#[test]
#[should_panic]
fn test_generate_short_code_zero_length() {
    generate_short_code(0).unwrap();
}

#[test]
fn zero_length_is_an_input_error() {
    assert_eq!(
        generate_short_code(0),
        Err(AppError::InvalidInput(
            "Short code length must be at least 1".to_string()
        ))
    );
}

#[test]
fn every_length_up_to_forty_is_honoured() {
    for len in 1..=40usize {
        let code = generate_short_code(len).unwrap();
        assert_eq!(code.chars().count(), len);
        assert_eq!(code.len(), len);
        assert!(code.chars().all(|c| c.is_ascii_alphanumeric()));
    }
}

#[test]
fn default_length_is_seven() {
    assert_eq!(DEFAULT_CODE_LENGTH, 7);
    assert_eq!(generate_short_code(DEFAULT_CODE_LENGTH).unwrap().len(), 7);
}

#[test]
fn generated_codes_vary() {
    let first = generate_short_code(32).unwrap();
    let mut differs = false;
    for _ in 0..20 {
        if generate_short_code(32).unwrap() != first {
            differs = true;
        }
    }
    assert!(differs);
}

#[test]
fn generator_reaches_letters_of_both_cases_and_digits() {
    let code = generate_short_code(4000).unwrap();
    assert!(code.chars().any(|c| c.is_ascii_lowercase()));
    assert!(code.chars().any(|c| c.is_ascii_uppercase()));
    assert!(code.chars().any(|c| c.is_ascii_digit()));
}

#[test]
fn code_from_symbols_spells_each_symbol_in_order() {
    let symbols = b"aZ09bY".to_vec();
    assert_eq!(code_from_symbols(&symbols), Ok("aZ09bY".to_string()));
    assert_eq!(code_from_symbols(&vec![b'x']), Ok("x".to_string()));
}

#[test]
fn code_from_symbols_refuses_no_symbols() {
    assert_eq!(
        code_from_symbols(&Vec::new()),
        Err(AppError::InvalidInput(
            "Short code length must be at least 1".to_string()
        ))
    );
}

#[test]
fn code_from_symbols_refuses_other_symbols() {
    let expected = Err(AppError::InvalidInput(
        "Short code symbols must be alphanumeric".to_string(),
    ));
    assert_eq!(code_from_symbols(&b"ab-cd".to_vec()), expected);
    assert_eq!(code_from_symbols(&b"abc ".to_vec()), expected);
    assert_eq!(code_from_symbols(&vec![b'a', 0xe9]), expected);
    assert_eq!(code_from_symbols(&vec![0]), expected);
}

#[test]
fn is_alphanumeric_agrees_with_the_ascii_classes() {
    let mut count = 0;
    for symbol in 0..=255u8 {
        assert_eq!(is_alphanumeric(symbol), symbol.is_ascii_alphanumeric());
        if is_alphanumeric(symbol) {
            count += 1;
        }
    }
    assert_eq!(count, 62);
    assert!(is_alphanumeric(b'0') && is_alphanumeric(b'9'));
    assert!(is_alphanumeric(b'A') && is_alphanumeric(b'Z'));
    assert!(is_alphanumeric(b'a') && is_alphanumeric(b'z'));
    assert!(!is_alphanumeric(b'/') && !is_alphanumeric(b':'));
    assert!(!is_alphanumeric(b'@') && !is_alphanumeric(b'['));
    assert!(!is_alphanumeric(b'`') && !is_alphanumeric(b'{'));
}
