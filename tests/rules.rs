use refined_type::result::Error;
use refined_type::rule::number::{LessEqualU8, LessI8};
use refined_type::rule::{AlphaDigit, EmailRule, InitVec, LengthLessThan, NonEmptyStringRule, Rule};

#[test]
fn init_valid() -> Result<(), Error<Vec<String>>> {
    let table = vec![
        vec!["hello".to_string(), "hello".to_string(), "hello".to_string()],
        vec!["hello".to_string(), "hello".to_string(), "".to_string()],
    ];

    for value in table {
        let init = InitVec::<NonEmptyStringRule>::new(value.clone())?;
        assert_eq!(init.into_value(), value);
    }

    Ok(())
}

#[test]
fn test_length_less_than_5() -> Result<(), Error<&'static str>> {
    let target = "1234";
    let refined = LengthLessThan::<&str, 5>::new(target)?;
    assert_eq!(refined.into_value(), "1234");
    Ok(())
}

#[test]
fn test_length_less_than_5_fail() {
    let target = "12345";
    let refined = LengthLessThan::<&str, 5>::new(target);
    assert!(refined.is_err());
}

#[test]
fn test_length_less_than_10() -> Result<(), Error<&'static str>> {
    let target = "123456789";
    let refined = LengthLessThan::<&str, 10>::new(target)?;
    assert_eq!(refined.into_value(), "123456789");
    Ok(())
}

#[test]
fn test_length_less_than_10_fail() {
    let target = "1234567890";
    let refined = LengthLessThan::<&str, 10>::new(target);
    assert!(refined.is_err());
}

#[test]
fn test_less_than_50i8_ok() {
    let less_result = LessI8::<50>::new(1);
    assert!(less_result.is_ok());
}

#[test]
fn test_less_than_50i8_err() {
    let less_result = LessI8::<50>::new(50);
    assert!(less_result.is_err());
}

#[test]
fn test_less_equal_than_50u8_ok() {
    let less_equal_result = LessEqualU8::<50>::new(50);
    assert!(less_equal_result.is_ok());
}

#[test]
fn test_less_equal_than_50u8_err() {
    let less_equal_result = LessEqualU8::<50>::new(51);
    assert!(less_equal_result.is_err());
}

#[test]
fn test_alpha_digit_ok_1() {
    let alpha_digit = AlphaDigit::new("1234567890".to_string());
    assert!(alpha_digit.is_ok());
}

#[test]
fn test_alpha_digit_ok_2() {
    let alpha_digit = AlphaDigit::new("".to_string());
    assert!(alpha_digit.is_ok());
}

#[test]
fn test_alpha_digit_ok_3() {
    let alpha_digit = AlphaDigit::new("1234567890abc".to_string());
    assert!(alpha_digit.is_ok());
}

#[test]
fn test_alpha_digit_err() {
    let alpha_digit = AlphaDigit::new("1234567890abcこんにちは".to_string());
    assert!(alpha_digit.is_err());
}

#[test]
fn test_valid_email() {
    let valid = "sample@example.com".to_string();
    assert!(EmailRule::validate(valid).is_ok())
}

#[test]
fn test_invalid_email_1() {
    let invalid = "example.com".to_string();
    assert!(EmailRule::validate(invalid).is_err())
}

#[test]
fn test_invalid_email_2() {
    let invalid = "@".to_string();
    assert!(EmailRule::validate(invalid).is_err())
}
