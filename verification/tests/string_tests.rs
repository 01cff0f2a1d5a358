use catalyser::errors::StringContentError;
use catalyser::validated_string::{NonBlankString, NonEmptyString};

#[test]
fn test_non_empty_string_new_success() {
    let non_blank_input = "Hello".to_string();
    let non_blank_result = NonEmptyString::new(non_blank_input.clone());
    assert!(non_blank_result.is_ok());
    assert_eq!(non_blank_result.unwrap().into_inner(), non_blank_input);

    let blank_input = " \t\n".to_string();
    let blank_result = NonEmptyString::new(blank_input.clone());
    assert!(blank_result.is_ok());
    assert_eq!(blank_result.unwrap().into_inner(), blank_input);
}

#[test]
fn test_non_empty_string_new_empty() {
    let input = "".to_string();
    let result = NonEmptyString::new(input);
    assert!(result.is_err());
}

#[test]
fn test_non_empty_string_new_unchecked() {
    let non_blank_input = "Hello".to_string();
    let non_blank_result = NonEmptyString::new_unchecked(non_blank_input.clone());
    assert_eq!(non_blank_result.into_inner(), non_blank_input);

    let blank_input = " \t\n".to_string();
    let blank_result = NonEmptyString::new_unchecked(blank_input.clone());
    assert_eq!(blank_result.into_inner(), blank_input);
}

#[test]
fn test_non_blank_string_new_success() {
    let input = "Hello".to_string();
    let result = NonBlankString::new(input.clone());
    assert!(result.is_ok());
    assert_eq!(result.unwrap().into_inner(), input);
}

#[test]
fn test_non_blank_string_new_blank() {
    let input = " \t\n".to_string();
    let result = NonBlankString::new(input);
    assert!(result.is_err());
}

#[test]
fn test_non_blank_string_new_unchecked() {
    let input = "Hello".to_string();
    let result = NonBlankString::new_unchecked(input.clone());
    assert_eq!(result.into_inner(), input);
}

#[test]
fn test_display_non_empty_string() {
    let input = "Display Test".to_string();
    let non_empty = NonEmptyString::new(input.clone()).unwrap();
    assert_eq!(non_empty.to_text(), input);
}

#[test]
fn test_display_non_blank_string() {
    let input = "Display Test".to_string();
    let non_blank = NonBlankString::new(input.clone()).unwrap();
    assert_eq!(non_blank.to_text(), input);
}

#[test]
fn test_validator_independence() {
    // The empty string is rejected by both standard validators.
    assert!(NonEmptyString::new("".to_string()).is_err());
    assert!(NonBlankString::new("".to_string()).is_err());

    // A whitespace-only string passes the non-empty validator but is
    // rejected as blank, with the original text as payload.
    let spaces = "   ".to_string();
    assert!(NonEmptyString::new(spaces.clone()).is_ok());
    let blank = NonBlankString::new(spaces.clone());
    assert_eq!(blank, Err(StringContentError::Blank(spaces)));

    // A single visible character passes both.
    assert!(NonEmptyString::new("a".to_string()).is_ok());
    assert!(NonBlankString::new("a".to_string()).is_ok());
}

#[test]
fn test_string_error_payloads() {
    let empty = NonEmptyString::new("".to_string()).unwrap_err();
    assert_eq!(empty, StringContentError::Empty);

    let blank = NonBlankString::new(" \t\n".to_string()).unwrap_err();
    match blank {
        StringContentError::Blank(original) => assert_eq!(original, " \t\n"),
        StringContentError::Empty => panic!("expected the blank variant"),
    }
}

#[test]
fn test_string_error_messages() {
    let empty = NonEmptyString::new("".to_string()).unwrap_err();
    assert_eq!(empty.message(), "string is empty");

    let blank = NonBlankString::new("  ".to_string()).unwrap_err();
    assert_eq!(blank.message(), "string is blank (content: `  `)");
}

#[test]
fn test_non_blank_string_unchecked_invalid_value() {
    // The escape hatch never fails, even for text the validator rejects.
    let invalid = NonBlankString::new_unchecked("   ".to_string());
    assert_eq!(invalid.into_inner(), "   ");

    let invalid_empty = NonEmptyString::new_unchecked("".to_string());
    assert_eq!(invalid_empty.into_inner(), "");
}

#[test]
fn test_string_text_round_trip() {
    // The external representation of a validated string is the bare
    // text; validating it once more restores an equal wrapper.
    let original = NonEmptyString::new("Serialize Test".to_string()).unwrap();
    let serialized = original.clone().into_inner();
    assert_eq!(serialized, "Serialize Test");
    let restored = NonEmptyString::new(serialized).unwrap();
    assert_eq!(restored, original);
}
