use ax_exchange_sdk::auth::{Password, Token, Username};

#[test]
fn test_valid_usernames() {
    let valid_usernames = vec![
        "user123",
        "test_user",
        "user@domain.com",
        "user+tag@domain.com",
        "user.name@domain.com",
        "user-name",
        "user_name",
    ];

    for username in valid_usernames {
        assert!(Username::new(username).is_ok(), "Username '{}' should be valid", username);
    }
}

#[test]
fn test_invalid_usernames() {
    let too_long = "a".repeat(51);
    let invalid_usernames = vec!["", "user space", "user#", "user$", &too_long];

    for username in invalid_usernames {
        assert!(Username::new(username).is_err(), "Username '{}' should be invalid", username);
    }
}

#[test]
fn test_username_length_limit() {
    let exactly_50_chars = "a".repeat(50);
    assert!(Username::new(&exactly_50_chars).is_ok());

    let too_long = "a".repeat(51);
    assert!(Username::new(&too_long).is_err());
}

#[test]
fn test_validate_username_function() {
    assert!(Username::new("valid_user").is_ok());
    assert!(Username::new("user@domain.com").is_ok());

    assert!(Username::new("").is_err());
    assert!(Username::new("user space").is_err());
    assert!(Username::new(&"a".repeat(51)).is_err());
}

#[test]
fn username_error_messages() {
    assert_eq!(Username::new("").unwrap_err(), "Username cannot be empty");
    assert_eq!(Username::new(&"a".repeat(51)).unwrap_err(), "Username cannot be longer than 50 characters");
    assert_eq!(Username::new("user space").unwrap_err(), "Username contains invalid characters");
    assert_eq!(Username::new("user_1").unwrap().as_str(), "user_1");
}

#[test]
fn password_rules() {
    assert_eq!(Password::new("").err().unwrap(), "Password cannot be empty");
    assert_eq!(Password::new("short").err().unwrap(), "Password must be at least 8 characters long");
    assert!(Password::new(&"p".repeat(128)).is_ok());
    assert_eq!(Password::new(&"p".repeat(129)).err().unwrap(), "Password cannot be longer than 128 characters");
    let p = Password::new("correct horse").unwrap();
    assert_eq!(p.expose_secret(), "correct horse");
    assert_eq!(p.len(), 13);
    assert!(!p.is_empty());
}

#[test]
fn token_rules() {
    assert_eq!(Token::new("").err().unwrap(), "Token cannot be empty");
    assert_eq!(Token::new("abc").err().unwrap(), "Token must be at least 10 characters long");
    assert_eq!(Token::new("abc def ghi jk").err().unwrap(), "Token contains invalid characters");
    assert_eq!(Token::new(&"t".repeat(257)).err().unwrap(), "Token cannot be longer than 256 characters");
    assert_eq!(Token::new("abcdef-123_XYZ").unwrap().expose_secret(), "abcdef-123_XYZ");
}

#[test]
fn username_refuses_backslash() {
    assert_eq!(Username::new("a\\b").unwrap_err(), "Username contains invalid characters");
    assert!(Username::new("a-b+c.d@e_f").is_ok());
}
