use progress2win::error::{AppError, ErrorKind};
use progress2win::text::{contains_char, same_text};

#[test]
fn errors_render_as_label_and_message() {
    assert_eq!(AppError::Database("disk full".to_string()).to_string(), "Database error: disk full");
    assert_eq!(
        AppError::Auth("Invalid credentials".to_string()).to_string(),
        "Authentication error: Invalid credentials"
    );
    assert_eq!(
        AppError::Validation("Invalid email format".to_string()).to_string(),
        "Validation error: Invalid email format"
    );
    assert_eq!(AppError::NotFound("User not found".to_string()).to_string(), "Not found: User not found");
    assert_eq!(AppError::Unauthorized("no".to_string()).to_string(), "Unauthorized: no");
    assert_eq!(
        AppError::Conflict("User already exists".to_string()).to_string(),
        "Conflict: User already exists"
    );
    assert_eq!(AppError::Internal("boom".to_string()).to_string(), "Internal error: boom");
    assert_eq!(AppError::Internal(String::new()).to_string(), "Internal error: ");
}

#[test]
fn errors_report_their_kind_and_message() {
    let cases = vec![
        (AppError::Database("a".to_string()), ErrorKind::Database, "a"),
        (AppError::Auth("b".to_string()), ErrorKind::Auth, "b"),
        (AppError::Validation("c".to_string()), ErrorKind::Validation, "c"),
        (AppError::NotFound("d".to_string()), ErrorKind::NotFound, "d"),
        (AppError::Unauthorized("e".to_string()), ErrorKind::Unauthorized, "e"),
        (AppError::Conflict("f".to_string()), ErrorKind::Conflict, "f"),
        (AppError::Internal("g".to_string()), ErrorKind::Internal, "g"),
    ];
    for (error, kind, message) in cases {
        assert_eq!(error.kind(), kind);
        assert_eq!(error.message(), message);
    }
}

#[test]
fn same_text_compares_characters() {
    assert!(same_text("", ""));
    assert!(same_text("a@x.com", "a@x.com"));
    assert!(!same_text("a@x.com", "A@x.com"));
    assert!(!same_text("a@x.com", "a@x.co"));
    assert!(!same_text("a@x.co", "a@x.com"));
    assert!(!same_text("", "a"));
    assert!(same_text("grüße@x.com", "grüße@x.com"));
    assert!(!same_text("grüße", "grusse"));
    assert!(!same_text("é", "e\u{301}"));
}

#[test]
fn contains_char_finds_a_character_anywhere() {
    assert!(contains_char("a@x.com", '@'));
    assert!(contains_char("@", '@'));
    assert!(contains_char("ab@", '@'));
    assert!(contains_char("@ab", '@'));
    assert!(!contains_char("", '@'));
    assert!(!contains_char("a.x.com", '@'));
    assert!(contains_char("grüße", 'ü'));
    assert!(!contains_char("grüße", 'u'));
    // The bytes of a multi-byte character are not characters of the text.
    assert!(!contains_char("\u{440}", '@'));
}
