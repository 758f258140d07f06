//! The JSON document for a commit message.

use claude_commit::output::CommitMessage;

#[test]
fn output_test_commit_message_serialize_basic() {
    // Arrange - basic commit message
    let commit = CommitMessage {
        message: "feat: add new feature".to_string(),
    };

    // Act
    let result = commit.to_json();

    // Assert - should serialize to valid JSON
    assert!(result.is_ok());
    let json = result.unwrap();
    assert_eq!(json, r#"{"message":"feat: add new feature"}"#);
}

#[test]
fn output_test_commit_message_serialize_special_characters() {
    // Arrange - message with special characters
    let commit = CommitMessage {
        message: r#"fix: resolve "quote" issue and \backslash"#.to_string(),
    };

    // Act
    let result = commit.to_json();

    // Assert - special characters should be properly escaped
    assert!(result.is_ok());
    let json = result.unwrap();
    // JSON should escape quotes and backslashes
    assert!(json.contains(r#"\"quote\""#));
    assert!(json.contains(r#"\\"#));
}

#[test]
fn output_test_commit_message_serialize_empty_message() {
    // Arrange - empty message
    let commit = CommitMessage {
        message: "".to_string(),
    };

    // Act
    let result = commit.to_json();

    // Assert - should serialize to empty string in JSON
    assert!(result.is_ok());
    let json = result.unwrap();
    assert_eq!(json, r#"{"message":""}"#);
}

#[test]
fn output_test_commit_message_serialize_multiline_message() {
    // Arrange - multiline commit message
    let commit = CommitMessage {
        message: "feat: add feature\n\nThis is a longer description.\nWith multiple lines."
            .to_string(),
    };

    // Act
    let result = commit.to_json();

    // Assert - newlines should be escaped as \n
    assert!(result.is_ok());
    let json = result.unwrap();
    assert!(json.contains(r#"\n"#));
    assert!(json.contains("feat: add feature"));
    assert!(json.contains("longer description"));
}

#[test]
fn output_test_commit_message_serialize_unicode_and_emoji() {
    // Arrange - message with Unicode and emoji
    let commit = CommitMessage {
        message: "feat: æ—¥æœ¬èªã‚µãƒãƒ¼ãƒˆè¿½åŠ  ğŸ‰ğŸš€".to_string(),
    };

    // Act
    let result = commit.to_json();

    // Assert - Unicode and emoji should be preserved
    assert!(result.is_ok());
    let json = result.unwrap();
    // serde_json preserves Unicode by default
    assert!(json.contains("æ—¥æœ¬èªã‚µãƒãƒ¼ãƒˆè¿½åŠ "));
    assert!(json.contains("ğŸ‰"));
    assert!(json.contains("ğŸš€"));
}

#[test]
fn output_test_commit_message_deserialize_and_verify_structure() {
    // Arrange - serialize a message first
    let written = CommitMessage {
        message: "test: verify roundtrip".to_string(),
    };
    let json = written.to_json().unwrap();

    // Act - parse back to verify structure
    let parsed: serde_json::Value = serde_json::from_str(&json).unwrap();

    // Assert - should have correct structure
    assert!(parsed.is_object());
    assert_eq!(parsed["message"], "test: verify roundtrip");
}
