use vardy::contact::ContactForm;

fn form(name: &str, email: &str, message: &str) -> ContactForm {
    ContactForm {
        name: name.into(),
        email: email.into(),
        message: message.into(),
        _website: None,
    }
}

#[test]
fn valid_form_passes_validation() {
    assert!(form("Alan", "a@b.cc", "hi").validate().is_ok());
}

#[test]
fn empty_name_rejected() {
    let err = form("", "a@b.cc", "hi").validate().unwrap_err();
    assert!(err.contains("name"));
}

#[test]
fn whitespace_only_name_rejected() {
    let err = form("   ", "a@b.cc", "hi").validate().unwrap_err();
    assert!(err.contains("name"));
}

#[test]
fn empty_email_rejected() {
    let err = form("Alan", "", "hi").validate().unwrap_err();
    assert!(err.contains("email"));
}

#[test]
fn empty_message_rejected() {
    let err = form("Alan", "a@b.cc", "").validate().unwrap_err();
    assert!(err.contains("message"));
}

#[test]
fn name_too_long_rejected() {
    let long = "a".repeat(201);
    assert!(form(&long, "a@b.cc", "hi").validate().is_err());
}

#[test]
fn name_at_boundary_accepted() {
    let max = "a".repeat(200);
    assert!(form(&max, "a@b.cc", "hi").validate().is_ok());
}

#[test]
fn email_too_long_rejected() {
    let long = "a".repeat(255);
    assert!(form("Alan", &long, "hi").validate().is_err());
}

#[test]
fn message_too_long_rejected() {
    let long = "a".repeat(10_001);
    assert!(form("Alan", "a@b.cc", &long).validate().is_err());
}

#[test]
fn message_at_boundary_accepted() {
    let max = "a".repeat(10_000);
    assert!(form("Alan", "a@b.cc", &max).validate().is_ok());
}

#[test]
fn validation_messages_are_exact() {
    assert_eq!(form(" \t", "a@b.cc", "hi").validate().unwrap_err(), "Please enter your name.");
    assert_eq!(form("Alan", "\n", "hi").validate().unwrap_err(), "Please enter your email address.");
    assert_eq!(form("Alan", "a@b.cc", "\u{3000}").validate().unwrap_err(), "Please enter a message.");
    assert_eq!(
        form(&"a".repeat(201), "a@b.cc", "hi").validate().unwrap_err(),
        "Name must be 200 characters or fewer."
    );
    assert_eq!(
        form("Alan", &"a".repeat(255), "hi").validate().unwrap_err(),
        "Email must be 254 characters or fewer."
    );
    assert_eq!(
        form("Alan", "a@b.cc", &"a".repeat(10_001)).validate().unwrap_err(),
        "Message must be 10,000 characters or fewer."
    );
}

#[test]
fn blank_field_reported_before_long_field() {
    // The name is too long, but the blank message is reported first.
    let err = form(&"a".repeat(500), "a@b.cc", "   ").validate().unwrap_err();
    assert_eq!(err, "Please enter a message.");
}

#[test]
fn lengths_count_utf8_bytes() {
    // 100 two-byte characters are 200 bytes: accepted; one more byte is not.
    let at_limit = "é".repeat(100);
    assert!(form(&at_limit, "a@b.cc", "hi").validate().is_ok());
    let over = format!("{}a", at_limit);
    assert!(form(&over, "a@b.cc", "hi").validate().is_err());
}

#[test]
fn honeypot_detects_filled_website_field() {
    let mut f = form("Alan", "a@b.cc", "hi");
    assert!(!f.is_honeypot_filled());
    f._website = Some(String::new());
    assert!(!f.is_honeypot_filled());
    f._website = Some("http://spam.example".into());
    assert!(f.is_honeypot_filled());
}
