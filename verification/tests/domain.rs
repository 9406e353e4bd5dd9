use zero2prod::domain::{SubscriberEmail, SubscriberName};

#[test]
fn a_256_grapheme_long_name_is_valid() {
    let name = "ё".repeat(256);
    assert!(SubscriberName::parse(name).is_ok());
}

#[test]
fn a_name_longer_than_256_graphemes_is_rejected() {
    let name = "a".repeat(257);
    assert!(SubscriberName::parse(name).is_err());
}

#[test]
fn whitespace_only_names_are_rejected() {
    let name = " \t\n".to_string();
    assert!(SubscriberName::parse(name).is_err());
}

#[test]
fn non_ascii_whitespace_only_names_are_rejected() {
    let name = "\u{3000}\u{a0}\u{2009}".to_string();
    assert!(SubscriberName::parse(name).is_err());
}

#[test]
fn empty_string_is_rejected() {
    let name = "".to_string();
    assert!(SubscriberName::parse(name).is_err());
}

#[test]
fn names_containing_an_invalid_character_are_rejected() {
    for name in &['/', '(', ')', '"', '<', '>', '\\', '{', '}'] {
        let name = format!("Ursula{}", name);
        assert!(SubscriberName::parse(name).is_err());
    }
}

#[test]
fn a_valid_name_is_parsed_successfully() {
    let name = "Ursula Le Guin".to_string();
    let parsed = SubscriberName::parse(name).unwrap();
    assert_eq!(parsed.as_ref(), "Ursula Le Guin");
}

#[test]
fn a_name_with_surrounding_whitespace_is_kept_as_given() {
    let parsed = SubscriberName::parse("  le guin ".to_string()).unwrap();
    assert_eq!(parsed.as_ref(), "  le guin ");
}

#[test]
fn a_rejected_name_is_named_in_the_error() {
    let err = SubscriberName::parse("Ursula<".to_string()).err().unwrap();
    assert_eq!(err, "Ursula< is not a valid subscriber name.");
}

#[test]
fn empty_email_is_rejected() {
    let email = "".to_string();
    assert!(SubscriberEmail::parse(email).is_err());
}

#[test]
fn email_missing_at_symbol_is_rejected() {
    let email = "ursuladomain.com".to_string();
    assert!(SubscriberEmail::parse(email).is_err());
}

#[test]
fn email_missing_subject_is_rejected() {
    let email = "@domain.com".to_string();
    assert!(SubscriberEmail::parse(email).is_err());
}

#[test]
fn a_valid_email_is_parsed_successfully() {
    let parsed = SubscriberEmail::parse("ursula_le_guin@gmail.com".to_string()).unwrap();
    assert_eq!(parsed.as_ref(), "ursula_le_guin@gmail.com");
}

#[test]
fn a_rejected_email_is_named_in_the_error() {
    let err = SubscriberEmail::parse("definitely-not-an-email".to_string()).err().unwrap();
    assert_eq!(err, "definitely-not-an-email is not a valid subscriber email.");
}
