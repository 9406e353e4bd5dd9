use zero2prod::domain::NewSubscriber;
use zero2prod::routes::subscriptions::{
    confirmation_link, generate_subscription_token, token_from_samples, ConfirmationEmail,
    FormData, HttpStatus, SubscribeAction, SubscriberRow, Subscription,
};

fn form(name: &str, email: &str) -> FormData {
    FormData { email: email.to_string(), name: name.to_string() }
}

fn is_token_char(c: char) -> bool {
    c.is_ascii_uppercase() || c.is_ascii_lowercase() || c.is_ascii_digit()
}

#[test]
fn subscription_token_is_25_alphanumeric_characters() {
    for _ in 0..100 {
        let token = generate_subscription_token().unwrap();
        assert_eq!(token.chars().count(), 25);
        assert!(token.chars().all(is_token_char));
    }
}

#[test]
fn subscription_tokens_differ() {
    assert_ne!(
        generate_subscription_token().unwrap(),
        generate_subscription_token().unwrap()
    );
}

#[test]
fn token_is_made_of_the_samples_in_order() {
    assert_eq!(token_from_samples(&b"aZ09xY".to_vec()), "aZ09xY");
    assert_eq!(token_from_samples(&Vec::new()), "");
}

#[test]
fn a_valid_form_converts_to_a_new_subscriber() {
    let subscriber = NewSubscriber::try_from(form("le guin", "ursula_le_guin@gmail.com")).unwrap();
    assert_eq!(subscriber.email.as_ref(), "ursula_le_guin@gmail.com");
    assert_eq!(subscriber.name.as_ref(), "le guin");
}

#[test]
fn an_empty_name_is_refused() {
    let err = NewSubscriber::try_from(form("", "ursula_le_guin@gmail.com")).err().unwrap();
    assert_eq!(err, " is not a valid subscriber name.");
}

#[test]
fn an_invalid_email_is_refused() {
    let err = NewSubscriber::try_from(form("Ursula", "definitely-not-an-email")).err().unwrap();
    assert_eq!(err, "definitely-not-an-email is not a valid subscriber email.");
}

#[test]
fn the_name_is_checked_before_the_email() {
    let err = NewSubscriber::try_from(form("", "")).err().unwrap();
    assert_eq!(err, " is not a valid subscriber name.");
}

#[test]
fn confirmation_link_points_at_the_confirm_endpoint() {
    assert_eq!(
        confirmation_link("http://127.0.0.1", "abc123"),
        "http://127.0.0.1/subscriptions/confirm?subscription_token=abc123"
    );
}

#[test]
fn confirmation_email_bodies_carry_the_link() {
    let subscriber = NewSubscriber::try_from(form("le guin", "ursula_le_guin@gmail.com")).unwrap();
    let mail = ConfirmationEmail::new(subscriber, "http://127.0.0.1", "mytoken");
    let link = "http://127.0.0.1/subscriptions/confirm?subscription_token=mytoken";
    assert_eq!(mail.recipient.as_ref(), "ursula_le_guin@gmail.com");
    assert_eq!(mail.subject, "Welcome");
    assert_eq!(
        mail.plain_body,
        format!("Welcome to our newsletter!\nVisit {} to confirm your subscription.", link)
    );
    assert_eq!(
        mail.html_body,
        format!(
            "Welcome to our newsletter!<br />Click <a href=\"{}\">here</a> to confirm your subscription.",
            link
        )
    );
    assert_eq!(mail.plain_body.matches(link).count(), 1);
    assert_eq!(mail.html_body.matches(link).count(), 1);
}

#[test]
fn subscriber_row_is_pending_with_a_random_uuid() {
    let subscriber = NewSubscriber::try_from(form("le guin", "ursula_le_guin@gmail.com")).unwrap();
    let row = SubscriberRow::new(&subscriber).unwrap();
    assert_eq!(row.email, "ursula_le_guin@gmail.com");
    assert_eq!(row.name, "le guin");
    assert_eq!(row.status, "pending_confirmation");
    assert!(row.subscribed_at_micros > 0);
    let id = uuid::Uuid::from_u128(row.id);
    assert_eq!(id.get_version_num(), 4);
    assert_eq!(id.get_variant(), uuid::Variant::RFC4122);
    let other = SubscriberRow::new(&subscriber).unwrap();
    assert_ne!(row.id, other.id);
}

#[test]
fn subscriber_row_from_parts_keeps_id_and_time() {
    let subscriber = NewSubscriber::try_from(form("le guin", "ursula_le_guin@gmail.com")).unwrap();
    let row = SubscriberRow::from_parts(&subscriber, 0x1234_5678, 1_700_000_000_000_000);
    assert_eq!(row.id, 0x1234_5678);
    assert_eq!(row.subscribed_at_micros, 1_700_000_000_000_000);
    assert_eq!(row.email, "ursula_le_guin@gmail.com");
    assert_eq!(row.name, "le guin");
    assert_eq!(row.status, "pending_confirmation");
}

#[test]
fn subscriber_row_time_is_close_to_now() {
    let subscriber = NewSubscriber::try_from(form("le guin", "ursula_le_guin@gmail.com")).unwrap();
    let before = chrono::Utc::now().timestamp_micros();
    let row = SubscriberRow::new(&subscriber).unwrap();
    let after = chrono::Utc::now().timestamp_micros();
    assert!(before <= row.subscribed_at_micros && row.subscribed_at_micros <= after);
}

#[test]
fn a_base_url_holding_http_twice_still_gives_one_link_per_body() {
    let subscriber = NewSubscriber::try_from(form("le guin", "ursula_le_guin@gmail.com")).unwrap();
    let mail = ConfirmationEmail::new(subscriber, "http://127.0.0.1/http", "AbC123");
    let link = "http://127.0.0.1/http/subscriptions/confirm?subscription_token=AbC123";
    assert_eq!(mail.plain_body.matches(link).count(), 1);
    assert_eq!(mail.html_body.matches(link).count(), 1);
}

#[test]
fn http_status_codes() {
    assert_eq!(HttpStatus::Success.code(), 200);
    assert_eq!(HttpStatus::BadRequest.code(), 400);
    assert_eq!(HttpStatus::InternalServerError.code(), 500);
}

fn responded(action: &SubscribeAction) -> Option<HttpStatus> {
    match action {
        SubscribeAction::Respond(status) => Some(*status),
        _ => None,
    }
}

#[test]
fn subscribe_returns_a_200_for_valid_form_data() {
    let (s, action) = Subscription::start(
        form("le guin", "ursula_le_guin@gmail.com"),
        "http://127.0.0.1".to_string(),
    );
    assert!(matches!(action, SubscribeAction::BeginTransaction));
    let (s, action) = s.step(true);
    let subscriber_id = match action {
        SubscribeAction::InsertSubscriber(row) => {
            assert_eq!(row.email, "ursula_le_guin@gmail.com");
            assert_eq!(row.name, "le guin");
            assert_eq!(row.status, "pending_confirmation");
            row.id
        }
        _ => panic!("expected an insert"),
    };
    let (s, action) = s.step(true);
    let token = match action {
        SubscribeAction::StoreToken { subscriber_id: id, subscription_token } => {
            assert_eq!(id, subscriber_id);
            assert_eq!(subscription_token.chars().count(), 25);
            subscription_token
        }
        _ => panic!("expected the token to be stored"),
    };
    let (s, action) = s.step(true);
    assert!(matches!(action, SubscribeAction::Commit));
    let (s, action) = s.step(true);
    match action {
        SubscribeAction::SendConfirmationEmail(mail) => {
            assert_eq!(mail.recipient.as_ref(), "ursula_le_guin@gmail.com");
            let link = format!(
                "http://127.0.0.1/subscriptions/confirm?subscription_token={}",
                token
            );
            assert_eq!(mail.plain_body.matches(&link).count(), 1);
            assert_eq!(mail.html_body.matches(&link).count(), 1);
        }
        _ => panic!("expected the confirmation email"),
    }
    let (s, action) = s.step(true);
    assert_eq!(responded(&action), Some(HttpStatus::Success));
    assert_eq!(responded(&action).unwrap().code(), 200);
    let (_, action) = s.step(false);
    assert_eq!(responded(&action), Some(HttpStatus::Success));
}

#[test]
fn subscribe_returns_a_400_when_fields_are_present_but_invalid() {
    let test_cases = vec![
        ("", "ursula_le_guin@gmail.com", "empty name"),
        ("Ursula", "", "empty email"),
        ("Ursula", "definitely-not-an-email", "invalid email"),
    ];
    for (name, email, description) in test_cases {
        let (s, action) = Subscription::start(form(name, email), "http://127.0.0.1".to_string());
        assert_eq!(
            responded(&action).map(|s| s.code()),
            Some(400),
            "The API did not fail with 400 Bad Request when the payload was {}",
            description
        );
        let (_, action) = s.step(true);
        assert_eq!(responded(&action), Some(HttpStatus::BadRequest));
    }
}

#[test]
fn subscribe_returns_a_500_when_any_step_fails() {
    for failing in 0..5 {
        let (mut s, _) = Subscription::start(
            form("le guin", "ursula_le_guin@gmail.com"),
            "http://127.0.0.1".to_string(),
        );
        let mut last = None;
        for step in 0..=failing {
            let (next, action) = s.step(step != failing);
            s = next;
            last = responded(&action);
            if step < failing {
                assert_eq!(last, None);
            }
        }
        assert_eq!(last, Some(HttpStatus::InternalServerError));
        assert_eq!(last.unwrap().code(), 500);
    }
}

#[test]
fn advance_uses_the_given_row_and_token() {
    let subscriber = NewSubscriber::try_from(form("le guin", "ursula_le_guin@gmail.com")).unwrap();
    let row = SubscriberRow::from_parts(&subscriber, 42, 7);
    let (s, _) = Subscription::start(
        form("le guin", "ursula_le_guin@gmail.com"),
        "http://127.0.0.1".to_string(),
    );
    let (s, action) = s.advance(true, Some(row), None);
    match action {
        SubscribeAction::InsertSubscriber(row) => {
            assert_eq!(row.id, 42);
            assert_eq!(row.subscribed_at_micros, 7);
        }
        _ => panic!("expected an insert"),
    }
    let (_, action) = s.advance(true, None, Some("tok".to_string()));
    match action {
        SubscribeAction::StoreToken { subscriber_id, subscription_token } => {
            assert_eq!(subscriber_id, 42);
            assert_eq!(subscription_token, "tok");
        }
        _ => panic!("expected the token to be stored"),
    }
}

#[test]
fn advance_without_the_needed_draw_answers_500() {
    let (s, _) = Subscription::start(
        form("le guin", "ursula_le_guin@gmail.com"),
        "http://127.0.0.1".to_string(),
    );
    let (_, action) = s.advance(true, None, None);
    assert_eq!(responded(&action), Some(HttpStatus::InternalServerError));
}
