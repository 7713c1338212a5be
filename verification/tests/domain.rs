use std::collections::HashSet;

use zero2prod::domain::subscriber_id::{RANDOM_UUID_BITS, VERSION_AND_VARIANT_MASK};
use zero2prod::domain::subscriber_name::holds_name;
use zero2prod::domain::subscription_token::holds_token;
use zero2prod::domain::timestamp::NANOSECONDS_PER_SECOND;
use zero2prod::domain::{
    SubscriberEmail, SubscriberId, SubscriberName, SubscriberState, SubscriptionToken, Timestamp,
};

#[test]
fn empty_string_is_rejected() {
    let email = "".to_string();
    assert!(SubscriberEmail::parse(email).is_err());
}

#[test]
fn email_missing_at_symbol_is_rejected() {
    let email = "ursuladomain.com".to_string();
    assert!(SubscriberEmail::parse(email).is_err());
}

#[test]
fn email_missing_subject_is_rejected() {
    let email = "@domain.com".to_string();
    assert!(SubscriberEmail::parse(email).is_err());
}

#[test]
fn valid_emails_are_parsed_successfully() {
    for text in [
        "ursula_le_guin@gmail.com",
        "ursula@x.com",
        "email@here.com",
        "weirder-email@here.and.there.com",
        "email@[127.0.0.1]",
    ] {
        let email = SubscriberEmail::parse(text.to_string()).unwrap();
        assert_eq!(email.as_ref(), text);
    }
}

#[test]
fn rejected_email_is_reported_by_its_text() {
    let message = SubscriberEmail::parse("ursuladomain.com".to_string()).unwrap_err();
    assert_eq!(message, "ursuladomain.com is not a valid email address.");
}

#[test]
fn email_verdict_decides_the_result() {
    let refused = SubscriberEmail::from_verdict("ursula@x.com".to_string(), false);
    assert_eq!(refused.unwrap_err(), "ursula@x.com is not a valid email address.");
    let accepted = SubscriberEmail::from_verdict("ursula@x.com".to_string(), true);
    assert_eq!(accepted.unwrap().as_ref(), "ursula@x.com");
}

#[test]
fn test_try_from_covers_all_values() {
    for s in SubscriberState::iter() {
        let state_str: String = s.as_str().into();
        let s_from_str = SubscriberState::try_from(state_str);

        assert!(s_from_str.is_ok());
        assert_eq!(s, s_from_str.unwrap());
    }

    let s_from_str = SubscriberState::try_from("AcTive".to_owned());
    assert!(s_from_str.is_ok());
}

#[test]
fn test_try_from_returns_error_for_unknown_status() {
    let s_from_str = SubscriberState::try_from("undefined".to_owned());
    assert!(s_from_str.is_err());
}

#[test]
fn status_names_are_the_stored_texts() {
    assert_eq!(SubscriberState::Active.as_str(), "active");
    assert_eq!(SubscriberState::Pending.as_str(), "pending_confirmation");
    assert_eq!(SubscriberState::Disabled.as_str(), "disabled");
    assert_eq!(
        SubscriberState::iter(),
        vec![SubscriberState::Active, SubscriberState::Pending, SubscriberState::Disabled]
    );
}

#[test]
fn status_is_read_ignoring_case() {
    assert_eq!(SubscriberState::try_from("AcTive".to_owned()), Ok(SubscriberState::Active));
    assert_eq!(
        SubscriberState::try_from("PENDING_CONFIRMATION".to_owned()),
        Ok(SubscriberState::Pending)
    );
    assert_eq!(SubscriberState::try_from("Disabled".to_owned()), Ok(SubscriberState::Disabled));
}

#[test]
fn unknown_status_is_reported_in_lowercase() {
    assert_eq!(
        SubscriberState::try_from("UnDefined".to_owned()),
        Err("Unknown subscriber status: undefined".to_owned())
    );
}

#[test]
fn lowercase_status_is_read_exactly() {
    assert_eq!(SubscriberState::from_lowercase("active"), Ok(SubscriberState::Active));
    assert_eq!(
        SubscriberState::from_lowercase("Active"),
        Err("Unknown subscriber status: Active".to_owned())
    );
    assert_eq!(
        SubscriberState::from_lowercase(""),
        Err("Unknown subscriber status: ".to_owned())
    );
}

#[test]
fn stored_status_is_read_leniently() {
    assert_eq!(SubscriberState::from_stored("active".to_owned()), SubscriberState::Active);
    assert_eq!(SubscriberState::from_stored("ACTIVE".to_owned()), SubscriberState::Active);
    assert_eq!(
        SubscriberState::from_stored("pending_confirmation".to_owned()),
        SubscriberState::Pending
    );
    assert_eq!(SubscriberState::from_stored("disabled".to_owned()), SubscriberState::Disabled);
    assert_eq!(SubscriberState::from_stored("undefined".to_owned()), SubscriberState::Disabled);
    assert_eq!(SubscriberState::from_stored("".to_owned()), SubscriberState::Disabled);
}

#[test]
fn generate_produces_valid_token() {
    let token = SubscriptionToken::generate();

    let new_token = SubscriptionToken::parse(token.as_ref().into());
    assert!(new_token.is_ok());
}

#[test]
fn bad_tokens_are_rejected() {
    // token is too long
    let s = "q".repeat(31);
    let token = SubscriptionToken::parse(s);
    assert!(token.is_err());

    // token is empty
    let token = SubscriptionToken::parse("".into());
    assert!(token.is_err());
}

#[test]
fn invalid_chars_are_rejected() {
    for last in ['=', ' ', '-', '_', '/', '\n', '\u{e9}', '\u{3b1}', '\u{1f600}', '\u{0}'] {
        let mut s = "a".repeat(29);
        s.push(last);
        assert_eq!(s.chars().count(), 30);
        let token = SubscriptionToken::parse(s);
        assert!(token.is_err());
    }
    for position in 0..30 {
        let mut chars: Vec<char> = "A1b2C3d4E5f6G7h8I9j0K1l2M3n4O5".chars().collect();
        chars[position] = '+';
        let s: String = chars.into_iter().collect();
        assert!(SubscriptionToken::parse(s).is_err());
    }
}

#[test]
fn alphanumeric_tokens_are_accepted() {
    for text in [
        "A1b2C3d4E5f6G7h8I9j0K1l2M3n4O5",
        "abcdefghijklmnopqrstuvwxyzABCD",
        "EFGHIJKLMNOPQRSTUVWXYZ01234567",
        "890",
        "a",
        "Z",
        "0",
    ] {
        let token = SubscriptionToken::parse(text.to_string()).unwrap();
        assert_eq!(token.as_ref(), text);
        assert!(holds_token(text));
    }
}

#[test]
fn token_alphabet_ends_where_it_should() {
    for outside in ['@', '[', '`', '{', '/', ':'] {
        assert!(!holds_token(&outside.to_string()));
    }
    for inside in ['A', 'Z', 'a', 'z', '0', '9'] {
        assert!(holds_token(&inside.to_string()));
    }
}

#[test]
fn rejected_token_is_reported_by_its_text() {
    assert_eq!(
        SubscriptionToken::parse("TdBMIE4nBbp43AY1YDTr5XrCw6R15=".to_string()).unwrap_err(),
        "TdBMIE4nBbp43AY1YDTr5XrCw6R15= is not a valid confirmation token."
    );
    assert_eq!(
        SubscriptionToken::parse(String::new()).unwrap_err(),
        " is not a valid confirmation token."
    );
}

#[test]
fn token_length_is_counted_in_characters() {
    assert!(SubscriptionToken::parse("q".repeat(30)).is_ok());
    assert!(SubscriptionToken::parse("q".repeat(31)).is_err());
    assert!(SubscriptionToken::parse("q".repeat(1000)).is_err());
}

#[test]
fn generated_tokens_have_thirty_alphanumeric_characters() {
    for _ in 0..100 {
        let token = SubscriptionToken::generate();
        assert_eq!(token.as_ref().len(), 30);
        assert!(token.as_ref().chars().all(|c| c.is_ascii_alphanumeric()));
    }
}

#[test]
fn a_thousand_generated_tokens_are_distinct() {
    let mut seen = HashSet::new();
    for _ in 0..1000 {
        let token = SubscriptionToken::generate();
        assert!(SubscriptionToken::parse(token.as_ref().to_string()).is_ok());
        assert!(seen.insert(token.as_ref().to_string()));
    }
    assert_eq!(seen.len(), 1000);
}

#[test]
fn cloned_token_has_the_same_text() {
    let token = SubscriptionToken::parse("A1b2C3d4E5f6G7h8I9j0K1l2M3n4O5".to_string()).unwrap();
    assert_eq!(token.clone().as_ref(), "A1b2C3d4E5f6G7h8I9j0K1l2M3n4O5");
}

#[test]
fn a_name_with_text_is_accepted() {
    for text in ["le guin", "Ursula Le Guin", " padded ", "a", "\u{e9}lodie", "x.y-z_1"] {
        let name = SubscriberName::parse(text.to_string()).unwrap();
        assert_eq!(name.as_ref(), text);
    }
}

#[test]
fn a_name_of_250_characters_is_accepted() {
    assert!(SubscriberName::parse("a".repeat(250)).is_ok());
    assert!(SubscriberName::parse("\u{e9}".repeat(250)).is_ok());
}

#[test]
fn a_name_longer_than_250_characters_is_rejected() {
    assert!(SubscriberName::parse("a".repeat(251)).is_err());
    assert!(SubscriberName::parse("a".repeat(1000)).is_err());
}

#[test]
fn blank_names_are_rejected() {
    for text in ["", " ", "   ", "\t", " \u{a0} ", "\u{2003}\u{3000}"] {
        assert!(SubscriberName::parse(text.to_string()).is_err());
        assert!(!holds_name(text));
    }
}

#[test]
fn names_with_forbidden_characters_are_rejected() {
    for c in ['/', '(', ')', '"', '<', '>', '\\', '{', '}'] {
        let text = format!("le{}guin", c);
        assert!(SubscriberName::parse(text).is_err());
    }
}

#[test]
fn names_with_control_characters_are_rejected() {
    for c in ['\u{0}', '\u{7}', '\n', '\r', '\t', '\u{1f}', '\u{7f}', '\u{85}', '\u{9f}'] {
        let text = format!("le{}guin", c);
        assert!(SubscriberName::parse(text).is_err());
    }
}

#[test]
fn forbidden_set_ends_where_it_should() {
    for c in ['\u{20}', '\u{7e}', '\u{a0}', '[', ']', '\'', '|', '.'] {
        let text = format!("le{}guin", c);
        assert!(SubscriberName::parse(text).is_ok());
    }
}

#[test]
fn rejected_name_is_reported_by_its_text() {
    assert_eq!(
        SubscriberName::parse("le/guin".to_string()).unwrap_err(),
        "le/guin is not a valid subscriber name."
    );
}

#[test]
fn white_space_agrees_with_the_standard_library() {
    let mut code: u32 = 0;
    while code <= 0x3100 {
        if let Some(c) = char::from_u32(code) {
            assert_eq!(!holds_name(&c.to_string()), c.is_whitespace() || c.is_control()
                || "/()\"<>\\{}".contains(c), "U+{:04X}", code);
        }
        code += 1;
    }
}

#[test]
fn generated_identity_is_a_random_uuid() {
    let mut seen = HashSet::new();
    for _ in 0..100 {
        let id = SubscriberId::generate();
        assert_eq!(id.as_u128() & VERSION_AND_VARIANT_MASK, RANDOM_UUID_BITS);
        assert!(seen.insert(id));
    }
}

#[test]
fn identity_keeps_its_bits() {
    let id = SubscriberId::new(0xa1a2a3a4b1b2c1c2d1d2d3d4d5d6d7d8);
    assert_eq!(id.as_u128(), 0xa1a2a3a4b1b2c1c2d1d2d3d4d5d6d7d8);
    assert_eq!(id, SubscriberId { value: 0xa1a2a3a4b1b2c1c2d1d2d3d4d5d6d7d8 });
}

#[test]
fn the_clock_is_past_2020() {
    let now = Timestamp::now();
    assert!(now.seconds > 1_577_836_800);
    assert!(now.nanoseconds < NANOSECONDS_PER_SECOND);
    assert_eq!(NANOSECONDS_PER_SECOND, 1_000_000_000);
    assert_eq!(Timestamp::new(5, 7), Timestamp { seconds: 5, nanoseconds: 7 });
}

#[test]
fn token_spells_its_draws_in_order() {
    let draws: Vec<u8> = b"A1b2C3d4E5f6G7h8I9j0K1l2M3n4O5".to_vec();
    let token = SubscriptionToken::token_from_draws(&draws);
    assert_eq!(token.as_ref(), "A1b2C3d4E5f6G7h8I9j0K1l2M3n4O5");
    for (k, c) in token.as_ref().chars().enumerate() {
        assert_eq!(c, draws[k] as char);
    }

    let short = SubscriptionToken::token_from_draws(&b"z9".to_vec());
    assert_eq!(short.as_ref(), "z9");
}

#[test]
fn different_draws_make_different_tokens() {
    let first: Vec<u8> = b"A1b2C3d4E5f6G7h8I9j0K1l2M3n4O5".to_vec();
    let mut seen = HashSet::new();
    assert!(seen.insert(SubscriptionToken::token_from_draws(&first).as_ref().to_string()));
    for position in 0..first.len() {
        let mut draws = first.clone();
        draws[position] = b'x';
        let token = SubscriptionToken::token_from_draws(&draws);
        assert_eq!(token.as_ref().as_bytes()[position], b'x');
        assert!(seen.insert(token.as_ref().to_string()));
    }
    assert_eq!(seen.len(), 31);
}
