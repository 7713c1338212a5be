use zero2prod::domain::{
    NewSubscriber, SubscriberId, SubscriberState, SubscriptionToken, Timestamp,
};
use zero2prod::routes::{
    confirm_status_code, confirmation_email, confirmation_link, subscribe_status_code,
    ConfirmEvent, Confirmation, ConfirmationError, FormData, Parameters, SubscribeError,
    SubscribeEvent, SubscriberStatus, Subscription,
};

const TOKEN: &str = "A1b2C3d4E5f6G7h8I9j0K1l2M3n4O5";

fn form() -> FormData {
    FormData::new("ursula_le_guin@gmail.com".to_string(), "le guin".to_string())
}

fn started() -> Subscription {
    Subscription::start_with(form(), SubscriberId::new(7), Timestamp::new(1_700_000_000, 5))
}

fn token() -> SubscriptionToken {
    SubscriptionToken::parse(TOKEN.to_string()).unwrap()
}

fn store_failure(state: &Subscription) -> &str {
    match state {
        Subscription::Finished(Err(SubscribeError::StoreFailure(step))) => step.as_str(),
        other => panic!("not a store failure: {:?}", other),
    }
}

fn status_of(state: &Subscription) -> u16 {
    match state {
        Subscription::Finished(result) => subscribe_status_code(result),
        other => panic!("not finished: {:?}", other),
    }
}

#[test]
fn form_keeps_its_fields() {
    let form = form();
    assert_eq!(form.email(), "ursula_le_guin@gmail.com");
    assert_eq!(form.name(), "le guin");
}

#[test]
fn valid_form_becomes_a_new_subscriber() {
    let subscriber = NewSubscriber::try_from(form()).unwrap();
    assert_eq!(subscriber.email.as_ref(), "ursula_le_guin@gmail.com");
    assert_eq!(subscriber.name.as_ref(), "le guin");
}

#[test]
fn form_is_judged_by_its_name_first() {
    let both_bad = FormData::new("not-an-email".to_string(), "".to_string());
    assert_eq!(
        NewSubscriber::try_from(both_bad).unwrap_err(),
        " is not a valid subscriber name."
    );
    let bad_email = FormData::new("not-an-email".to_string(), "le guin".to_string());
    assert_eq!(
        NewSubscriber::try_from(bad_email).unwrap_err(),
        "not-an-email is not a valid email address."
    );
    let bad_name = FormData::new("ursula@x.com".to_string(), "le(guin".to_string());
    assert_eq!(
        NewSubscriber::try_from(bad_name).unwrap_err(),
        "le(guin is not a valid subscriber name."
    );
}

#[test]
fn confirmation_link_embeds_the_token() {
    assert_eq!(
        confirmation_link("http://127.0.0.1", "abc"),
        "http://127.0.0.1/subscriptions/confirm?subscription_token=abc"
    );
    assert_eq!(
        confirmation_link("https://news.example.com", TOKEN),
        "https://news.example.com/subscriptions/confirm?subscription_token=A1b2C3d4E5f6G7h8I9j0K1l2M3n4O5"
    );
    assert_eq!(confirmation_link("", ""), "/subscriptions/confirm?subscription_token=");
}

#[test]
fn confirmation_email_goes_to_the_subscriber() {
    let subscriber = NewSubscriber::try_from(form()).unwrap();
    let email = confirmation_email(&subscriber, "http://127.0.0.1", TOKEN);
    assert_eq!(email.recipient, "ursula_le_guin@gmail.com");
    assert_eq!(email.subject, "Welcome!");
    assert_eq!(
        email.confirmation_link,
        "http://127.0.0.1/subscriptions/confirm?subscription_token=A1b2C3d4E5f6G7h8I9j0K1l2M3n4O5"
    );
}

#[test]
fn subscription_starts_by_inserting_a_pending_subscriber() {
    match started() {
        Subscription::InsertSubscriber { subscriber, id, subscribed_at, status } => {
            assert_eq!(subscriber.email.as_ref(), "ursula_le_guin@gmail.com");
            assert_eq!(subscriber.name.as_ref(), "le guin");
            assert_eq!(id, SubscriberId::new(7));
            assert_eq!(subscribed_at, Timestamp::new(1_700_000_000, 5));
            assert_eq!(status, SubscriberState::Pending);
        }
        other => panic!("unexpected state: {:?}", other),
    }
}

#[test]
fn subscription_start_draws_an_identity() {
    match Subscription::start(form()) {
        Subscription::InsertSubscriber { subscriber, id, status, .. } => {
            assert_eq!(subscriber.email.as_ref(), "ursula_le_guin@gmail.com");
            assert_eq!(id.as_u128() >> 76 & 0xf, 4);
            assert_eq!(status, SubscriberState::Pending);
        }
        other => panic!("unexpected state: {:?}", other),
    }
    let first = Subscription::start(form());
    let second = Subscription::start(form());
    match (first, second) {
        (
            Subscription::InsertSubscriber { id: one, .. },
            Subscription::InsertSubscriber { id: other, .. },
        ) => assert_ne!(one, other),
        other => panic!("unexpected states: {:?}", other),
    }
}

#[test]
fn invalid_form_is_answered_at_once() {
    let state = Subscription::start_with(
        FormData::new("ursula_le_guin@gmail.com".to_string(), "".to_string()),
        SubscriberId::new(7),
        Timestamp::new(0, 0),
    );
    assert!(state.is_finished());
    match &state {
        Subscription::Finished(Err(SubscribeError::ValidationError(message))) => {
            assert_eq!(message, " is not a valid subscriber name.")
        }
        other => panic!("unexpected state: {:?}", other),
    }
    assert_eq!(status_of(&state), 400);

    let state = Subscription::start(FormData::new("nobody".to_string(), "le guin".to_string()));
    match &state {
        Subscription::Finished(Err(error)) => {
            assert_eq!(error.message(), "nobody is not a valid email address.");
            assert_eq!(error.status_code(), 400);
        }
        other => panic!("unexpected state: {:?}", other),
    }
}

#[test]
fn new_subscriber_path_runs_to_success() {
    let state = started();
    assert!(!state.is_finished());
    let state = state.advance(SubscribeEvent::Completed);
    match &state {
        Subscription::IssueToken { subscriber, id } => {
            assert_eq!(subscriber.email.as_ref(), "ursula_le_guin@gmail.com");
            assert_eq!(*id, SubscriberId::new(7));
        }
        other => panic!("unexpected state: {:?}", other),
    }
    let state = state.advance(SubscribeEvent::TokenIssued(token()));
    match &state {
        Subscription::InsertToken { subscriber, id, token } => {
            assert_eq!(subscriber.name.as_ref(), "le guin");
            assert_eq!(*id, SubscriberId::new(7));
            assert_eq!(token.as_ref(), TOKEN);
        }
        other => panic!("unexpected state: {:?}", other),
    }
    let state = state.advance(SubscribeEvent::Completed);
    match &state {
        Subscription::Commit { subscriber, token } => {
            assert_eq!(subscriber.email.as_ref(), "ursula_le_guin@gmail.com");
            assert_eq!(token.as_ref(), TOKEN);
        }
        other => panic!("unexpected state: {:?}", other),
    }
    let state = state.advance(SubscribeEvent::Completed);
    match &state {
        Subscription::Notify { subscriber, token } => {
            assert_eq!(subscriber.email.as_ref(), "ursula_le_guin@gmail.com");
            assert_eq!(token.as_ref(), TOKEN);
        }
        other => panic!("unexpected state: {:?}", other),
    }
    let state = state.advance(SubscribeEvent::Completed);
    assert!(state.is_finished());
    assert!(matches!(state, Subscription::Finished(Ok(()))));
    assert_eq!(status_of(&state), 200);
}

#[test]
fn failed_insert_leads_to_a_lookup() {
    let state = started().advance(SubscribeEvent::Failed);
    match &state {
        Subscription::FindSubscriberByEmail { subscriber } => {
            assert_eq!(subscriber.email.as_ref(), "ursula_le_guin@gmail.com")
        }
        other => panic!("unexpected state: {:?}", other),
    }
}

#[test]
fn active_subscriber_ends_the_request_with_success() {
    let found = SubscriberStatus { id: SubscriberId::new(9), status: SubscriberState::Active };
    let state = started().advance(SubscribeEvent::Failed).advance(SubscribeEvent::Found(found));
    assert!(matches!(state, Subscription::Finished(Ok(()))));
    assert_eq!(status_of(&state), 200);
}

#[test]
fn pending_or_disabled_subscriber_is_set_pending_again() {
    for status in [SubscriberState::Pending, SubscriberState::Disabled] {
        let found = SubscriberStatus { id: SubscriberId::new(9), status };
        let state =
            started().advance(SubscribeEvent::Failed).advance(SubscribeEvent::Found(found));
        match &state {
            Subscription::SetSubscriberStatus { subscriber, id, status } => {
                assert_eq!(subscriber.email.as_ref(), "ursula_le_guin@gmail.com");
                assert_eq!(*id, SubscriberId::new(9));
                assert_eq!(*status, SubscriberState::Pending);
            }
            other => panic!("unexpected state: {:?}", other),
        }
        let state = state.advance(SubscribeEvent::Completed);
        match &state {
            Subscription::IssueToken { id, .. } => assert_eq!(*id, SubscriberId::new(9)),
            other => panic!("unexpected state: {:?}", other),
        }
    }
}

#[test]
fn subscribe_fails_if_there_is_a_fatal_database_error() {
    // the insert fails, and the lookup that follows fails too
    let state = started().advance(SubscribeEvent::Failed).advance(SubscribeEvent::Failed);
    assert_eq!(store_failure(&state), "Failed to insert new subscriber in the database.");
    assert_eq!(status_of(&state), 500);
}

#[test]
fn missing_subscriber_after_a_failed_insert_is_fatal() {
    let state = started().advance(SubscribeEvent::Failed).advance(SubscribeEvent::NotFound);
    assert_eq!(store_failure(&state), "Failed to insert new subscriber in the database.");
    assert_eq!(status_of(&state), 500);
}

#[test]
fn each_store_failure_names_its_step() {
    let state = started().advance(SubscribeEvent::Unavailable);
    assert_eq!(store_failure(&state), "Failed to acquire a Postgres connection from the pool");

    let found = SubscriberStatus { id: SubscriberId::new(9), status: SubscriberState::Pending };
    let rearming =
        || started().advance(SubscribeEvent::Failed).advance(SubscribeEvent::Found(found));
    let state = rearming().advance(SubscribeEvent::Unavailable);
    assert_eq!(store_failure(&state), "Failed to acquire a Postgres connection from the pool");
    let state = rearming().advance(SubscribeEvent::Failed);
    assert_eq!(store_failure(&state), "Failed to update subscriber status");

    let saving = || {
        started().advance(SubscribeEvent::Completed).advance(SubscribeEvent::TokenIssued(token()))
    };
    let state = saving().advance(SubscribeEvent::Failed);
    assert_eq!(
        store_failure(&state),
        "Failed to store the confirmation token for a new subscriber."
    );
    assert_eq!(status_of(&state), 500);

    let state = saving().advance(SubscribeEvent::Completed).advance(SubscribeEvent::Failed);
    assert_eq!(
        store_failure(&state),
        "Failed to commit SQL transaction to store a new subscriber."
    );
    assert_eq!(status_of(&state), 500);
}

#[test]
fn failed_notification_is_its_own_error() {
    let state = started()
        .advance(SubscribeEvent::Completed)
        .advance(SubscribeEvent::TokenIssued(token()))
        .advance(SubscribeEvent::Completed)
        .advance(SubscribeEvent::Completed)
        .advance(SubscribeEvent::Failed);
    match &state {
        Subscription::Finished(Err(SubscribeError::NotificationFailure(step))) => {
            assert_eq!(step, "Failed to send a confirmation email.")
        }
        other => panic!("unexpected state: {:?}", other),
    }
    assert_eq!(status_of(&state), 500);
}

#[test]
fn events_that_answer_nothing_change_nothing() {
    let found = SubscriberStatus { id: SubscriberId::new(9), status: SubscriberState::Active };
    let state = started()
        .advance(SubscribeEvent::NotFound)
        .advance(SubscribeEvent::Found(found))
        .advance(SubscribeEvent::TokenIssued(token()));
    assert!(matches!(state, Subscription::InsertSubscriber { .. }));

    let state = state.advance(SubscribeEvent::Failed).advance(SubscribeEvent::Completed);
    let state = state.advance(SubscribeEvent::Unavailable);
    assert!(matches!(state, Subscription::FindSubscriberByEmail { .. }));

    let state = started().advance(SubscribeEvent::Completed);
    let state = state
        .advance(SubscribeEvent::Completed)
        .advance(SubscribeEvent::Failed)
        .advance(SubscribeEvent::Unavailable)
        .advance(SubscribeEvent::NotFound);
    assert!(matches!(state, Subscription::IssueToken { .. }));

    let state = state.advance(SubscribeEvent::TokenIssued(token()));
    let state = state.advance(SubscribeEvent::Unavailable).advance(SubscribeEvent::NotFound);
    assert!(matches!(state, Subscription::InsertToken { .. }));

    let state = state.advance(SubscribeEvent::Completed);
    let state = state.advance(SubscribeEvent::Unavailable).advance(SubscribeEvent::Found(found));
    assert!(matches!(state, Subscription::Commit { .. }));

    let state = state.advance(SubscribeEvent::Completed);
    let state = state.advance(SubscribeEvent::NotFound).advance(SubscribeEvent::Unavailable);
    assert!(matches!(state, Subscription::Notify { .. }));

    let state = state.advance(SubscribeEvent::Completed);
    let state = state.advance(SubscribeEvent::Failed).advance(SubscribeEvent::Completed);
    assert!(matches!(state, Subscription::Finished(Ok(()))));
}

#[test]
fn parameters_keep_the_token_text() {
    assert_eq!(Parameters::new(TOKEN.to_string()).subscription_token(), TOKEN);
}

#[test]
fn confirmation_starts_by_looking_up_the_token() {
    let state = Confirmation::start(Parameters::new(TOKEN.to_string()));
    assert!(!state.is_finished());
    match &state {
        Confirmation::FindSubscriberIdByToken { token } => assert_eq!(token.as_ref(), TOKEN),
        other => panic!("unexpected state: {:?}", other),
    }
}

#[test]
fn confirmation_with_bad_token_return_400() {
    let state =
        Confirmation::start(Parameters::new("TdBMIE4nBbp43AY1YDTr5XrCw6R15=".to_string()));
    assert!(state.is_finished());
    match &state {
        Confirmation::Finished(result) => {
            assert_eq!(confirm_status_code(result), 400);
            match result {
                Err(ConfirmationError::ValidationError(message)) => assert_eq!(
                    message,
                    "TdBMIE4nBbp43AY1YDTr5XrCw6R15= is not a valid confirmation token."
                ),
                other => panic!("unexpected result: {:?}", other),
            }
        }
        other => panic!("unexpected state: {:?}", other),
    }
}

#[test]
fn empty_and_overlong_tokens_are_bad_requests() {
    for text in [String::new(), "q".repeat(31)] {
        match Confirmation::start(Parameters::new(text)) {
            Confirmation::Finished(result) => assert_eq!(confirm_status_code(&result), 400),
            other => panic!("unexpected state: {:?}", other),
        }
    }
}

#[test]
fn known_token_activates_its_owner() {
    let state = Confirmation::start(Parameters::new(TOKEN.to_string()))
        .advance(ConfirmEvent::Found(SubscriberId::new(7)));
    match &state {
        Confirmation::SetSubscriberStatus { id, status } => {
            assert_eq!(*id, SubscriberId::new(7));
            assert_eq!(*status, SubscriberState::Active);
        }
        other => panic!("unexpected state: {:?}", other),
    }
    let state = state.advance(ConfirmEvent::Completed);
    match &state {
        Confirmation::Finished(result) => {
            assert!(result.is_ok());
            assert_eq!(confirm_status_code(result), 200);
        }
        other => panic!("unexpected state: {:?}", other),
    }
}

#[test]
fn unknown_token_is_unauthorized() {
    let state =
        Confirmation::start(Parameters::new(TOKEN.to_string())).advance(ConfirmEvent::NotFound);
    match &state {
        Confirmation::Finished(result) => {
            assert!(matches!(result, Err(ConfirmationError::UnknownToken)));
            assert_eq!(confirm_status_code(result), 401);
        }
        other => panic!("unexpected state: {:?}", other),
    }
}

#[test]
fn store_failures_of_a_confirmation_name_their_step() {
    let state =
        Confirmation::start(Parameters::new(TOKEN.to_string())).advance(ConfirmEvent::Failed);
    match &state {
        Confirmation::Finished(result) => {
            match result {
                Err(ConfirmationError::StoreFailure(step)) => assert_eq!(
                    step,
                    "Failed to retrieve the subscriber associated with the provided token."
                ),
                other => panic!("unexpected result: {:?}", other),
            }
            assert_eq!(confirm_status_code(result), 500);
        }
        other => panic!("unexpected state: {:?}", other),
    }
    let state = Confirmation::start(Parameters::new(TOKEN.to_string()))
        .advance(ConfirmEvent::Found(SubscriberId::new(7)))
        .advance(ConfirmEvent::Failed);
    match &state {
        Confirmation::Finished(Err(ConfirmationError::StoreFailure(step))) => {
            assert_eq!(step, "Failed to confirm the subscription.")
        }
        other => panic!("unexpected state: {:?}", other),
    }
}

#[test]
fn confirmation_ignores_events_that_answer_nothing() {
    let state =
        Confirmation::start(Parameters::new(TOKEN.to_string())).advance(ConfirmEvent::Completed);
    assert!(matches!(state, Confirmation::FindSubscriberIdByToken { .. }));
    let state = state
        .advance(ConfirmEvent::Found(SubscriberId::new(7)))
        .advance(ConfirmEvent::NotFound)
        .advance(ConfirmEvent::Found(SubscriberId::new(8)));
    match &state {
        Confirmation::SetSubscriberStatus { id, .. } => assert_eq!(*id, SubscriberId::new(7)),
        other => panic!("unexpected state: {:?}", other),
    }
    let state = state.advance(ConfirmEvent::Completed).advance(ConfirmEvent::Failed);
    assert!(matches!(state, Confirmation::Finished(Ok(()))));
}

#[test]
fn error_classes_have_their_status() {
    assert_eq!(SubscribeError::ValidationError("x".to_string()).status_code(), 400);
    assert_eq!(SubscribeError::StoreFailure("x".to_string()).status_code(), 500);
    assert_eq!(SubscribeError::NotificationFailure("x".to_string()).status_code(), 500);
    assert_eq!(SubscribeError::StoreFailure("x".to_string()).message(), "x");
    assert_eq!(SubscribeError::NotificationFailure("y".to_string()).message(), "y");
    assert_eq!(ConfirmationError::ValidationError("x".to_string()).status_code(), 400);
    assert_eq!(ConfirmationError::UnknownToken.status_code(), 401);
    assert_eq!(ConfirmationError::StoreFailure("x".to_string()).status_code(), 500);
    assert_eq!(subscribe_status_code(&Ok(())), 200);
    assert_eq!(confirm_status_code(&Ok(())), 200);
}
