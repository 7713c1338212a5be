//! The subscription request: its form, and the workflow that reconciles it
//! with the subscriber store, issues a confirmation token and asks for the
//! confirmation email.
//!
//! The workflow is a state machine. Each state that is not `Finished` names
//! the one operation that the caller has to perform next on the store or on
//! the email transport; `Subscription::advance` takes what the operation
//! reported and gives the next state.

use vstd::prelude::*;
use vstd::string::StringExecFns;
use crate::domain::new_subscriber::{NewSubscriber, NewSubscriberView};
use crate::domain::subscriber_email::{SubscriberEmail, email_accepted, invalid_email_message};
use crate::domain::subscriber_id::{SubscriberId, is_random_uuid};
use crate::domain::subscriber_name::{SubscriberName, invalid_name_message, valid_name};
use crate::domain::subscriber_status::SubscriberState;
use crate::domain::subscription_token::SubscriptionToken;
use crate::domain::timestamp::{NANOSECONDS_PER_SECOND, Timestamp};
use crate::routes::errors::{
    SubscribeError,
    SubscribeErrorView,
    STATUS_INTERNAL_SERVER_ERROR,
    STATUS_OK,
    subscribe_error_status,
};

verus! {

/// The fields of a subscription request, as they arrive.
#[derive(Debug)]
pub struct FormData {
    email: String,
    name: String,
}

impl View for FormData {
    type V = NewSubscriberView;

    closed spec fn view(&self) -> NewSubscriberView {
        NewSubscriberView { email: self.email@, name: self.name@ }
    }
}

impl FormData {
    /// The form with the given fields.
    pub fn new(email: String, name: String) -> (form: FormData)
        ensures
            form@.email == email@,
            form@.name == name@,
    {
        FormData { email, name }
    }

    /// The email field.
    pub fn email(&self) -> (text: &str)
        ensures
            text@ == self@.email,
    {
        self.email.as_str()
    }

    /// The name field.
    pub fn name(&self) -> (text: &str)
        ensures
            text@ == self@.name,
    {
        self.name.as_str()
    }
}

/// Whether both fields of a form are acceptable.
pub open spec fn valid_form(form: NewSubscriberView) -> bool {
    valid_name(form.name) && email_accepted(form.email)
}

/// The message that reports a form that is not acceptable: the name is
/// judged first.
pub open spec fn invalid_form_message(form: NewSubscriberView) -> Seq<char> {
    if !valid_name(form.name) {
        invalid_name_message(form.name)
    } else {
        invalid_email_message(form.email)
    }
}

impl NewSubscriber {
    /// Validates the fields of a form, the name first.
    pub fn try_from(value: FormData) -> (parsed: Result<NewSubscriber, String>)
        ensures
            match parsed {
                Ok(subscriber) => valid_form(value@) && subscriber@ == value@,
                Err(message) => !valid_form(value@) && message@ == invalid_form_message(value@),
            },
    {
        let name = match SubscriberName::parse(value.name) {
            Ok(name) => name,
            Err(message) => {
                return Err(message);
            },
        };
        let email = match SubscriberEmail::parse(value.email) {
            Ok(email) => email,
            Err(message) => {
                return Err(message);
            },
        };
        Ok(NewSubscriber { email, name })
    }
}

/// What the store holds of the subscriber with a given email address.
#[derive(Clone, Copy, Debug, PartialEq, Eq, Structural)]
pub struct SubscriberStatus {
    pub id: SubscriberId,
    pub status: SubscriberState,
}

/// The path and query under which a token is redeemed.
pub open spec fn confirmation_path() -> Seq<char> {
    "/subscriptions/confirm?subscription_token="@
}

/// The link that redeems `token` at the service under `base_url`.
pub open spec fn confirmation_link_of(base_url: Seq<char>, token: Seq<char>) -> Seq<char> {
    base_url + confirmation_path() + token
}

/// Builds the link that redeems `subscription_token` at the service under `base_url`.
pub fn confirmation_link(base_url: &str, subscription_token: &str) -> (link: String)
    ensures
        link@ == confirmation_link_of(base_url@, subscription_token@),
{
    base_url.to_owned().concat("/subscriptions/confirm?subscription_token=").concat(
        subscription_token,
    )
}

/// The subject of the confirmation email.
pub open spec fn confirmation_subject() -> Seq<char> {
    "Welcome!"@
}

/// What the email transport is asked to deliver: both bodies of the message,
/// plain and rich, are rendered around the one link.
#[derive(Debug)]
pub struct ConfirmationEmail {
    pub recipient: String,
    pub subject: String,
    pub confirmation_link: String,
}

/// A `ConfirmationEmail` with its texts as sequences.
pub struct ConfirmationEmailView {
    pub recipient: Seq<char>,
    pub subject: Seq<char>,
    pub confirmation_link: Seq<char>,
}

impl View for ConfirmationEmail {
    type V = ConfirmationEmailView;

    open spec fn view(&self) -> ConfirmationEmailView {
        ConfirmationEmailView {
            recipient: self.recipient@,
            subject: self.subject@,
            confirmation_link: self.confirmation_link@,
        }
    }
}

/// The confirmation email for `recipient` that carries `token`.
pub open spec fn confirmation_email_of(
    recipient: Seq<char>,
    base_url: Seq<char>,
    token: Seq<char>,
) -> ConfirmationEmailView {
    ConfirmationEmailView {
        recipient,
        subject: confirmation_subject(),
        confirmation_link: confirmation_link_of(base_url, token),
    }
}

/// Composes the confirmation email for a new subscriber.
pub fn confirmation_email(
    new_subscriber: &NewSubscriber,
    base_url: &str,
    subscription_token: &str,
) -> (email: ConfirmationEmail)
    ensures
        email@ == confirmation_email_of(new_subscriber@.email, base_url@, subscription_token@),
{
    ConfirmationEmail {
        recipient: new_subscriber.email.as_ref().to_owned(),
        subject: "Welcome!".to_owned(),
        confirmation_link: confirmation_link(base_url, subscription_token),
    }
}

/// What the caller reports of the operation that a state asked for.
#[derive(Debug)]
pub enum SubscribeEvent {
    /// The operation succeeded.
    Completed,
    /// No transaction could be opened for the operation.
    Unavailable,
    /// The store refused the operation or failed; or the email was not delivered.
    Failed,
    /// The lookup found the subscriber.
    Found(SubscriberStatus),
    /// The lookup found no subscriber.
    NotFound,
    /// A fresh token was drawn.
    TokenIssued(SubscriptionToken),
}

/// A `SubscribeEvent` with its token as a sequence.
pub enum SubscribeEventView {
    Completed,
    Unavailable,
    Failed,
    Found(SubscriberStatus),
    NotFound,
    TokenIssued(Seq<char>),
}

impl View for SubscribeEvent {
    type V = SubscribeEventView;

    open spec fn view(&self) -> SubscribeEventView {
        match self {
            SubscribeEvent::Completed => SubscribeEventView::Completed,
            SubscribeEvent::Unavailable => SubscribeEventView::Unavailable,
            SubscribeEvent::Failed => SubscribeEventView::Failed,
            SubscribeEvent::Found(found) => SubscribeEventView::Found(*found),
            SubscribeEvent::NotFound => SubscribeEventView::NotFound,
            SubscribeEvent::TokenIssued(token) => SubscribeEventView::TokenIssued(token@),
        }
    }
}

/// The state of one subscription request.
#[derive(Debug)]
pub enum Subscription {
    /// Next: open a transaction and insert the subscriber with this
    /// identity, instant and status.
    InsertSubscriber {
        subscriber: NewSubscriber,
        id: SubscriberId,
        subscribed_at: Timestamp,
        status: SubscriberState,
    },
    /// The insert failed. Next: look the email address up, outside the
    /// failed transaction.
    FindSubscriberByEmail { subscriber: NewSubscriber },
    /// The subscriber exists and is not active. Next: abandon the failed
    /// transaction, open a fresh one and set the subscriber's status in it.
    SetSubscriberStatus { subscriber: NewSubscriber, id: SubscriberId, status: SubscriberState },
    /// Next: draw a fresh token.
    IssueToken { subscriber: NewSubscriber, id: SubscriberId },
    /// Next: insert the token for the subscriber, in the open transaction.
    InsertToken { subscriber: NewSubscriber, id: SubscriberId, token: SubscriptionToken },
    /// Next: commit the open transaction.
    Commit { subscriber: NewSubscriber, token: SubscriptionToken },
    /// Everything is committed. Next: hand the confirmation email that
    /// carries the token to the transport.
    Notify { subscriber: NewSubscriber, token: SubscriptionToken },
    /// The request is answered.
    Finished(Result<(), SubscribeError>),
}

/// A `Subscription` with its texts as sequences.
pub enum SubscriptionView {
    InsertSubscriber {
        subscriber: NewSubscriberView,
        id: SubscriberId,
        subscribed_at: Timestamp,
        status: SubscriberState,
    },
    FindSubscriberByEmail { subscriber: NewSubscriberView },
    SetSubscriberStatus { subscriber: NewSubscriberView, id: SubscriberId, status: SubscriberState },
    IssueToken { subscriber: NewSubscriberView, id: SubscriberId },
    InsertToken { subscriber: NewSubscriberView, id: SubscriberId, token: Seq<char> },
    Commit { subscriber: NewSubscriberView, token: Seq<char> },
    Notify { subscriber: NewSubscriberView, token: Seq<char> },
    Finished(Result<(), SubscribeErrorView>),
}

/// The answer to a subscription request, with its texts as sequences.
pub open spec fn subscribe_result_view(result: Result<(), SubscribeError>) -> Result<
    (),
    SubscribeErrorView,
> {
    match result {
        Ok(_) => Ok(()),
        Err(error) => Err(error@),
    }
}

impl View for Subscription {
    type V = SubscriptionView;

    open spec fn view(&self) -> SubscriptionView {
        match self {
            Subscription::InsertSubscriber { subscriber, id, subscribed_at, status } => {
                SubscriptionView::InsertSubscriber {
                    subscriber: subscriber@,
                    id: *id,
                    subscribed_at: *subscribed_at,
                    status: *status,
                }
            },
            Subscription::FindSubscriberByEmail { subscriber } => {
                SubscriptionView::FindSubscriberByEmail { subscriber: subscriber@ }
            },
            Subscription::SetSubscriberStatus { subscriber, id, status } => {
                SubscriptionView::SetSubscriberStatus {
                    subscriber: subscriber@,
                    id: *id,
                    status: *status,
                }
            },
            Subscription::IssueToken { subscriber, id } => {
                SubscriptionView::IssueToken { subscriber: subscriber@, id: *id }
            },
            Subscription::InsertToken { subscriber, id, token } => {
                SubscriptionView::InsertToken { subscriber: subscriber@, id: *id, token: token@ }
            },
            Subscription::Commit { subscriber, token } => {
                SubscriptionView::Commit { subscriber: subscriber@, token: token@ }
            },
            Subscription::Notify { subscriber, token } => {
                SubscriptionView::Notify { subscriber: subscriber@, token: token@ }
            },
            Subscription::Finished(result) => {
                SubscriptionView::Finished(subscribe_result_view(*result))
            },
        }
    }
}

/// The step named when no transaction could be opened.
pub open spec fn connection_failure() -> Seq<char> {
    "Failed to acquire a Postgres connection from the pool"@
}

/// The step named when the subscriber could neither be inserted nor found.
pub open spec fn insert_failure() -> Seq<char> {
    "Failed to insert new subscriber in the database."@
}

/// The step named when the status of an existing subscriber could not be set.
pub open spec fn update_failure() -> Seq<char> {
    "Failed to update subscriber status"@
}

/// The step named when the token could not be stored.
pub open spec fn token_failure() -> Seq<char> {
    "Failed to store the confirmation token for a new subscriber."@
}

/// The step named when the transaction could not be committed.
pub open spec fn commit_failure() -> Seq<char> {
    "Failed to commit SQL transaction to store a new subscriber."@
}

/// The step named when the confirmation email could not be handed over.
pub open spec fn notification_failure() -> Seq<char> {
    "Failed to send a confirmation email."@
}

/// The state in which a request fails at the store.
pub open spec fn store_failed(step: Seq<char>) -> SubscriptionView {
    SubscriptionView::Finished(Err(SubscribeErrorView::StoreFailure(step)))
}

/// The state in which a request with a malformed form is answered at once.
pub open spec fn subscription_refused(form: NewSubscriberView) -> SubscriptionView {
    SubscriptionView::Finished(Err(SubscribeErrorView::ValidationError(invalid_form_message(form))))
}

/// The state in which a subscription request begins.
pub open spec fn subscription_started(
    form: NewSubscriberView,
    id: SubscriberId,
    subscribed_at: Timestamp,
) -> SubscriptionView {
    if valid_form(form) {
        SubscriptionView::InsertSubscriber {
            subscriber: form,
            id,
            subscribed_at,
            status: SubscriberState::Pending,
        }
    } else {
        subscription_refused(form)
    }
}

/// Whether `state` is where a request for `form` begins once it has drawn
/// `id`, a random UUID, and read `subscribed_at` from the clock.
pub open spec fn started_with_draws(
    state: SubscriptionView,
    form: NewSubscriberView,
    id: SubscriberId,
    subscribed_at: Timestamp,
) -> bool {
    &&& is_random_uuid(id.value)
    &&& subscribed_at.nanoseconds < NANOSECONDS_PER_SECOND
    &&& state == subscription_started(form, id, subscribed_at)
}

/// The state that follows `state` when the caller reports `event`. An event
/// that does not answer the operation of `state` changes nothing.
pub open spec fn subscription_after(
    state: SubscriptionView,
    event: SubscribeEventView,
) -> SubscriptionView {
    match state {
        SubscriptionView::InsertSubscriber { subscriber, id, subscribed_at, status } => {
            match event {
                SubscribeEventView::Completed => SubscriptionView::IssueToken { subscriber, id },
                SubscribeEventView::Unavailable => store_failed(connection_failure()),
                SubscribeEventView::Failed => SubscriptionView::FindSubscriberByEmail {
                    subscriber,
                },
                _ => state,
            }
        },
        SubscriptionView::FindSubscriberByEmail { subscriber } => {
            match event {
                SubscribeEventView::Found(found) => {
                    if found.status == SubscriberState::Active {
                        SubscriptionView::Finished(Ok(()))
                    } else {
                        SubscriptionView::SetSubscriberStatus {
                            subscriber,
                            id: found.id,
                            status: SubscriberState::Pending,
                        }
                    }
                },
                SubscribeEventView::NotFound => store_failed(insert_failure()),
                SubscribeEventView::Failed => store_failed(insert_failure()),
                _ => state,
            }
        },
        SubscriptionView::SetSubscriberStatus { subscriber, id, status } => {
            match event {
                SubscribeEventView::Completed => SubscriptionView::IssueToken { subscriber, id },
                SubscribeEventView::Unavailable => store_failed(connection_failure()),
                SubscribeEventView::Failed => store_failed(update_failure()),
                _ => state,
            }
        },
        SubscriptionView::IssueToken { subscriber, id } => {
            match event {
                SubscribeEventView::TokenIssued(token) => SubscriptionView::InsertToken {
                    subscriber,
                    id,
                    token,
                },
                _ => state,
            }
        },
        SubscriptionView::InsertToken { subscriber, id, token } => {
            match event {
                SubscribeEventView::Completed => SubscriptionView::Commit { subscriber, token },
                SubscribeEventView::Failed => store_failed(token_failure()),
                _ => state,
            }
        },
        SubscriptionView::Commit { subscriber, token } => {
            match event {
                SubscribeEventView::Completed => SubscriptionView::Notify { subscriber, token },
                SubscribeEventView::Failed => store_failed(commit_failure()),
                _ => state,
            }
        },
        SubscriptionView::Notify { subscriber, token } => {
            match event {
                SubscribeEventView::Completed => SubscriptionView::Finished(Ok(())),
                SubscribeEventView::Failed => SubscriptionView::Finished(
                    Err(SubscribeErrorView::NotificationFailure(notification_failure())),
                ),
                _ => state,
            }
        },
        SubscriptionView::Finished(_) => state,
    }
}

/// How many operations a request in `state` may still ask for.
pub open spec fn steps_left(state: SubscriptionView) -> nat {
    match state {
        SubscriptionView::InsertSubscriber { .. } => 7,
        SubscriptionView::FindSubscriberByEmail { .. } => 6,
        SubscriptionView::SetSubscriberStatus { .. } => 5,
        SubscriptionView::IssueToken { .. } => 4,
        SubscriptionView::InsertToken { .. } => 3,
        SubscriptionView::Commit { .. } => 2,
        SubscriptionView::Notify { .. } => 1,
        SubscriptionView::Finished(_) => 0,
    }
}

/// A request never goes back: an event either leaves the state as it is or
/// brings the request closer to its answer. So no request asks for more than
/// seven operations, and an answer, once given, stays.
pub proof fn every_step_makes_progress(state: SubscriptionView, event: SubscribeEventView)
    ensures
        subscription_after(state, event) == state || steps_left(subscription_after(state, event))
            < steps_left(state),
        state is Finished ==> subscription_after(state, event) == state,
{
}

/// The email is asked for only once the transaction is committed, a commit
/// only once the token is inserted, and a token is drawn only once the
/// subscriber is inserted or set pending again.
pub proof fn operations_come_in_order(state: SubscriptionView, event: SubscribeEventView)
    requires
        subscription_after(state, event) != state,
    ensures
        subscription_after(state, event) is Notify ==> state is Commit && event is Completed,
        subscription_after(state, event) is Commit ==> state is InsertToken && event is Completed,
        subscription_after(state, event) is InsertToken ==> state is IssueToken,
        subscription_after(state, event) is IssueToken ==> (state is InsertSubscriber
            || state is SetSubscriberStatus) && event is Completed,
        subscription_after(state, event) is SetSubscriberStatus ==> state is FindSubscriberByEmail,
        subscription_after(state, event) is FindSubscriberByEmail ==> state is InsertSubscriber
            && event is Failed,
{
}

/// An email that could not be handed over is reported as a failure of its
/// own, apart from every failure of the store, and as the server's fault: by
/// then the subscriber and the token are committed.
pub proof fn failed_delivery_is_its_own_error(
    subscriber: NewSubscriberView,
    token: Seq<char>,
)
    ensures
        ({
            let answered = subscription_after(
                SubscriptionView::Notify { subscriber, token },
                SubscribeEventView::Failed,
            );
            &&& answered == SubscriptionView::Finished(
                Err(SubscribeErrorView::NotificationFailure(notification_failure())),
            )
            &&& answered != store_failed(notification_failure())
            &&& subscribe_error_status(
                SubscribeErrorView::NotificationFailure(notification_failure()),
            ) == STATUS_INTERNAL_SERVER_ERROR
        }),
{
}

/// The status that a request writes is never anything but `Pending`: a
/// request that starts inserts a pending subscriber, and a subscriber found
/// is set to `Pending`, or left alone where active.
pub proof fn only_pending_is_written(
    form: NewSubscriberView,
    id: SubscriberId,
    subscribed_at: Timestamp,
    state: SubscriptionView,
    event: SubscribeEventView,
)
    ensures
        subscription_started(form, id, subscribed_at) matches SubscriptionView::InsertSubscriber {
            status,
            ..
        } ==> status == SubscriberState::Pending,
        state is FindSubscriberByEmail ==> (subscription_after(
            state,
            event,
        ) matches SubscriptionView::SetSubscriberStatus { status, .. } ==> status
            == SubscriberState::Pending),
        state is FindSubscriberByEmail && event is Found && event->Found_0.status
            == SubscriberState::Active ==> subscription_after(state, event)
            == SubscriptionView::Finished(Ok(())),
{
}

fn store_failure(step: &str) -> (state: Subscription)
    ensures
        state@ == store_failed(step@),
{
    Subscription::Finished(Err(SubscribeError::StoreFailure(step.to_owned())))
}

impl Subscription {
    /// Begins the request for `form`. The form is validated first; only for
    /// a valid form is the identity drawn, a random UUID, and the clock read
    /// for the instant under which the subscriber would be inserted.
    pub fn start(form: FormData) -> (state: Subscription)
        ensures
            !valid_form(form@) ==> state@ == subscription_refused(form@),
            valid_form(form@) ==> exists|id: SubscriberId, subscribed_at: Timestamp|
                started_with_draws(state@, form@, id, subscribed_at),
    {
        match NewSubscriber::try_from(form) {
            Ok(subscriber) => {
                let id = SubscriberId::generate();
                let subscribed_at = Timestamp::now();
                let state = Subscription::insert(subscriber, id, subscribed_at);
                assert(started_with_draws(state@, form@, id, subscribed_at));
                state
            },
            Err(message) => Subscription::Finished(Err(SubscribeError::ValidationError(message))),
        }
    }

    /// Begins the request for `form`, with the identity and the instant
    /// under which the subscriber would be inserted if the form is valid.
    pub fn start_with(form: FormData, id: SubscriberId, subscribed_at: Timestamp) -> (state:
        Subscription)
        ensures
            state@ == subscription_started(form@, id, subscribed_at),
    {
        match NewSubscriber::try_from(form) {
            Ok(subscriber) => Subscription::insert(subscriber, id, subscribed_at),
            Err(message) => Subscription::Finished(Err(SubscribeError::ValidationError(message))),
        }
    }

    /// The state that asks for a validated subscriber to be inserted as pending.
    fn insert(subscriber: NewSubscriber, id: SubscriberId, subscribed_at: Timestamp) -> (state:
        Subscription)
        ensures
            state@ == (SubscriptionView::InsertSubscriber {
                subscriber: subscriber@,
                id,
                subscribed_at,
                status: SubscriberState::Pending,
            }),
    {
        Subscription::InsertSubscriber {
            subscriber,
            id,
            subscribed_at,
            status: SubscriberState::Pending,
        }
    }

    /// The state that follows this one when the caller reports `event`.
    pub fn advance(self, event: SubscribeEvent) -> (next: Subscription)
        ensures
            next@ == subscription_after(self@, event@),
    {
        match self {
            Subscription::InsertSubscriber { subscriber, id, subscribed_at, status } => {
                match event {
                    SubscribeEvent::Completed => Subscription::IssueToken { subscriber, id },
                    SubscribeEvent::Unavailable => store_failure(
                        "Failed to acquire a Postgres connection from the pool",
                    ),
                    SubscribeEvent::Failed => Subscription::FindSubscriberByEmail { subscriber },
                    _ => Subscription::InsertSubscriber { subscriber, id, subscribed_at, status },
                }
            },
            Subscription::FindSubscriberByEmail { subscriber } => {
                match event {
                    SubscribeEvent::Found(found) => {
                        match found.status {
                            SubscriberState::Active => Subscription::Finished(Ok(())),
                            _ => Subscription::SetSubscriberStatus {
                                subscriber,
                                id: found.id,
                                status: SubscriberState::Pending,
                            },
                        }
                    },
                    SubscribeEvent::NotFound => store_failure(
                        "Failed to insert new subscriber in the database.",
                    ),
                    SubscribeEvent::Failed => store_failure(
                        "Failed to insert new subscriber in the database.",
                    ),
                    _ => Subscription::FindSubscriberByEmail { subscriber },
                }
            },
            Subscription::SetSubscriberStatus { subscriber, id, status } => {
                match event {
                    SubscribeEvent::Completed => Subscription::IssueToken { subscriber, id },
                    SubscribeEvent::Unavailable => store_failure(
                        "Failed to acquire a Postgres connection from the pool",
                    ),
                    SubscribeEvent::Failed => store_failure("Failed to update subscriber status"),
                    _ => Subscription::SetSubscriberStatus { subscriber, id, status },
                }
            },
            Subscription::IssueToken { subscriber, id } => {
                match event {
                    SubscribeEvent::TokenIssued(token) => Subscription::InsertToken {
                        subscriber,
                        id,
                        token,
                    },
                    _ => Subscription::IssueToken { subscriber, id },
                }
            },
            Subscription::InsertToken { subscriber, id, token } => {
                match event {
                    SubscribeEvent::Completed => Subscription::Commit { subscriber, token },
                    SubscribeEvent::Failed => store_failure(
                        "Failed to store the confirmation token for a new subscriber.",
                    ),
                    _ => Subscription::InsertToken { subscriber, id, token },
                }
            },
            Subscription::Commit { subscriber, token } => {
                match event {
                    SubscribeEvent::Completed => Subscription::Notify { subscriber, token },
                    SubscribeEvent::Failed => store_failure(
                        "Failed to commit SQL transaction to store a new subscriber.",
                    ),
                    _ => Subscription::Commit { subscriber, token },
                }
            },
            Subscription::Notify { subscriber, token } => {
                match event {
                    SubscribeEvent::Completed => Subscription::Finished(Ok(())),
                    SubscribeEvent::Failed => Subscription::Finished(
                        Err(
                            SubscribeError::NotificationFailure(
                                "Failed to send a confirmation email.".to_owned(),
                            ),
                        ),
                    ),
                    _ => Subscription::Notify { subscriber, token },
                }
            },
            Subscription::Finished(result) => Subscription::Finished(result),
        }
    }

    /// Whether the request is answered.
    pub fn is_finished(&self) -> (finished: bool)
        ensures
            finished == (self@ is Finished),
    {
        match self {
            Subscription::Finished(_) => true,
            _ => false,
        }
    }
}

/// The response status that answers a subscription request.
pub open spec fn subscribe_response_status(result: Result<(), SubscribeErrorView>) -> u16 {
    match result {
        Ok(_) => STATUS_OK,
        Err(error) => subscribe_error_status(error),
    }
}

/// The response status that answers a subscription request.
pub fn subscribe_status_code(result: &Result<(), SubscribeError>) -> (status: u16)
    ensures
        status == subscribe_response_status(subscribe_result_view(*result)),
{
    match result {
        Ok(_) => STATUS_OK,
        Err(error) => error.status_code(),
    }
}

} // verus!
