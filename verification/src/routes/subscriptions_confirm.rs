//! The confirmation request: its parameter, and the workflow that redeems
//! the token and activates the subscriber who owns it.
//!
//! Like a subscription, a confirmation is a state machine: each state that is
//! not `Finished` names the next operation on the store, and
//! `Confirmation::advance` takes what the operation reported.

use vstd::prelude::*;
use crate::domain::subscriber_id::SubscriberId;
use crate::domain::subscriber_status::SubscriberState;
use crate::domain::subscription_token::{SubscriptionToken, invalid_token_message, valid_token};
use crate::routes::errors::{
    ConfirmationError,
    ConfirmationErrorView,
    STATUS_OK,
    confirmation_error_status,
};

verus! {

/// The query of a confirmation request, as it arrives.
#[derive(Debug)]
pub struct Parameters {
    subscription_token: String,
}

impl View for Parameters {
    type V = Seq<char>;

    closed spec fn view(&self) -> Seq<char> {
        self.subscription_token@
    }
}

impl Parameters {
    /// The query with the given token text.
    pub fn new(subscription_token: String) -> (parameters: Parameters)
        ensures
            parameters@ == subscription_token@,
    {
        Parameters { subscription_token }
    }

    /// The token text.
    pub fn subscription_token(&self) -> (text: &str)
        ensures
            text@ == self@,
    {
        self.subscription_token.as_str()
    }
}

/// What the caller reports of the operation that a state asked for.
#[derive(Clone, Copy, Debug, PartialEq, Eq, Structural)]
pub enum ConfirmEvent {
    /// The operation succeeded.
    Completed,
    /// The store failed.
    Failed,
    /// The lookup found the subscriber who owns the token.
    Found(SubscriberId),
    /// The lookup found no owner.
    NotFound,
}

/// The state of one confirmation request.
#[derive(Debug)]
pub enum Confirmation {
    /// Next: look up the subscriber who owns the token.
    FindSubscriberIdByToken { token: SubscriptionToken },
    /// Next: set the subscriber's status.
    SetSubscriberStatus { id: SubscriberId, status: SubscriberState },
    /// The request is answered.
    Finished(Result<(), ConfirmationError>),
}

/// A `Confirmation` with its texts as sequences.
pub enum ConfirmationView {
    FindSubscriberIdByToken { token: Seq<char> },
    SetSubscriberStatus { id: SubscriberId, status: SubscriberState },
    Finished(Result<(), ConfirmationErrorView>),
}

/// The answer to a confirmation request, with its texts as sequences.
pub open spec fn confirm_result_view(result: Result<(), ConfirmationError>) -> Result<
    (),
    ConfirmationErrorView,
> {
    match result {
        Ok(_) => Ok(()),
        Err(error) => Err(error@),
    }
}

impl View for Confirmation {
    type V = ConfirmationView;

    open spec fn view(&self) -> ConfirmationView {
        match self {
            Confirmation::FindSubscriberIdByToken { token } => {
                ConfirmationView::FindSubscriberIdByToken { token: token@ }
            },
            Confirmation::SetSubscriberStatus { id, status } => {
                ConfirmationView::SetSubscriberStatus { id: *id, status: *status }
            },
            Confirmation::Finished(result) => {
                ConfirmationView::Finished(confirm_result_view(*result))
            },
        }
    }
}

/// The step named when the owner of the token could not be looked up.
pub open spec fn lookup_failure() -> Seq<char> {
    "Failed to retrieve the subscriber associated with the provided token."@
}

/// The step named when the subscriber could not be activated.
pub open spec fn activation_failure() -> Seq<char> {
    "Failed to confirm the subscription."@
}

/// The state in which a confirmation request begins.
pub open spec fn confirmation_started(subscription_token: Seq<char>) -> ConfirmationView {
    if valid_token(subscription_token) {
        ConfirmationView::FindSubscriberIdByToken { token: subscription_token }
    } else {
        ConfirmationView::Finished(
            Err(ConfirmationErrorView::ValidationError(invalid_token_message(subscription_token))),
        )
    }
}

/// The state that follows `state` when the caller reports `event`. An event
/// that does not answer the operation of `state` changes nothing.
pub open spec fn confirmation_after(state: ConfirmationView, event: ConfirmEvent) -> ConfirmationView {
    match state {
        ConfirmationView::FindSubscriberIdByToken { token } => {
            match event {
                ConfirmEvent::Found(id) => ConfirmationView::SetSubscriberStatus {
                    id,
                    status: SubscriberState::Active,
                },
                ConfirmEvent::NotFound => ConfirmationView::Finished(
                    Err(ConfirmationErrorView::UnknownToken),
                ),
                ConfirmEvent::Failed => ConfirmationView::Finished(
                    Err(ConfirmationErrorView::StoreFailure(lookup_failure())),
                ),
                ConfirmEvent::Completed => state,
            }
        },
        ConfirmationView::SetSubscriberStatus { id, status } => {
            match event {
                ConfirmEvent::Completed => ConfirmationView::Finished(Ok(())),
                ConfirmEvent::Failed => ConfirmationView::Finished(
                    Err(ConfirmationErrorView::StoreFailure(activation_failure())),
                ),
                _ => state,
            }
        },
        ConfirmationView::Finished(_) => state,
    }
}

/// A confirmation writes no status but `Active`, writes it only for the
/// subscriber that the lookup found, and never goes back: an answer, once
/// given, stays.
pub proof fn only_active_is_written(state: ConfirmationView, event: ConfirmEvent)
    ensures
        confirmation_after(state, event) matches ConfirmationView::SetSubscriberStatus {
            id,
            status,
        } ==> {
            ||| confirmation_after(state, event) == state
            ||| state is FindSubscriberIdByToken && event == ConfirmEvent::Found(id) && status
                == SubscriberState::Active
        },
        state is Finished ==> confirmation_after(state, event) == state,
{
}

impl Confirmation {
    /// Begins the request: the token text is validated before the store is touched.
    pub fn start(parameters: Parameters) -> (state: Confirmation)
        ensures
            state@ == confirmation_started(parameters@),
    {
        match SubscriptionToken::parse(parameters.subscription_token) {
            Ok(token) => Confirmation::FindSubscriberIdByToken { token },
            Err(message) => Confirmation::Finished(
                Err(ConfirmationError::ValidationError(message)),
            ),
        }
    }

    /// The state that follows this one when the caller reports `event`.
    pub fn advance(self, event: ConfirmEvent) -> (next: Confirmation)
        ensures
            next@ == confirmation_after(self@, event),
    {
        match self {
            Confirmation::FindSubscriberIdByToken { token } => {
                match event {
                    ConfirmEvent::Found(id) => Confirmation::SetSubscriberStatus {
                        id,
                        status: SubscriberState::Active,
                    },
                    ConfirmEvent::NotFound => Confirmation::Finished(
                        Err(ConfirmationError::UnknownToken),
                    ),
                    ConfirmEvent::Failed => Confirmation::Finished(
                        Err(
                            ConfirmationError::StoreFailure(
                                "Failed to retrieve the subscriber associated with the provided token.".to_owned(),
                            ),
                        ),
                    ),
                    ConfirmEvent::Completed => Confirmation::FindSubscriberIdByToken { token },
                }
            },
            Confirmation::SetSubscriberStatus { id, status } => {
                match event {
                    ConfirmEvent::Completed => Confirmation::Finished(Ok(())),
                    ConfirmEvent::Failed => Confirmation::Finished(
                        Err(
                            ConfirmationError::StoreFailure(
                                "Failed to confirm the subscription.".to_owned(),
                            ),
                        ),
                    ),
                    _ => Confirmation::SetSubscriberStatus { id, status },
                }
            },
            Confirmation::Finished(result) => Confirmation::Finished(result),
        }
    }

    /// Whether the request is answered.
    pub fn is_finished(&self) -> (finished: bool)
        ensures
            finished == (self@ is Finished),
    {
        match self {
            Confirmation::Finished(_) => true,
            _ => false,
        }
    }
}

/// The response status that answers a confirmation request.
pub open spec fn confirm_response_status(result: Result<(), ConfirmationErrorView>) -> u16 {
    match result {
        Ok(_) => STATUS_OK,
        Err(error) => confirmation_error_status(error),
    }
}

/// The response status that answers a confirmation request.
pub fn confirm_status_code(result: &Result<(), ConfirmationError>) -> (status: u16)
    ensures
        status == confirm_response_status(confirm_result_view(*result)),
{
    match result {
        Ok(_) => STATUS_OK,
        Err(error) => error.status_code(),
    }
}

} // verus!
