//! How a request can fail, and how each failure is classified in a response.

use vstd::prelude::*;

verus! {

/// The response status of a request that succeeded.
pub const STATUS_OK: u16 = 200;

/// The response status of a request that the client must correct.
pub const STATUS_BAD_REQUEST: u16 = 400;

/// The response status of a well-formed token that no subscriber owns.
pub const STATUS_UNAUTHORIZED: u16 = 401;

/// The response status of a fault on the server's side.
pub const STATUS_INTERNAL_SERVER_ERROR: u16 = 500;

/// Why a subscription request failed.
#[derive(Debug)]
pub enum SubscribeError {
    /// The name or the email address is malformed; nothing was done.
    ValidationError(String),
    /// The store failed at the step that the text names; nothing was committed.
    StoreFailure(String),
    /// The subscriber and the token are committed, but the confirmation
    /// email could not be handed over.
    NotificationFailure(String),
}

/// A `SubscribeError` with its texts as sequences.
pub enum SubscribeErrorView {
    ValidationError(Seq<char>),
    StoreFailure(Seq<char>),
    NotificationFailure(Seq<char>),
}

impl View for SubscribeError {
    type V = SubscribeErrorView;

    open spec fn view(&self) -> SubscribeErrorView {
        match self {
            SubscribeError::ValidationError(message) => SubscribeErrorView::ValidationError(
                message@,
            ),
            SubscribeError::StoreFailure(step) => SubscribeErrorView::StoreFailure(step@),
            SubscribeError::NotificationFailure(step) => SubscribeErrorView::NotificationFailure(
                step@,
            ),
        }
    }
}

/// The response status that classifies a failed subscription request.
pub open spec fn subscribe_error_status(error: SubscribeErrorView) -> u16 {
    match error {
        SubscribeErrorView::ValidationError(_) => STATUS_BAD_REQUEST,
        SubscribeErrorView::StoreFailure(_) => STATUS_INTERNAL_SERVER_ERROR,
        SubscribeErrorView::NotificationFailure(_) => STATUS_INTERNAL_SERVER_ERROR,
    }
}

impl SubscribeError {
    /// The response status that classifies this failure.
    pub fn status_code(&self) -> (status: u16)
        ensures
            status == subscribe_error_status(self@),
    {
        match self {
            SubscribeError::ValidationError(_) => STATUS_BAD_REQUEST,
            SubscribeError::StoreFailure(_) => STATUS_INTERNAL_SERVER_ERROR,
            SubscribeError::NotificationFailure(_) => STATUS_INTERNAL_SERVER_ERROR,
        }
    }

    /// The text that the failure carries.
    pub fn message(&self) -> (text: &str)
        ensures
            text@ == match self@ {
                SubscribeErrorView::ValidationError(message) => message,
                SubscribeErrorView::StoreFailure(step) => step,
                SubscribeErrorView::NotificationFailure(step) => step,
            },
    {
        match self {
            SubscribeError::ValidationError(message) => message.as_str(),
            SubscribeError::StoreFailure(step) => step.as_str(),
            SubscribeError::NotificationFailure(step) => step.as_str(),
        }
    }
}

/// Why a confirmation request failed.
#[derive(Debug)]
pub enum ConfirmationError {
    /// The token is malformed; nothing was done.
    ValidationError(String),
    /// The token is well formed, but the store knows no subscriber for it.
    UnknownToken,
    /// The store failed at the step that the text names.
    StoreFailure(String),
}

/// A `ConfirmationError` with its texts as sequences.
pub enum ConfirmationErrorView {
    ValidationError(Seq<char>),
    UnknownToken,
    StoreFailure(Seq<char>),
}

impl View for ConfirmationError {
    type V = ConfirmationErrorView;

    open spec fn view(&self) -> ConfirmationErrorView {
        match self {
            ConfirmationError::ValidationError(message) => ConfirmationErrorView::ValidationError(
                message@,
            ),
            ConfirmationError::UnknownToken => ConfirmationErrorView::UnknownToken,
            ConfirmationError::StoreFailure(step) => ConfirmationErrorView::StoreFailure(step@),
        }
    }
}

/// The response status that classifies a failed confirmation request.
pub open spec fn confirmation_error_status(error: ConfirmationErrorView) -> u16 {
    match error {
        ConfirmationErrorView::ValidationError(_) => STATUS_BAD_REQUEST,
        ConfirmationErrorView::UnknownToken => STATUS_UNAUTHORIZED,
        ConfirmationErrorView::StoreFailure(_) => STATUS_INTERNAL_SERVER_ERROR,
    }
}

impl ConfirmationError {
    /// The response status that classifies this failure.
    pub fn status_code(&self) -> (status: u16)
        ensures
            status == confirmation_error_status(self@),
    {
        match self {
            ConfirmationError::ValidationError(_) => STATUS_BAD_REQUEST,
            ConfirmationError::UnknownToken => STATUS_UNAUTHORIZED,
            ConfirmationError::StoreFailure(_) => STATUS_INTERNAL_SERVER_ERROR,
        }
    }
}

} // verus!
