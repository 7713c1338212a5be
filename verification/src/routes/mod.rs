//! The two requests of the service, each as a workflow over the subscriber store.

pub mod errors;
pub mod subscriptions;
pub mod subscriptions_confirm;

pub use errors::{ConfirmationError, SubscribeError};
pub use subscriptions::{
    ConfirmationEmail,
    FormData,
    SubscribeEvent,
    SubscriberStatus,
    Subscription,
    confirmation_email,
    confirmation_link,
    subscribe_status_code,
};
pub use subscriptions_confirm::{ConfirmEvent, Confirmation, Parameters, confirm_status_code};
