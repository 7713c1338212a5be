//! Value types of the subscription domain.

pub mod new_subscriber;
pub mod subscriber_email;
pub mod subscriber_id;
pub mod subscriber_name;
pub mod subscriber_status;
pub mod subscription_token;
pub mod timestamp;

pub use new_subscriber::NewSubscriber;
pub use subscriber_email::SubscriberEmail;
pub use subscriber_id::SubscriberId;
pub use subscriber_name::SubscriberName;
pub use subscriber_status::SubscriberState;
pub use subscription_token::SubscriptionToken;
pub use timestamp::Timestamp;
