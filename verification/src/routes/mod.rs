//! What the service does with the requests it receives.

pub mod subscription_laws;
pub mod subscription_record;
pub mod subscriptions;

pub use subscription_record::{SubscriptionRecord, SubscriptionStatus};
pub use subscriptions::{
    insert_subscriber, send_confirmation_email, subscribe, Event, FormData, Outcome,
    PersistenceError, Workflow,
};
