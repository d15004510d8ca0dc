//! The handlers of the service, one module per route.

pub mod health_check;
pub mod subscriptions;

pub use health_check::health_check;
pub use subscriptions::{subscribe, Action, Ingestion, SubscribeForm, Submission};
