//! Verification of signed GitHub webhooks: a request is admitted only when its
//! `X-Hub-Signature-256` header carries the HMAC-SHA256 of its body under the webhook secret.
pub mod laws;
pub mod layer;
pub mod mac;
pub mod machine;
pub mod service;
pub mod signature;

pub use layer::ValidateGitHubWebhookLayer;
pub use machine::{BodyEvent, State};
pub use service::ValidateGitHubWebhook;
