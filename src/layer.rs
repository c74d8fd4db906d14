use vstd::prelude::*;

verus! {

/// Layer that applies the `ValidateGitHubWebhook` middleware, which authorizes requests by
/// their `X-Hub-Signature-256` header, with a webhook secret.
#[derive(Clone)]
pub struct ValidateGitHubWebhookLayer<Secret> {
    webhook_secret: Secret,
}

impl<Secret> ValidateGitHubWebhookLayer<Secret> {
    /// The secret that wrapped services are keyed with.
    pub closed spec fn secret(&self) -> Secret {
        self.webhook_secret
    }

    /// A layer whose services authorize requests signed with `webhook_secret`.
    pub fn new(webhook_secret: Secret) -> (r: Self)
        ensures
            r.secret() == webhook_secret,
    {
        ValidateGitHubWebhookLayer { webhook_secret }
    }

    /// The secret that wrapped services are keyed with.
    pub fn webhook_secret(&self) -> (r: &Secret)
        ensures
            *r == self.secret(),
    {
        &self.webhook_secret
    }
}

} // verus!
