use vstd::prelude::*;

use crate::machine::{run, verdict, BodyEvent, State, StateView};
use crate::mac::{mac_absorbed, mac_key, mac_new, KeyedHash};
use crate::signature::header_view;

verus! {

/// Middleware that admits a request only when its `X-Hub-Signature-256` header carries the
/// HMAC-SHA256 of its body under the webhook secret, and then hands it to `inner`.
pub struct ValidateGitHubWebhook<S> {
    inner: S,
    mac: KeyedHash,
}

impl<S> ValidateGitHubWebhook<S> {
    /// The webhook secret.
    pub closed spec fn secret(&self) -> Seq<u8> {
        mac_key(self.mac)
    }

    /// The downstream handler.
    pub closed spec fn handler(&self) -> S {
        self.inner
    }

    /// The downstream handler.
    pub fn inner(&self) -> (r: &S)
        ensures
            *r == self.handler(),
    {
        &self.inner
    }

    /// The downstream handler, to drive its readiness or hand it a request; the secret
    /// is untouched.
    pub fn inner_mut(&mut self) -> (r: &mut S)
        ensures
            *r == old(self).handler(),
            final(self).handler() == *final(r),
            final(self).secret() == old(self).secret(),
            final(self).wf() == old(self).wf(),
    {
        &mut self.inner
    }

    /// The keyed hash kept here has absorbed nothing: each request starts from a copy.
    pub closed spec fn wf(&self) -> bool {
        mac_absorbed(self.mac) == Seq::<u8>::empty()
    }

    /// Binds a webhook secret, of any length, to a downstream handler.
    pub fn new(webhook_secret: &[u8], inner: S) -> (r: Self)
        ensures
            r.wf(),
            r.secret() == webhook_secret@,
            r.handler() == inner,
    {
        ValidateGitHubWebhook { inner, mac: mac_new(webhook_secret) }
    }

    /// A fresh verifier for one request, with an accumulator of its own.
    pub fn start(&self) -> (r: State)
        requires
            self.wf(),
        ensures
            r.wf(),
            r@ == (StateView::ExtractingSignature { key: self.secret() }),
    {
        State::new(self.mac.clone())
    }

    /// Verifies a whole request: its signature header and every outcome of its body,
    /// in order. The result is `Authorized` with the body, `Unauthorized`, or, where the
    /// outcomes hold no end, the state the request waits in.
    pub fn verify(&self, header: Option<&[u8]>, events: Vec<BodyEvent>) -> (r: State)
        requires
            self.wf(),
        ensures
            r.wf(),
            r@ == verdict(self.secret(), header_view(header), events@),
    {
        run(self.mac.clone(), header, events)
    }
}

impl<S: Clone> Clone for ValidateGitHubWebhook<S> {
    /// A copy with a clone of the handler and of the keyed hash, not re-derived from the
    /// secret.
    fn clone(&self) -> (r: Self)
        ensures
            r.secret() == self.secret(),
            r.wf() == self.wf(),
            cloned(self.handler(), r.handler()),
    {
        ValidateGitHubWebhook { inner: self.inner.clone(), mac: self.mac.clone() }
    }
}

} // verus!
