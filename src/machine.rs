use vstd::prelude::*;

use crate::mac::{hmac_sha256, mac_absorbed, mac_key, mac_update, mac_verify, KeyedHash};
use crate::signature::{declared_signature, header_view, parse_signature};

verus! {

/// One outcome of pulling from a streaming request body.
pub enum BodyEvent {
    /// A chunk of body bytes, in arrival order.
    Data(Vec<u8>),
    /// A frame that carries no body bytes; it neither feeds the hash nor ends the stream.
    Control,
    /// The body source reported a transport error; the frame is passed over.
    Error,
    /// The body has no more chunks.
    End,
}

/// The abstract state of a request under verification.
pub enum StateView {
    ExtractingSignature { key: Seq<u8> },
    StreamingBody { key: Seq<u8>, signature: Seq<u8>, received: Seq<u8> },
    Finalizing { key: Seq<u8>, signature: Seq<u8>, received: Seq<u8> },
    Authorized { body: Seq<u8> },
    Unauthorized,
}

/// The state of one request under verification; each variant owns exactly what it needs.
pub enum State {
    /// The signature header has not been read yet.
    ExtractingSignature { mac: KeyedHash },
    /// The declared digest is known and body chunks are being hashed and buffered.
    StreamingBody { signature: Vec<u8>, mac: KeyedHash, buffer: Vec<u8> },
    /// The body has ended; the digest is to be compared.
    Finalizing { signature: Vec<u8>, mac: KeyedHash, buffer: Vec<u8> },
    /// The signature matched; `body` is every byte that was received.
    Authorized { body: Vec<u8> },
    /// The request is refused.
    Unauthorized,
}

impl View for State {
    type V = StateView;

    open spec fn view(&self) -> StateView {
        match self {
            State::ExtractingSignature { mac } => StateView::ExtractingSignature {
                key: mac_key(*mac),
            },
            State::StreamingBody { signature, mac, buffer } => StateView::StreamingBody {
                key: mac_key(*mac),
                signature: signature@,
                received: buffer@,
            },
            State::Finalizing { signature, mac, buffer } => StateView::Finalizing {
                key: mac_key(*mac),
                signature: signature@,
                received: buffer@,
            },
            State::Authorized { body } => StateView::Authorized { body: body@ },
            State::Unauthorized => StateView::Unauthorized,
        }
    }
}

/// Transition on reading the signature header.
pub open spec fn header_step(s: StateView, header: Option<Seq<u8>>) -> StateView {
    match s {
        StateView::ExtractingSignature { key } => match declared_signature(header) {
            Some(signature) => StateView::StreamingBody {
                key,
                signature,
                received: Seq::empty(),
            },
            None => StateView::Unauthorized,
        },
        _ => s,
    }
}

/// Transition on one outcome of the body source.
pub open spec fn event_step(s: StateView, e: BodyEvent) -> StateView {
    match s {
        StateView::StreamingBody { key, signature, received } => match e {
            BodyEvent::Data(chunk) => StateView::StreamingBody {
                key,
                signature,
                received: received + chunk@,
            },
            BodyEvent::End => StateView::Finalizing { key, signature, received },
            _ => s,
        },
        _ => s,
    }
}

/// Transition out of `Finalizing`: the keyed hash of the received bytes against the
/// declared digest.
pub open spec fn finalize_step(s: StateView) -> StateView {
    match s {
        StateView::Finalizing { key, signature, received } => {
            if signature == hmac_sha256(key, received) {
                StateView::Authorized { body: received }
            } else {
                StateView::Unauthorized
            }
        },
        _ => s,
    }
}

/// The state after a sequence of body outcomes.
pub open spec fn feed_all(s: StateView, events: Seq<BodyEvent>) -> StateView
    decreases events.len(),
{
    if events.len() == 0 {
        s
    } else {
        event_step(feed_all(s, events.drop_last()), events.last())
    }
}

/// Where a request ends: header read, every outcome fed, then finalized.
pub open spec fn verdict(key: Seq<u8>, header: Option<Seq<u8>>, events: Seq<BodyEvent>) -> StateView {
    finalize_step(feed_all(header_step(StateView::ExtractingSignature { key }, header), events))
}

impl State {
    /// The accumulator holds exactly the bytes that were buffered.
    pub open spec fn wf(&self) -> bool {
        match self {
            State::ExtractingSignature { mac } => mac_absorbed(*mac) == Seq::<u8>::empty(),
            State::StreamingBody { mac, buffer, .. } => mac_absorbed(*mac) == buffer@,
            State::Finalizing { mac, buffer, .. } => mac_absorbed(*mac) == buffer@,
            _ => true,
        }
    }

    /// The initial state, holding a fresh accumulator for this request.
    pub fn new(mac: KeyedHash) -> (r: State)
        requires
            mac_absorbed(mac) == Seq::<u8>::empty(),
        ensures
            r.wf(),
            r@ == (StateView::ExtractingSignature { key: mac_key(mac) }),
    {
        State::ExtractingSignature { mac }
    }

    /// Reads the signature header: on a usable digest the body starts streaming,
    /// otherwise the request is refused. Any other state is left as it is.
    pub fn read_header(self, header: Option<&[u8]>) -> (r: State)
        requires
            self.wf(),
        ensures
            r.wf(),
            r@ == header_step(self@, header_view(header)),
    {
        match self {
            State::ExtractingSignature { mac } => match parse_signature(header) {
                Some(signature) => State::StreamingBody { signature, mac, buffer: Vec::new() },
                None => State::Unauthorized,
            },
            other => other,
        }
    }

    /// Takes one outcome of the body source: a chunk is hashed and buffered, the end
    /// moves to `Finalizing`. Any other state is left as it is.
    pub fn on_event(self, event: BodyEvent) -> (r: State)
        requires
            self.wf(),
        ensures
            r.wf(),
            r@ == event_step(self@, event),
    {
        match self {
            State::StreamingBody { signature, mut mac, mut buffer } => match event {
                BodyEvent::Data(mut chunk) => {
                    mac_update(&mut mac, chunk.as_slice());
                    buffer.append(&mut chunk);
                    State::StreamingBody { signature, mac, buffer }
                },
                BodyEvent::End => State::Finalizing { signature, mac, buffer },
                _ => State::StreamingBody { signature, mac, buffer },
            },
            other => other,
        }
    }

    /// Compares the keyed hash of the received bytes with the declared digest, in
    /// constant time. Any state but `Finalizing` is left as it is.
    pub fn finalize(self) -> (r: State)
        requires
            self.wf(),
        ensures
            r.wf(),
            r@ == finalize_step(self@),
    {
        match self {
            State::Finalizing { signature, mac, buffer } => {
                if mac_verify(mac, signature.as_slice()) {
                    State::Authorized { body: buffer }
                } else {
                    State::Unauthorized
                }
            },
            other => other,
        }
    }

    /// Whether the request is decided, either way.
    pub fn is_terminal(&self) -> (r: bool)
        ensures
            r == (self@ is Authorized || self@ is Unauthorized),
    {
        match self {
            State::Authorized { .. } | State::Unauthorized => true,
            _ => false,
        }
    }

    /// The body to hand downstream, once the request is authorized.
    pub fn into_body(self) -> (r: Option<Vec<u8>>)
        ensures
            match self@ {
                StateView::Authorized { body } => r is Some && r->0@ == body,
                _ => r is None,
            },
    {
        match self {
            State::Authorized { body } => Some(body),
            _ => None,
        }
    }
}

/// Runs a whole request through the states: the header, every body outcome in order,
/// then the comparison.
pub(crate) fn run(mac: KeyedHash, header: Option<&[u8]>, events: Vec<BodyEvent>) -> (r: State)
    requires
        mac_absorbed(mac) == Seq::<u8>::empty(),
    ensures
        r.wf(),
        r@ == verdict(mac_key(mac), header_view(header), events@),
{
    let ghost key = mac_key(mac);
    let ghost all = events@;
    let mut state = State::new(mac).read_header(header);
    let ghost start = state@;
    for e in it: events
        invariant
            it.seq() == all,
            state.wf(),
            start == header_step(StateView::ExtractingSignature { key }, header_view(header)),
            state@ == feed_all(start, all.take(it.index() as int)),
    {
        proof {
            let k = it.index() as int;
            assert(all.take(k + 1).drop_last() =~= all.take(k));
        }
        state = state.on_event(e);
    }
    proof {
        assert(all.take(all.len() as int) =~= all);
    }
    state.finalize()
}

} // verus!
