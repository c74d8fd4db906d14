use vstd::prelude::*;

use crate::machine::{event_step, feed_all, finalize_step, header_step, verdict, BodyEvent, StateView};
use crate::mac::hmac_sha256;
use crate::signature::{after_delimiter, declared_signature, hex_decoded, hex_value, is_hex_digit, DELIMITER};

verus! {

/// Every body byte carried by a sequence of body outcomes, in order.
pub open spec fn data_of(events: Seq<BodyEvent>) -> Seq<u8>
    decreases events.len(),
{
    if events.len() == 0 {
        Seq::empty()
    } else {
        data_of(events.drop_last()) + match events.last() {
            BodyEvent::Data(chunk) => chunk@,
            _ => Seq::empty(),
        }
    }
}

/// The outcomes hold no end of the body.
pub open spec fn unended(events: Seq<BodyEvent>) -> bool {
    forall|i: int| 0 <= i < events.len() ==> !(#[trigger] events[i] is End)
}

/// The lowercase hexadecimal digit for a value below sixteen.
pub open spec fn hex_digit(n: int) -> u8 {
    if n < 10 {
        (0x30 + n) as u8
    } else {
        (0x61 - 10 + n) as u8
    }
}

/// Lowercase hexadecimal text of a byte sequence, two digits per byte.
pub open spec fn hex_encoded(d: Seq<u8>) -> Seq<u8> {
    Seq::new(
        2 * d.len(),
        |i: int|
            if i % 2 == 0 {
                hex_digit(d[i / 2] as int / 16)
            } else {
                hex_digit(d[i / 2] as int % 16)
            },
    )
}

/// The header value `algorithm=hexdigest` for a digest.
pub open spec fn signature_header(algorithm: Seq<u8>, digest: Seq<u8>) -> Seq<u8> {
    algorithm + seq![DELIMITER] + hex_encoded(digest)
}

/// What a complete request comes to: the body when the declared digest is the keyed hash
/// of every received byte, a refusal otherwise.
pub open spec fn expected_verdict(key: Seq<u8>, header: Option<Seq<u8>>, body: Seq<u8>) -> StateView {
    match declared_signature(header) {
        Some(signature) => if signature == hmac_sha256(key, body) {
            StateView::Authorized { body }
        } else {
            StateView::Unauthorized
        },
        None => StateView::Unauthorized,
    }
}

proof fn lemma_streaming(key: Seq<u8>, signature: Seq<u8>, received: Seq<u8>, events: Seq<BodyEvent>)
    requires
        unended(events),
    ensures
        feed_all(StateView::StreamingBody { key, signature, received }, events)
            == (StateView::StreamingBody { key, signature, received: received + data_of(events) }),
    decreases events.len(),
{
    if events.len() == 0 {
        assert(received + Seq::<u8>::empty() =~= received);
    } else {
        let front = events.drop_last();
        assert forall|i: int| 0 <= i < front.len() implies !(#[trigger] front[i] is End) by {
            assert(front[i] == events[i]);
        }
        lemma_streaming(key, signature, received, front);
        assert(!(events[events.len() - 1] is End));
        match events.last() {
            BodyEvent::Data(chunk) => {
                assert(received + data_of(front) + chunk@ =~= received + data_of(events));
            },
            _ => {
                assert(received + data_of(front) =~= received + data_of(events));
            },
        }
    }
}

proof fn lemma_hex_digit(n: int)
    requires
        0 <= n < 16,
    ensures
        is_hex_digit(hex_digit(n)),
        hex_value(hex_digit(n)) == n,
{
}

proof fn lemma_hex_round_trip(d: Seq<u8>)
    ensures
        hex_decoded(hex_encoded(d)) == Some(d),
{
    let s = hex_encoded(d);
    assert forall|i: int| 0 <= i < s.len() implies is_hex_digit(#[trigger] s[i]) by {
        lemma_hex_digit(d[i / 2] as int / 16);
        lemma_hex_digit(d[i / 2] as int % 16);
    }
    let decoded = hex_decoded(s)->0;
    assert forall|i: int| 0 <= i < d.len() implies #[trigger] decoded[i] == d[i] by {
        assert((2 * i) / 2 == i);
        assert((2 * i + 1) / 2 == i);
        assert((2 * i) % 2 == 0);
        assert((2 * i + 1) % 2 == 1);
        lemma_hex_digit(d[i] as int / 16);
        lemma_hex_digit(d[i] as int % 16);
        assert((d[i] as int / 16) * 16 + d[i] as int % 16 == d[i]);
    }
    assert(decoded =~= d);
}

proof fn lemma_after_prefix(algorithm: Seq<u8>, rest: Seq<u8>)
    requires
        forall|i: int| 0 <= i < algorithm.len() ==> algorithm[i] != DELIMITER,
    ensures
        after_delimiter(algorithm + seq![DELIMITER] + rest) == Some(rest),
    decreases algorithm.len(),
{
    let v = algorithm + seq![DELIMITER] + rest;
    if algorithm.len() == 0 {
        assert(v[0] == DELIMITER);
        assert(v.drop_first() =~= rest);
    } else {
        let tail = algorithm.drop_first();
        lemma_after_prefix(tail, rest);
        assert(v[0] == algorithm[0]);
        assert(v.drop_first() =~= tail + seq![DELIMITER] + rest);
    }
}

/// A complete request, whose outcomes carry no end before the last, comes to
/// `expected_verdict` of every byte it carried, however the body was split into chunks and
/// wherever control frames or transport errors fell between them.
pub proof fn lemma_verdict(key: Seq<u8>, header: Option<Seq<u8>>, events: Seq<BodyEvent>)
    requires
        unended(events),
    ensures
        verdict(key, header, events.push(BodyEvent::End)) == expected_verdict(key, header, data_of(events)),
{
    let start = header_step(StateView::ExtractingSignature { key }, header);
    let all = events.push(BodyEvent::End);
    assert(all.drop_last() =~= events);
    match declared_signature(header) {
        Some(signature) => {
            lemma_streaming(key, signature, Seq::empty(), events);
            assert(Seq::<u8>::empty() + data_of(events) =~= data_of(events));
        },
        None => {
            lemma_refusal_is_final(events);
        },
    }
}

/// Once refused, a request stays refused: no later header, body outcome or comparison
/// moves it, so nothing is handed downstream.
pub proof fn lemma_refusal_is_final(events: Seq<BodyEvent>)
    ensures
        feed_all(StateView::Unauthorized, events) == StateView::Unauthorized,
        forall|h: Option<Seq<u8>>| #[trigger] header_step(StateView::Unauthorized, h) == StateView::Unauthorized,
        finalize_step(StateView::Unauthorized) == StateView::Unauthorized,
    decreases events.len(),
{
    if events.len() > 0 {
        lemma_refusal_is_final(events.drop_last());
    }
}

/// A request whose header is `algorithm=` followed by the hexadecimal HMAC-SHA256 of its body
/// under the secret is authorized, with exactly that body.
pub proof fn lemma_valid_signature_authorizes(key: Seq<u8>, algorithm: Seq<u8>, events: Seq<BodyEvent>)
    requires
        unended(events),
        forall|i: int| 0 <= i < algorithm.len() ==> algorithm[i] != DELIMITER,
    ensures
        verdict(
            key,
            Some(signature_header(algorithm, hmac_sha256(key, data_of(events)))),
            events.push(BodyEvent::End),
        ) == (StateView::Authorized { body: data_of(events) }),
{
    let digest = hmac_sha256(key, data_of(events));
    let header = Some(signature_header(algorithm, digest));
    lemma_after_prefix(algorithm, hex_encoded(digest));
    lemma_hex_round_trip(digest);
    lemma_verdict(key, header, events);
}

/// A request whose header is absent, has no delimiter, holds no hexadecimal after it, or
/// declares a digest other than the HMAC-SHA256 of its body is refused.
pub proof fn lemma_bad_signature_refused(key: Seq<u8>, header: Option<Seq<u8>>, events: Seq<BodyEvent>)
    requires
        unended(events),
        match header {
            None => true,
            Some(v) => match after_delimiter(v) {
                None => true,
                Some(digest) => match hex_decoded(digest) {
                    None => true,
                    Some(signature) => signature != hmac_sha256(key, data_of(events)),
                },
            },
        },
    ensures
        verdict(key, header, events.push(BodyEvent::End)) == StateView::Unauthorized,
{
    lemma_verdict(key, header, events);
}

/// The outcome depends on the secret, the header and the body bytes alone: two requests
/// that carry the same bytes, however chunked, come to the same verdict.
pub proof fn lemma_same_request_same_verdict(
    key: Seq<u8>,
    header: Option<Seq<u8>>,
    first: Seq<BodyEvent>,
    second: Seq<BodyEvent>,
)
    requires
        unended(first),
        unended(second),
        data_of(first) == data_of(second),
    ensures
        verdict(key, header, first.push(BodyEvent::End)) == verdict(key, header, second.push(BodyEvent::End)),
{
    lemma_verdict(key, header, first);
    lemma_verdict(key, header, second);
}

/// An authorized request hands downstream exactly the bytes it received, in order.
pub proof fn lemma_authorized_body_is_received(key: Seq<u8>, header: Option<Seq<u8>>, events: Seq<BodyEvent>)
    requires
        unended(events),
        verdict(key, header, events.push(BodyEvent::End)) is Authorized,
    ensures
        verdict(key, header, events.push(BodyEvent::End))->body == data_of(events),
{
    lemma_verdict(key, header, events);
}

} // verus!
