use hmac::{Hmac, Mac};
use sha2::Sha256;
use tower_github_webhook::signature::parse_signature;
use tower_github_webhook::{BodyEvent, State, ValidateGitHubWebhook, ValidateGitHubWebhookLayer};

fn hmac_hex(secret: &[u8], body: &[u8]) -> String {
    let mut hmac = Hmac::<Sha256>::new_from_slice(secret).expect("Failed to parse webhook secret");
    hmac.update(body);
    hex::encode(hmac.finalize().into_bytes())
}

fn service(secret: &str) -> ValidateGitHubWebhook<()> {
    let layer = ValidateGitHubWebhookLayer::new(secret);
    ValidateGitHubWebhook::new(layer.webhook_secret().as_bytes(), ())
}

fn data(bytes: &[u8]) -> BodyEvent {
    BodyEvent::Data(bytes.to_vec())
}

#[test]
fn gives_unauthorized_error_when_no_header() {
    let svc = service("123");
    let res = svc.verify(None, vec![BodyEvent::End]);
    assert!(matches!(res, State::Unauthorized));
}

#[test]
fn gives_unauthorized_error_when_wrong_signature() {
    let svc = service("123");
    let res = svc.verify(Some(b"sha256=fake"), vec![BodyEvent::End]);
    assert!(matches!(res, State::Unauthorized));
}

#[test]
fn gives_ok_when_correct_signature() {
    let svc = service("123");
    let signature = format!("sha256={}", hmac_hex(b"123", b"hello world"));
    let res = svc.verify(Some(signature.as_bytes()), vec![data(b"hello world"), BodyEvent::End]);
    assert!(matches!(res, State::Authorized { .. }));
    assert_eq!(res.into_body(), Some(b"hello world".to_vec()));
}

#[test]
fn altered_hex_character_is_refused() {
    let svc = service("123");
    let mut digest = hmac_hex(b"123", b"hello world").into_bytes();
    digest[0] = if digest[0] == b'0' { b'1' } else { b'0' };
    let mut header = b"sha256=".to_vec();
    header.extend_from_slice(&digest);
    let res = svc.verify(Some(&header), vec![data(b"hello world"), BodyEvent::End]);
    assert!(matches!(res, State::Unauthorized));
}

#[test]
fn header_without_delimiter_is_refused() {
    let svc = service("123");
    let res = svc.verify(Some(b"garbage"), vec![BodyEvent::End]);
    assert!(matches!(res, State::Unauthorized));
}

#[test]
fn signature_of_other_body_is_refused() {
    let svc = service("123");
    let signature = format!("sha256={}", hmac_hex(b"123", b"hello world"));
    let res = svc.verify(Some(signature.as_bytes()), vec![data(b"hello worle"), BodyEvent::End]);
    assert!(matches!(res, State::Unauthorized));
}

#[test]
fn signature_under_other_secret_is_refused() {
    let svc = service("123");
    let signature = format!("sha256={}", hmac_hex(b"124", b"hello world"));
    let res = svc.verify(Some(signature.as_bytes()), vec![data(b"hello world"), BodyEvent::End]);
    assert!(matches!(res, State::Unauthorized));
}

#[test]
fn chunked_body_with_control_and_error_frames_is_admitted_whole() {
    let svc = service("123");
    let signature = format!("sha256={}", hmac_hex(b"123", b"hello world"));
    let events = vec![
        data(b"hel"),
        BodyEvent::Control,
        data(b""),
        data(b"lo wo"),
        BodyEvent::Error,
        data(b"rld"),
        BodyEvent::End,
    ];
    let res = svc.verify(Some(signature.as_bytes()), events);
    assert_eq!(res.into_body(), Some(b"hello world".to_vec()));
}

#[test]
fn uppercase_digest_is_accepted() {
    let svc = service("123");
    let signature = format!("sha256={}", hmac_hex(b"123", b"hello world").to_uppercase());
    let res = svc.verify(Some(signature.as_bytes()), vec![data(b"hello world"), BodyEvent::End]);
    assert_eq!(res.into_body(), Some(b"hello world".to_vec()));
}

#[test]
fn empty_body_with_its_signature_is_admitted() {
    let svc = service("123");
    let signature = format!("sha256={}", hmac_hex(b"123", b""));
    let res = svc.verify(Some(signature.as_bytes()), vec![BodyEvent::End]);
    assert_eq!(res.into_body(), Some(Vec::new()));
}

#[test]
fn empty_secret_is_accepted() {
    let svc = service("");
    let signature = format!("sha256={}", hmac_hex(b"", b"payload"));
    let res = svc.verify(Some(signature.as_bytes()), vec![data(b"payload"), BodyEvent::End]);
    assert_eq!(res.into_body(), Some(b"payload".to_vec()));
}

#[test]
fn known_digest_of_hello_world() {
    let svc = service("123");
    let header = b"sha256=8de9bbe5596700556793559dd70e6486684f379d162f70a4a341b3ee383565d4";
    assert_eq!(&header[7..], hmac_hex(b"123", b"hello world").as_bytes());
    let res = svc.verify(Some(header), vec![data(b"hello world"), BodyEvent::End]);
    assert_eq!(res.into_body(), Some(b"hello world".to_vec()));
}

#[test]
fn repeated_verification_gives_the_same_outcome() {
    let svc = service("123");
    let good = format!("sha256={}", hmac_hex(b"123", b"hello world"));
    for _ in 0..3 {
        let res = svc.verify(Some(good.as_bytes()), vec![data(b"hello world"), BodyEvent::End]);
        assert_eq!(res.into_body(), Some(b"hello world".to_vec()));
        let res = svc.verify(Some(b"sha256=fake"), vec![data(b"hello world"), BodyEvent::End]);
        assert!(matches!(res, State::Unauthorized));
    }
}

#[test]
fn cloned_service_verifies_alike() {
    let svc = service("123");
    let copy = svc.clone();
    let good = format!("sha256={}", hmac_hex(b"123", b"abc"));
    let first = svc.verify(Some(good.as_bytes()), vec![data(b"abc"), BodyEvent::End]);
    let second = copy.verify(Some(good.as_bytes()), vec![data(b"a"), data(b"bc"), BodyEvent::End]);
    assert_eq!(first.into_body(), Some(b"abc".to_vec()));
    assert_eq!(second.into_body(), Some(b"abc".to_vec()));
}

#[test]
fn body_without_end_waits() {
    let svc = service("123");
    let good = format!("sha256={}", hmac_hex(b"123", b"abc"));
    let res = svc.verify(Some(good.as_bytes()), vec![data(b"abc")]);
    assert!(matches!(res, State::StreamingBody { .. }));
    assert!(!res.is_terminal());
    let res = res.on_event(BodyEvent::End);
    assert!(matches!(res, State::Finalizing { .. }));
    let res = res.finalize();
    assert_eq!(res.into_body(), Some(b"abc".to_vec()));
}

#[test]
fn stepwise_states() {
    let svc = service("123");
    let good = format!("sha256={}", hmac_hex(b"123", b"xy"));
    let s = svc.start();
    assert!(matches!(s, State::ExtractingSignature { .. }));
    let s = s.on_event(data(b"ignored"));
    assert!(matches!(s, State::ExtractingSignature { .. }));
    let s = s.read_header(Some(good.as_bytes()));
    assert!(matches!(s, State::StreamingBody { .. }));
    let s = s.read_header(None);
    assert!(matches!(s, State::StreamingBody { .. }));
    let s = s.on_event(data(b"x")).on_event(data(b"y")).on_event(BodyEvent::End);
    let s = s.on_event(data(b"late"));
    let s = s.finalize();
    assert_eq!(s.into_body(), Some(b"xy".to_vec()));
}

#[test]
fn refusal_is_final() {
    let svc = service("123");
    let s = svc.start().read_header(None);
    assert!(matches!(s, State::Unauthorized));
    let s = s.on_event(data(b"x")).on_event(BodyEvent::End).finalize();
    assert!(matches!(s, State::Unauthorized));
    assert!(s.is_terminal());
    assert_eq!(s.into_body(), None);
}

#[test]
fn signature_digits_are_decoded() {
    assert_eq!(parse_signature(Some(b"sha256=0aFF")), Some(vec![0x0a, 0xff]));
    assert_eq!(parse_signature(Some(b"=00")), Some(vec![0x00]));
    assert_eq!(parse_signature(Some(b"sha256=")), Some(Vec::new()));
}

#[test]
fn malformed_signatures_are_rejected() {
    assert_eq!(parse_signature(None), None);
    assert_eq!(parse_signature(Some(b"sha256")), None);
    assert_eq!(parse_signature(Some(b"sha256=abc")), None);
    assert_eq!(parse_signature(Some(b"sha256=zz")), None);
    assert_eq!(parse_signature(Some(b"sha256=ab=cd")), None);
}

#[test]
fn only_first_delimiter_splits() {
    assert_eq!(parse_signature(Some(b"a=b=")), None);
    assert_eq!(parse_signature(Some(b"x=4142")), Some(b"AB".to_vec()));
}
