use nostr_android_signer::client::{signed_event_result, Action, AndroidSigner, Link, Operation, Outcome};
use nostr_android_signer::codec::{
    decode_request, encode_reply, payload_len, SignerReply, SignerRequest,
};
use nostr_android_signer::error::{AndroidSignerProxyError, Error};
use nostr_android_signer::server::{NostrAndroidSignerProxyCallback, SignerAdapter};

const EVENT: &str = r#"{"id":"2be17aa3031bdcb006f0fce80c146dea9c1c0268b0af2398bb673365c6444d45","pubkey":"f86c44a2de95d9149b51c6a29afeabba264c18e2fa7c49de93424a0c56947785","created_at":1640839235,"kind":4,"tags":[["p","13adc511de7e1cfcf1c6b7f6365fb5a03442d7bcacf565ea57fa7770912c023d"]],"content":"uRuvYr585B80L6rSJiHocw==?iv=oh6LVqdsYYol3JfFnXTbPA==","sig":"a5d9290ef9659083c490b303eb7ee41356d8778ff19f2f91776c8dc4443388a64ffcf336e61af4c25c05ac3ae952d1ced889ed655b67790891222aaa15b99fdd"}"#;

const KEY: &str = "f86c44a2de95d9149b51c6a29afeabba264c18e2fa7c49de93424a0c56947785";

fn reply_payload(reply: SignerReply) -> Vec<u8> {
    encode_reply(&reply).unwrap()[4..].to_vec()
}

fn sent_request(action: Action) -> SignerRequest {
    match action {
        Action::Send(frame) => {
            assert_eq!(payload_len(&frame[..4]) as usize, frame.len() - 4);
            decode_request(&frame[4..]).unwrap()
        }
        _ => panic!("expected a request to send"),
    }
}

fn connected_signer() -> AndroidSigner {
    let mut signer = AndroidSigner::new("test").unwrap();
    assert!(matches!(signer.begin(Operation::IsExternalSignerInstalled), Action::Connect));
    assert!(signer.connected(Ok(())).is_none());
    signer
}

#[test]
fn socket_name_has_prefix() {
    let signer = AndroidSigner::new("test").unwrap();
    assert_eq!(signer.identity().name(), "nip55_proxy_test");
    assert_eq!(signer.link(), Link::Idle);
    assert!(!signer.is_busy());
    assert_eq!(signer.cached_public_key(), None);
}

#[test]
fn too_long_name_is_refused() {
    let long = "n".repeat(120);
    assert!(matches!(AndroidSigner::new(&long), Err(Error::IO(_))));
}

#[test]
fn concurrent_first_calls_open_one_connection() {
    let mut signer = AndroidSigner::new("test").unwrap();
    assert!(matches!(signer.begin(Operation::GetPublicKey), Action::Connect));
    for _ in 0..5 {
        assert!(matches!(signer.begin(Operation::IsExternalSignerInstalled), Action::Wait));
        assert!(matches!(signer.begin(Operation::GetPublicKey), Action::Wait));
    }
    assert_eq!(signer.link(), Link::Connecting);
    assert!(signer.connected(Ok(())).is_none());
    assert_eq!(signer.link(), Link::Connected);
    assert_eq!(
        sent_request(signer.begin(Operation::IsExternalSignerInstalled)),
        SignerRequest::IsExternalSignerInstalled
    );
    // The channel is held: a second call waits and no connection is opened.
    assert!(matches!(signer.begin(Operation::IsExternalSignerInstalled), Action::Wait));
}

#[test]
fn failed_connect_reports_transport() {
    let mut signer = AndroidSigner::new("test").unwrap();
    assert!(matches!(signer.begin(Operation::GetPublicKey), Action::Connect));
    assert_eq!(signer.connected(Err("refused".to_string())), Some(Error::Transport("refused".to_string())));
    assert_eq!(signer.link(), Link::Idle);
    assert!(matches!(signer.begin(Operation::GetPublicKey), Action::Connect));
}

#[test]
fn public_key_fetched_once() {
    let mut signer = connected_signer();
    assert_eq!(sent_request(signer.begin(Operation::GetPublicKey)), SignerRequest::GetPublicKey);
    let action = signer.replied(&reply_payload(SignerReply::GetPublicKey { public_key: KEY.to_string() }));
    assert!(matches!(action, Action::Done(Ok(Outcome::PublicKey(ref k))) if k == KEY));
    for _ in 0..4 {
        let action = signer.begin(Operation::GetPublicKey);
        assert!(matches!(action, Action::Done(Ok(Outcome::PublicKey(ref k))) if k == KEY));
    }
    assert_eq!(signer.cached_public_key(), Some(KEY.to_string()));
    assert!(!signer.is_busy());
}

#[test]
fn invalid_public_key_is_a_key_error() {
    let mut signer = connected_signer();
    sent_request(signer.begin(Operation::GetPublicKey));
    let action = signer.replied(&reply_payload(SignerReply::GetPublicKey { public_key: "not-a-key".to_string() }));
    let expected = nostr::key::PublicKey::parse("not-a-key").unwrap_err().to_string();
    assert!(matches!(action, Action::Done(Err(Error::Keys(ref m))) if *m == expected));
    assert_eq!(signer.cached_public_key(), None);
    assert!(!signer.is_busy());
}

#[test]
fn signed_event_is_verified() {
    let mut signer = connected_signer();
    let req = sent_request(signer.begin(Operation::SignEvent { unsigned_event: "{}".to_string() }));
    assert_eq!(req, SignerRequest::SignEvent { unsigned_event: "{}".to_string() });
    let action = signer.replied(&reply_payload(SignerReply::SignEvent { event: EVENT.to_string() }));
    match action {
        Action::Done(Ok(Outcome::Signed(e))) => assert_eq!(e.id.to_hex(), &EVENT[7..71]),
        _ => panic!("expected a verified event"),
    }
}

#[test]
fn tampered_signature_is_rejected() {
    let tampered = EVENT.replace("\"sig\":\"a5d9", "\"sig\":\"b5d9");
    let mut signer = connected_signer();
    sent_request(signer.begin(Operation::SignEvent { unsigned_event: "{}".to_string() }));
    let action = signer.replied(&reply_payload(SignerReply::SignEvent { event: tampered }));
    assert!(matches!(action, Action::Done(Err(Error::Event(_)))));
}

#[test]
fn malformed_event_is_a_decode_error() {
    let mut signer = connected_signer();
    sent_request(signer.begin(Operation::SignEvent { unsigned_event: "{}".to_string() }));
    let action = signer.replied(&reply_payload(SignerReply::SignEvent { event: "{not json".to_string() }));
    assert!(matches!(action, Action::Done(Err(Error::Decode(_)))));
}

#[test]
fn signed_event_result_follows_check() {
    let event = nostr::event::Event::from_json(EVENT).unwrap();
    assert!(matches!(signed_event_result(event.clone(), Ok(())), Ok(Outcome::Signed(_))));
    assert_eq!(
        signed_event_result(event, Err("Invalid signature".to_string())).err(),
        Some(Error::Event("Invalid signature".to_string()))
    );
}

#[test]
fn timeout_drops_connection() {
    let mut signer = connected_signer();
    sent_request(signer.begin(Operation::SignEvent { unsigned_event: "{}".to_string() }));
    assert_eq!(signer.timed_out(), Error::Timeout);
    assert_eq!(signer.link(), Link::Idle);
    assert!(!signer.is_busy());
    // The next call opens a new connection instead of reusing the old one.
    assert!(matches!(signer.begin(Operation::IsExternalSignerInstalled), Action::Connect));
}

#[test]
fn stream_failure_is_io() {
    let mut signer = connected_signer();
    sent_request(signer.begin(Operation::GetPublicKey));
    assert_eq!(signer.failed("broken pipe".to_string()), Error::IO("broken pipe".to_string()));
    assert_eq!(signer.link(), Link::Idle);
}

#[test]
fn status_and_mismatch() {
    let mut signer = connected_signer();
    sent_request(signer.begin(Operation::IsExternalSignerInstalled));
    let action = signer.replied(&reply_payload(SignerReply::Failure { message: "denied".to_string() }));
    assert!(matches!(action, Action::Done(Err(Error::Status(ref m))) if m == "denied"));
    sent_request(signer.begin(Operation::IsExternalSignerInstalled));
    let action = signer.replied(&reply_payload(SignerReply::Nip04Encrypt { ciphertext: "c".to_string() }));
    assert!(matches!(action, Action::Done(Err(Error::Decode(_)))));
    sent_request(signer.begin(Operation::IsExternalSignerInstalled));
    let action = signer.replied(&[7, 7]);
    assert!(matches!(action, Action::Done(Err(Error::Decode(ref m))) if m == "malformed reply"));
}

#[test]
fn nip44_is_unsupported() {
    let mut signer = AndroidSigner::new("test").unwrap();
    let action = signer.begin(Operation::Nip44Encrypt { public_key: KEY.to_string(), content: "x".to_string() });
    assert!(matches!(action, Action::Done(Err(Error::Unsupported(_)))));
    let action = signer.begin(Operation::Nip44Decrypt { public_key: KEY.to_string(), payload: "x".to_string() });
    assert!(matches!(action, Action::Done(Err(Error::Unsupported(_)))));
    assert_eq!(signer.link(), Link::Idle);
}

#[test]
fn encrypt_fetches_key_first() {
    let mut signer = connected_signer();
    let peer = "13adc511de7e1cfcf1c6b7f6365fb5a03442d7bcacf565ea57fa7770912c023d".to_string();
    let op = Operation::Nip04Encrypt { public_key: peer.clone(), content: "hi".to_string() };
    assert_eq!(sent_request(signer.begin(op)), SignerRequest::GetPublicKey);
    let action = signer.replied(&reply_payload(SignerReply::GetPublicKey { public_key: KEY.to_string() }));
    assert_eq!(
        sent_request(action),
        SignerRequest::Nip04Encrypt {
            current_user_public_key: KEY.to_string(),
            other_public_key: peer.clone(),
            plaintext: "hi".to_string(),
        }
    );
    let action = signer.replied(&reply_payload(SignerReply::Nip04Encrypt { ciphertext: "abc?iv=d".to_string() }));
    assert!(matches!(action, Action::Done(Ok(Outcome::Text(ref c))) if c == "abc?iv=d"));
    // With the key cached, decrypt sends its request at once.
    let op = Operation::Nip04Decrypt { public_key: peer.clone(), encrypted_content: "abc?iv=d".to_string() };
    assert_eq!(
        sent_request(signer.begin(op)),
        SignerRequest::Nip04Decrypt {
            current_user_public_key: KEY.to_string(),
            other_public_key: peer,
            ciphertext: "abc?iv=d".to_string(),
        }
    );
    let action = signer.replied(&reply_payload(SignerReply::Nip04Decrypt { plaintext: "hi".to_string() }));
    assert!(matches!(action, Action::Done(Ok(Outcome::Text(ref p))) if p == "hi"));
}

#[test]
fn error_messages() {
    assert_eq!(Error::Timeout.message(), "Timeout");
    assert_eq!(Error::Status("denied".to_string()).message(), "denied");
}

struct Installed;

impl NostrAndroidSignerProxyCallback for Installed {
    fn is_external_signer_installed(&self) -> Result<bool, AndroidSignerProxyError> {
        Ok(true)
    }

    fn get_public_key(&self) -> Result<String, AndroidSignerProxyError> {
        Ok("zz-not-a-key".to_string())
    }

    fn sign_event(&self, unsigned: String) -> Result<String, AndroidSignerProxyError> {
        Ok(unsigned)
    }
}

/// Carries a client's request frame to the server and its reply back.
fn exchange(signer: &mut AndroidSigner, adapter: &SignerAdapter<Installed>, op: Operation) -> Action {
    let mut action = signer.begin(op);
    assert!(!matches!(action, Action::Connect), "the connection is opened first");
    while let Action::Send(frame) = action {
        let reply = adapter.handle(&frame[4..]);
        action = signer.replied(&reply[4..]);
    }
    action
}

#[test]
fn is_installed_end_to_end() {
    let adapter = SignerAdapter::new(Installed);
    let mut signer = AndroidSigner::new("test").unwrap();
    assert_eq!(signer.identity().name(), "nip55_proxy_test");
    assert!(matches!(signer.begin(Operation::IsExternalSignerInstalled), Action::Connect));
    assert!(signer.connected(Ok(())).is_none());
    let action = exchange(&mut signer, &adapter, Operation::IsExternalSignerInstalled);
    assert!(matches!(action, Action::Done(Ok(Outcome::Installed(true)))));
}

#[test]
fn invalid_key_end_to_end() {
    let adapter = SignerAdapter::new(Installed);
    let mut signer = connected_signer();
    let action = exchange(&mut signer, &adapter, Operation::GetPublicKey);
    assert!(matches!(action, Action::Done(Err(Error::Keys(_)))));
}

#[test]
fn operation_methods_start_calls() {
    let mut signer = connected_signer();
    assert_eq!(sent_request(signer.get_public_key()), SignerRequest::GetPublicKey);
    signer.replied(&reply_payload(SignerReply::GetPublicKey { public_key: KEY.to_string() }));
    assert!(matches!(signer.get_public_key(), Action::Done(Ok(Outcome::PublicKey(ref k))) if k == KEY));
    assert_eq!(
        sent_request(signer.sign_event("{}".to_string())),
        SignerRequest::SignEvent { unsigned_event: "{}".to_string() }
    );
    signer.replied(&reply_payload(SignerReply::SignEvent { event: EVENT.to_string() }));
    assert_eq!(
        sent_request(signer.nip04_encrypt("aa".to_string(), "m".to_string())),
        SignerRequest::Nip04Encrypt {
            current_user_public_key: KEY.to_string(),
            other_public_key: "aa".to_string(),
            plaintext: "m".to_string(),
        }
    );
    signer.replied(&reply_payload(SignerReply::Nip04Encrypt { ciphertext: "c".to_string() }));
    assert_eq!(
        sent_request(signer.nip04_decrypt("aa".to_string(), "c".to_string())),
        SignerRequest::Nip04Decrypt {
            current_user_public_key: KEY.to_string(),
            other_public_key: "aa".to_string(),
            ciphertext: "c".to_string(),
        }
    );
    signer.replied(&reply_payload(SignerReply::Nip04Decrypt { plaintext: "m".to_string() }));
    assert!(matches!(signer.nip44_encrypt("aa".to_string(), "m".to_string()), Action::Done(Err(Error::Unsupported(_)))));
    assert!(matches!(signer.nip44_decrypt("aa".to_string(), "m".to_string()), Action::Done(Err(Error::Unsupported(_)))));
    assert!(matches!(signer.is_external_signer_installed(), Action::Send(_)));
}

#[test]
fn tampered_content_is_rejected() {
    let tampered = EVENT.replace("\"kind\":4", "\"kind\":5");
    let mut signer = connected_signer();
    sent_request(signer.sign_event("{}".to_string()));
    let action = signer.replied(&reply_payload(SignerReply::SignEvent { event: tampered }));
    assert!(matches!(action, Action::Done(Err(Error::Event(_)))));
}
