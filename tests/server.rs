use nostr_android_signer::codec::{
    decode_reply, encode_reply, encode_request, payload_len, SignerReply, SignerRequest,
};
use nostr_android_signer::error::AndroidSignerProxyError;
use nostr_android_signer::server::{
    event_reply, installed_reply, key_reply, reply_frame, status_reply, NostrAndroidSignerProxy, NostrAndroidSignerProxyCallback, SignerAdapter,
};

struct Fixed;

impl NostrAndroidSignerProxyCallback for Fixed {
    fn is_external_signer_installed(&self) -> Result<bool, AndroidSignerProxyError> {
        Ok(true)
    }

    fn get_public_key(&self) -> Result<String, AndroidSignerProxyError> {
        Ok("ab".repeat(32))
    }

    fn sign_event(&self, unsigned: String) -> Result<String, AndroidSignerProxyError> {
        Err(AndroidSignerProxyError::Callback(format!("refused {unsigned}")))
    }
}

fn reply_to(adapter: &SignerAdapter<Fixed>, request: SignerRequest) -> SignerReply {
    let frame = encode_request(&request).unwrap();
    let reply = adapter.handle(&frame[4..]);
    assert_eq!(payload_len(&reply[..4]) as usize, reply.len() - 4);
    decode_reply(&reply[4..]).unwrap()
}

#[test]
fn dispatches_to_callback() {
    let adapter = SignerAdapter::new(Fixed);
    assert_eq!(
        reply_to(&adapter, SignerRequest::IsExternalSignerInstalled),
        SignerReply::IsExternalSignerInstalled { installed: true }
    );
    assert_eq!(
        reply_to(&adapter, SignerRequest::GetPublicKey),
        SignerReply::GetPublicKey { public_key: "ab".repeat(32) }
    );
}

#[test]
fn callback_error_becomes_status() {
    let adapter = SignerAdapter::new(Fixed);
    assert_eq!(
        reply_to(&adapter, SignerRequest::SignEvent { unsigned_event: "{}".to_string() }),
        SignerReply::Failure { message: "refused {}".to_string() }
    );
    assert_eq!(
        status_reply(&AndroidSignerProxyError::IO("broken pipe".to_string())),
        SignerReply::Failure { message: "broken pipe".to_string() }
    );
}

#[test]
fn unoffered_and_malformed_requests() {
    let adapter = SignerAdapter::new(Fixed);
    assert_eq!(
        reply_to(
            &adapter,
            SignerRequest::Nip04Encrypt {
                current_user_public_key: "a".to_string(),
                other_public_key: "b".to_string(),
                plaintext: "c".to_string(),
            }
        ),
        SignerReply::Failure { message: "nip04_encrypt is not implemented".to_string() }
    );
    assert_eq!(
        adapter.respond(&[42]),
        SignerReply::Failure { message: "malformed request".to_string() }
    );
}

#[test]
fn proxy_socket_name() {
    let proxy = NostrAndroidSignerProxy::new("test", Fixed).unwrap();
    assert_eq!(proxy.socket().name(), "nip55_proxy_test");
    let long = "x".repeat(200);
    assert!(matches!(
        NostrAndroidSignerProxy::new(&long, Fixed),
        Err(AndroidSignerProxyError::IO(_))
    ));
}

#[test]
fn proxy_error_messages() {
    assert_eq!(AndroidSignerProxyError::Transport("t".to_string()).message(), "t");
    assert_eq!(AndroidSignerProxyError::Callback("c".to_string()).message(), "c");
}

#[test]
fn callback_results_become_replies() {
    assert_eq!(installed_reply(Ok(true)), SignerReply::IsExternalSignerInstalled { installed: true });
    assert_eq!(installed_reply(Ok(false)), SignerReply::IsExternalSignerInstalled { installed: false });
    assert_eq!(
        installed_reply(Err(AndroidSignerProxyError::Callback("gone".to_string()))),
        SignerReply::Failure { message: "gone".to_string() }
    );
    assert_eq!(
        key_reply(Ok("not even hex".to_string())),
        SignerReply::GetPublicKey { public_key: "not even hex".to_string() }
    );
    assert_eq!(
        event_reply(Ok("{\"any\":1}".to_string())),
        SignerReply::SignEvent { event: "{\"any\":1}".to_string() }
    );
    assert_eq!(
        event_reply(Err(AndroidSignerProxyError::IO("eof".to_string()))),
        SignerReply::Failure { message: "eof".to_string() }
    );
}

#[test]
fn reply_frame_carries_the_reply() {
    let reply = SignerReply::GetPublicKey { public_key: "k".to_string() };
    assert_eq!(reply_frame(&reply), encode_reply(&reply).unwrap());
    assert_eq!(reply_frame(&reply), vec![0, 0, 0, 6, 2, 0, 0, 0, 1, b'k']);
}

#[test]
fn malformed_request_frame_is_exact() {
    let adapter = SignerAdapter::new(Fixed);
    let reply = adapter.handle(&[0xff, 1, 2]);
    assert_eq!(
        decode_reply(&reply[4..]),
        Some(SignerReply::Failure { message: "malformed request".to_string() })
    );
}
