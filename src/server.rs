use vstd::prelude::*;
use vstd::utf8::encode_utf8;

use crate::address::{socket_name, SocketIdentity};
use crate::codec::{
    decode_request, encode_reply, frame, parse_request, reply_fits, reply_payload, ReplyModel,
    RequestModel, SignerReply, SignerRequest,
};
use crate::error::AndroidSignerProxyError;

verus! {

/// The signer implementation that the proxy serves. Calls may come from
/// several connections at once, so an implementation must be safe to call
/// concurrently; nothing here serializes them.
pub trait NostrAndroidSignerProxyCallback: Send + Sync {
    fn is_external_signer_installed(&self) -> Result<bool, AndroidSignerProxyError>;

    /// The user's public key, as text.
    fn get_public_key(&self) -> Result<String, AndroidSignerProxyError>;

    /// Signs the unsigned event given as JSON; returns the signed event as JSON.
    fn sign_event(&self, unsigned: String) -> Result<String, AndroidSignerProxyError>;
}

/// Whether `reply` answers the request that a payload held (`None`: a
/// malformed payload): it is what the callback returned, turned into a reply;
/// a request that the callback does not offer is answered with a failure.
pub open spec fn reply_matches(request: Option<RequestModel>, reply: ReplyModel) -> bool {
    match request {
        None => reply == ReplyModel::Failure("malformed request"@),
        Some(RequestModel::IsExternalSignerInstalled) => exists|c| #[trigger]
            installed_reply_view(c) == reply,
        Some(RequestModel::GetPublicKey) => exists|c| #[trigger] key_reply_view(c) == reply,
        Some(RequestModel::SignEvent(_)) => exists|c| #[trigger] event_reply_view(c) == reply,
        Some(RequestModel::Nip04Encrypt(_, _, _)) => reply == ReplyModel::Failure(
            "nip04_encrypt is not implemented"@,
        ),
        Some(RequestModel::Nip04Decrypt(_, _, _)) => reply == ReplyModel::Failure(
            "nip04_decrypt is not implemented"@,
        ),
    }
}

/// The reply to an installed-check, from what the callback returned.
pub open spec fn installed_reply_view(c: Result<bool, AndroidSignerProxyError>) -> ReplyModel {
    match c {
        Ok(installed) => ReplyModel::IsExternalSignerInstalled(installed),
        Err(e) => ReplyModel::Failure(e.message_view()),
    }
}

/// The reply to a key request, from what the callback returned: its text is
/// passed on unchanged, as the client checks it.
pub open spec fn key_reply_view(c: Result<String, AndroidSignerProxyError>) -> ReplyModel {
    match c {
        Ok(key) => ReplyModel::GetPublicKey(key@),
        Err(e) => ReplyModel::Failure(e.message_view()),
    }
}

/// The reply to a signing request, from what the callback returned: the
/// signed event is passed on unchanged, as the client verifies it.
pub open spec fn event_reply_view(c: Result<String, AndroidSignerProxyError>) -> ReplyModel {
    match c {
        Ok(event) => ReplyModel::SignEvent(event@),
        Err(e) => ReplyModel::Failure(e.message_view()),
    }
}

/// The reply that goes out in place of `q`: `q` itself where it fits in one
/// frame, else a failure that says it does not.
pub open spec fn fitted(q: ReplyModel) -> ReplyModel {
    if reply_fits(q) {
        q
    } else {
        ReplyModel::Failure("reply does not fit in one frame"@)
    }
}

/// The failure status that a callback error becomes on the wire: the error's
/// text, so that the client sees it.
pub fn status_reply(e: &AndroidSignerProxyError) -> (r: SignerReply)
    ensures
        r@ == ReplyModel::Failure(e.message_view()),
{
    SignerReply::Failure { message: e.message() }
}

pub fn installed_reply(c: Result<bool, AndroidSignerProxyError>) -> (r: SignerReply)
    ensures
        r@ == installed_reply_view(c),
{
    match c {
        Ok(installed) => SignerReply::IsExternalSignerInstalled { installed },
        Err(e) => status_reply(&e),
    }
}

pub fn key_reply(c: Result<String, AndroidSignerProxyError>) -> (r: SignerReply)
    ensures
        r@ == key_reply_view(c),
{
    match c {
        Ok(public_key) => SignerReply::GetPublicKey { public_key },
        Err(e) => status_reply(&e),
    }
}

pub fn event_reply(c: Result<String, AndroidSignerProxyError>) -> (r: SignerReply)
    ensures
        r@ == event_reply_view(c),
{
    match c {
        Ok(event) => SignerReply::SignEvent { event },
        Err(e) => status_reply(&e),
    }
}

/// The frame that carries `reply`, or a failure saying that it does not fit
/// where its payload is too large for one frame.
pub fn reply_frame(reply: &SignerReply) -> (r: Vec<u8>)
    ensures
        r@ == frame(reply_payload(fitted(reply@))),
{
    match encode_reply(reply) {
        Some(f) => f,
        None => {
            let failure = SignerReply::Failure {
                message: String::from_str("reply does not fit in one frame"),
            };
            proof {
                reveal_strlit("reply does not fit in one frame");
                vstd::utf8::is_ascii_chars_encode_utf8(failure@->Failure_0);
            }
            match encode_reply(&failure) {
                Some(f) => f,
                None => Vec::new(),
            }
        },
    }
}

/// Dispatches requests read off the proxy's connections to the callback.
pub struct SignerAdapter<C: NostrAndroidSignerProxyCallback> {
    callback: C,
}

impl<C: NostrAndroidSignerProxyCallback> SignerAdapter<C> {
    pub fn new(callback: C) -> Self {
        SignerAdapter { callback }
    }

    /// The reply to a request payload: the callback's answer, or its error
    /// as a failure status.
    pub fn respond(&self, payload: &[u8]) -> (r: SignerReply)
        ensures
            reply_matches(parse_request(payload@), r@),
    {
        match decode_request(payload) {
            None => SignerReply::Failure { message: String::from_str("malformed request") },
            Some(request) => self.dispatch(request),
        }
    }

    /// Calls the callback method that answers `request`.
    pub fn dispatch(&self, request: SignerRequest) -> (r: SignerReply)
        ensures
            reply_matches(Some(request@), r@),
    {
        match request {
            SignerRequest::IsExternalSignerInstalled => {
                let c = self.callback.is_external_signer_installed();
                let r = installed_reply(c);
                assert(installed_reply_view(c) == r@);
                r
            },
            SignerRequest::GetPublicKey => {
                let c = self.callback.get_public_key();
                let r = key_reply(c);
                assert(key_reply_view(c) == r@);
                r
            },
            SignerRequest::SignEvent { unsigned_event } => {
                let c = self.callback.sign_event(unsigned_event);
                let r = event_reply(c);
                assert(event_reply_view(c) == r@);
                r
            },
            SignerRequest::Nip04Encrypt { .. } => SignerReply::Failure {
                message: String::from_str("nip04_encrypt is not implemented"),
            },
            SignerRequest::Nip04Decrypt { .. } => SignerReply::Failure {
                message: String::from_str("nip04_decrypt is not implemented"),
            },
        }
    }

    /// The reply frame to a request payload: the reply that `respond` gives,
    /// or, only where that reply is too large for one frame, a failure that
    /// says so.
    pub fn handle(&self, payload: &[u8]) -> (r: Vec<u8>)
        ensures
            exists|q: ReplyModel|
                #![trigger fitted(q)]
                reply_matches(parse_request(payload@), q) && r@ == frame(
                    reply_payload(fitted(q)),
                ),
    {
        let reply = self.respond(payload);
        let r = reply_frame(&reply);
        assert(reply_matches(parse_request(payload@), reply@) && r@ == frame(
            reply_payload(fitted(reply@)),
        ));
        r
    }
}

/// The proxy that serves a signer callback on the socket
/// `nip55_proxy_<unique_name>`.
pub struct NostrAndroidSignerProxy<C: NostrAndroidSignerProxyCallback> {
    identity: SocketIdentity,
    adapter: SignerAdapter<C>,
}

impl<C: NostrAndroidSignerProxyCallback> NostrAndroidSignerProxy<C> {
    /// Fails with `IO` where the socket name cannot be an abstract address.
    pub fn new(unique_name: &str, callback: C) -> (r: Result<Self, AndroidSignerProxyError>)
        ensures
            r matches Ok(p) ==> p.identity().name_view() == socket_name(unique_name@),
            r matches Err(e) ==> (e is IO),
            encode_utf8(socket_name(unique_name@)).len() > 107 ==> (r is Err),
    {
        match SocketIdentity::new(unique_name) {
            Ok(identity) => Ok(
                NostrAndroidSignerProxy { identity, adapter: SignerAdapter::new(callback) },
            ),
            Err(m) => Err(AndroidSignerProxyError::IO(m)),
        }
    }

    pub closed spec fn identity(&self) -> SocketIdentity {
        self.identity
    }

    /// The socket to listen on.
    pub fn socket(&self) -> (r: &SocketIdentity)
        ensures
            r == self.identity(),
    {
        &self.identity
    }

    /// The dispatcher for the requests read off accepted connections.
    pub fn adapter(&self) -> &SignerAdapter<C> {
        &self.adapter
    }
}

} // verus!
