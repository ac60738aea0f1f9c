use vstd::prelude::*;
use vstd::utf8::encode_utf8;

use crate::address::{socket_name, SocketIdentity};
use crate::codec::{
    decode_reply, encode_request, frame, lemma_reply_round_trip, parse_reply, reply_fits,
    reply_payload, request_fits, request_payload, ReplyModel, RequestModel, SignerReply, SignerRequest,
};
use crate::error::{Error, ErrorView};
use crate::outside::{
    event_json_parses, event_json_verifies, parse_event, parse_public_key, parsed_public_key,
    verify_event,
};

verus! {

/// State of the one connection that a client owns.
#[derive(Clone, Copy, Debug, PartialEq, Eq, Structural)]
pub enum Link {
    /// No connection: the next call that needs one opens it.
    Idle,
    /// One caller is opening the connection; the others wait for it.
    Connecting,
    /// The connection is open.
    Connected,
}

/// A call that application code makes on the signer.
#[derive(Debug, Clone)]
pub enum Operation {
    IsExternalSignerInstalled,
    GetPublicKey,
    /// Sign the event given as canonical JSON.
    SignEvent { unsigned_event: String },
    /// NIP-04 encrypt `content` for the peer whose hex key is `public_key`.
    Nip04Encrypt { public_key: String, content: String },
    /// NIP-04 decrypt `encrypted_content` from the peer whose hex key is `public_key`.
    Nip04Decrypt { public_key: String, encrypted_content: String },
    Nip44Encrypt { public_key: String, content: String },
    Nip44Decrypt { public_key: String, payload: String },
}

pub enum OperationView {
    IsExternalSignerInstalled,
    GetPublicKey,
    SignEvent(Seq<char>),
    Nip04Encrypt(Seq<char>, Seq<char>),
    Nip04Decrypt(Seq<char>, Seq<char>),
    Nip44Encrypt(Seq<char>, Seq<char>),
    Nip44Decrypt(Seq<char>, Seq<char>),
}

impl View for Operation {
    type V = OperationView;

    open spec fn view(&self) -> OperationView {
        match self {
            Operation::IsExternalSignerInstalled => OperationView::IsExternalSignerInstalled,
            Operation::GetPublicKey => OperationView::GetPublicKey,
            Operation::SignEvent { unsigned_event } => OperationView::SignEvent(unsigned_event@),
            Operation::Nip04Encrypt { public_key, content } =>
                OperationView::Nip04Encrypt(public_key@, content@),
            Operation::Nip04Decrypt { public_key, encrypted_content } =>
                OperationView::Nip04Decrypt(public_key@, encrypted_content@),
            Operation::Nip44Encrypt { public_key, content } =>
                OperationView::Nip44Encrypt(public_key@, content@),
            Operation::Nip44Decrypt { public_key, payload } =>
                OperationView::Nip44Decrypt(public_key@, payload@),
        }
    }
}

/// A signed event as nostr parsed it, with the JSON text it came from.
pub struct ParsedEvent {
    pub(crate) event: nostr::event::Event,
    pub(crate) json: Ghost<Seq<char>>,
}

/// The value that a call returns on success.
pub enum Outcome {
    Installed(bool),
    /// The user's public key, as hex.
    PublicKey(String),
    /// A signed event whose id and signature were checked here.
    Signed(nostr::event::Event),
    /// Ciphertext or plaintext.
    Text(String),
}

pub enum OutcomeView {
    Installed(bool),
    PublicKey(Seq<char>),
    Signed(nostr::event::Event),
    Text(Seq<char>),
}

impl View for Outcome {
    type V = OutcomeView;

    open spec fn view(&self) -> OutcomeView {
        match self {
            Outcome::Installed(b) => OutcomeView::Installed(*b),
            Outcome::PublicKey(k) => OutcomeView::PublicKey(k@),
            Outcome::Signed(e) => OutcomeView::Signed(*e),
            Outcome::Text(t) => OutcomeView::Text(t@),
        }
    }
}

/// What the caller that drives the client must do next.
pub enum Action {
    /// Another call holds the channel or is opening it: ask again once it is done.
    Wait,
    /// Open the connection, then report with `connected`.
    Connect,
    /// Write this frame, read one reply frame, then report with `replied`,
    /// `timed_out` or `failed`.
    Send(Vec<u8>),
    /// The call is over.
    Done(Result<Outcome, Error>),
}

pub enum ActionView {
    Wait,
    Connect,
    Send(Seq<u8>),
    Done(Result<OutcomeView, ErrorView>),
}

pub open spec fn result_view(r: Result<Outcome, Error>) -> Result<OutcomeView, ErrorView> {
    match r {
        Ok(o) => Ok(o@),
        Err(e) => Err(e@),
    }
}

impl View for Action {
    type V = ActionView;

    open spec fn view(&self) -> ActionView {
        match self {
            Action::Wait => ActionView::Wait,
            Action::Connect => ActionView::Connect,
            Action::Send(f) => ActionView::Send(f@),
            Action::Done(r) => ActionView::Done(result_view(*r)),
        }
    }
}

/// The state of a client: its socket name, its connection, the call that
/// holds the channel, whether that call is first fetching the public key, and
/// the cached public key.
pub struct ClientView {
    pub name: Seq<char>,
    pub link: Link,
    pub pending: Option<OperationView>,
    pub fetching_key: bool,
    pub public_key: Option<Seq<char>>,
}

/// Operations that need the user's public key as part of their request.
pub open spec fn needs_key(op: OperationView) -> bool {
    op is Nip04Encrypt || op is Nip04Decrypt
}

/// Operations that the signer protocol does not offer.
pub open spec fn unsupported(op: OperationView) -> bool {
    op is Nip44Encrypt || op is Nip44Decrypt
}

/// Operations that go over the channel, unless answered from the cache.
pub open spec fn needs_channel(op: OperationView) -> bool {
    !unsupported(op)
}

impl ClientView {
    /// At most one call holds the channel, only over an open connection, and
    /// the key is fetched only while it is not cached.
    pub open spec fn wf(self) -> bool {
        &&& self.pending is Some ==> self.link == Link::Connected
        &&& self.pending matches Some(op) ==> !unsupported(op)
        &&& self.pending == Some(OperationView::GetPublicKey) ==> self.public_key is None
        &&& self.fetching_key ==> (self.pending matches Some(op) && needs_key(op)
            && self.public_key is None)
    }

    /// The state once the call that held the channel is over.
    pub open spec fn released(self) -> ClientView {
        ClientView { pending: None, fetching_key: false, ..self }
    }
}

/// The request that answers `op` once the user's key `key` is known.
pub open spec fn request_for(op: OperationView, key: Seq<char>) -> RequestModel {
    match op {
        OperationView::IsExternalSignerInstalled => RequestModel::IsExternalSignerInstalled,
        OperationView::SignEvent(u) => RequestModel::SignEvent(u),
        OperationView::Nip04Encrypt(peer, text) => RequestModel::Nip04Encrypt(key, peer, text),
        OperationView::Nip04Decrypt(peer, text) => RequestModel::Nip04Decrypt(key, peer, text),
        _ => RequestModel::GetPublicKey,
    }
}

/// The first request sent for `op`: the key fetch where `op` needs a key that
/// is not cached yet.
pub open spec fn first_request(op: OperationView, key: Option<Seq<char>>) -> RequestModel {
    match key {
        Some(k) => request_for(op, k),
        None => if needs_key(op) {
            RequestModel::GetPublicKey
        } else {
            request_for(op, Seq::empty())
        },
    }
}

/// What starting the call `op` does.
pub open spec fn begin_step(s: ClientView, op: OperationView) -> (ClientView, ActionView) {
    if unsupported(op) {
        (s, ActionView::Done(Err(ErrorView::Unsupported("NIP-44 is not offered by the signer"@))))
    } else if op is GetPublicKey && s.public_key is Some {
        (s, ActionView::Done(Ok(OutcomeView::PublicKey(s.public_key->0))))
    } else if s.link == Link::Connecting || s.pending is Some {
        (s, ActionView::Wait)
    } else if s.link == Link::Idle {
        (ClientView { link: Link::Connecting, ..s }, ActionView::Connect)
    } else if request_fits(first_request(op, s.public_key)) {
        (
            ClientView {
                pending: Some(op),
                fetching_key: needs_key(op) && s.public_key is None,
                ..s
            },
            ActionView::Send(frame(request_payload(first_request(op, s.public_key)))),
        )
    } else {
        (s, ActionView::Done(Err(ErrorView::IO("request does not fit in one frame"@))))
    }
}

/// Whether `reply` is of the kind that the call in flight waits for.
pub open spec fn answers(op: OperationView, fetching_key: bool, reply: ReplyModel) -> bool {
    if fetching_key {
        reply is GetPublicKey
    } else {
        match op {
            OperationView::IsExternalSignerInstalled => reply is IsExternalSignerInstalled,
            OperationView::GetPublicKey => reply is GetPublicKey,
            OperationView::SignEvent(_) => reply is SignEvent,
            OperationView::Nip04Encrypt(_, _) => reply is Nip04Encrypt,
            OperationView::Nip04Decrypt(_, _) => reply is Nip04Decrypt,
            _ => false,
        }
    }
}

/// What handling the reply payload `b` to the call in flight does. A signed
/// event is handed out only where it parses and its id and signature verify.
pub open spec fn replied_spec(s: ClientView, b: Seq<u8>, t: ClientView, a: ActionView) -> bool {
    let op = s.pending->0;
    match parse_reply(b) {
        None => t == s.released() && a == ActionView::Done(
            Err(ErrorView::Decode("malformed reply"@)),
        ),
        Some(ReplyModel::Failure(m)) => t == s.released() && a == ActionView::Done(
            Err(ErrorView::Status(m)),
        ),
        Some(reply) => if !answers(op, s.fetching_key, reply) {
            t == s.released() && a == ActionView::Done(
                Err(ErrorView::Decode("reply does not answer the request"@)),
            )
        } else {
            match reply {
                ReplyModel::IsExternalSignerInstalled(i) => t == s.released() && a
                    == ActionView::Done(Ok(OutcomeView::Installed(i))),
                ReplyModel::GetPublicKey(k) => match parsed_public_key(k) {
                    Err(m) => t == s.released() && a == ActionView::Done(
                        Err(ErrorView::Keys(m)),
                    ),
                    Ok(h) => {
                        let cached = ClientView { public_key: Some(h), ..s };
                        if !s.fetching_key {
                            t == cached.released() && a == ActionView::Done(
                                Ok(OutcomeView::PublicKey(h)),
                            )
                        } else if request_fits(request_for(op, h)) {
                            t == ClientView { fetching_key: false, ..cached } && a
                                == ActionView::Send(frame(request_payload(request_for(op, h))))
                        } else {
                            t == cached.released() && a == ActionView::Done(
                                Err(ErrorView::IO("request does not fit in one frame"@)),
                            )
                        }
                    },
                },
                ReplyModel::SignEvent(json) => t == s.released() && if !event_json_parses(json) {
                    a matches ActionView::Done(Err(ErrorView::Decode(_)))
                } else if event_json_verifies(json) {
                    a matches ActionView::Done(Ok(OutcomeView::Signed(_)))
                } else {
                    a matches ActionView::Done(Err(ErrorView::Event(_)))
                },
                ReplyModel::Nip04Encrypt(c) => t == s.released() && a == ActionView::Done(
                    Ok(OutcomeView::Text(c)),
                ),
                ReplyModel::Nip04Decrypt(p) => t == s.released() && a == ActionView::Done(
                    Ok(OutcomeView::Text(p)),
                ),
                _ => false,
            }
        },
    }
}

/// The client side of the bridge: one lazily opened connection, used by one
/// call at a time, and the user's public key cached after its first fetch.
///
/// It holds the decisions only. Whoever drives it opens the stream, writes
/// and reads the frames, and keeps time, as the returned `Action`s ask.
pub struct AndroidSigner {
    identity: SocketIdentity,
    link: Link,
    pending: Option<Operation>,
    fetching_key: bool,
    public_key: Option<String>,
}

impl View for AndroidSigner {
    type V = ClientView;

    closed spec fn view(&self) -> ClientView {
        ClientView {
            name: self.identity.name_view(),
            link: self.link,
            pending: match self.pending {
                Some(op) => Some(op@),
                None => None,
            },
            fetching_key: self.fetching_key,
            public_key: match self.public_key {
                Some(k) => Some(k@),
                None => None,
            },
        }
    }
}

fn request_with_key(op: &Operation, key: &String) -> (r: SignerRequest)
    ensures
        r@ == request_for(op@, key@),
{
    match op {
        Operation::IsExternalSignerInstalled => SignerRequest::IsExternalSignerInstalled,
        Operation::SignEvent { unsigned_event } => SignerRequest::SignEvent {
            unsigned_event: unsigned_event.clone(),
        },
        Operation::Nip04Encrypt { public_key, content } => SignerRequest::Nip04Encrypt {
            current_user_public_key: key.clone(),
            other_public_key: public_key.clone(),
            plaintext: content.clone(),
        },
        Operation::Nip04Decrypt { public_key, encrypted_content } => SignerRequest::Nip04Decrypt {
            current_user_public_key: key.clone(),
            other_public_key: public_key.clone(),
            ciphertext: encrypted_content.clone(),
        },
        _ => SignerRequest::GetPublicKey,
    }
}

/// The outcome of a signed event once its check has spoken: the event itself
/// where the check passed, an `Event` error with the check's message where it
/// failed. An event that fails its check is never handed out.
pub fn signed_event_result(event: nostr::event::Event, check: Result<(), String>) -> (r: Result<
    Outcome,
    Error,
>)
    ensures
        match check {
            Ok(()) => r matches Ok(Outcome::Signed(e)) && e == event,
            Err(m) => r matches Err(Error::Event(m2)) && m2@ == m@,
        },
{
    match check {
        Ok(()) => Ok(Outcome::Signed(event)),
        Err(m) => Err(Error::Event(m)),
    }
}

impl AndroidSigner {
    /// A client for the signer whose socket is named `nip55_proxy_<unique_name>`,
    /// not yet connected. Fails with `IO` where that name cannot be an
    /// abstract socket address.
    pub fn new(unique_name: &str) -> (r: Result<AndroidSigner, Error>)
        ensures
            r matches Ok(c) ==> c@ == (ClientView {
                name: socket_name(unique_name@),
                link: Link::Idle,
                pending: None,
                fetching_key: false,
                public_key: None,
            }),
            r matches Err(e) ==> (e is IO),
            encode_utf8(socket_name(unique_name@)).len() > 107 ==> (r is Err),
    {
        match SocketIdentity::new(unique_name) {
            Ok(identity) => Ok(
                AndroidSigner {
                    identity,
                    link: Link::Idle,
                    pending: None,
                    fetching_key: false,
                    public_key: None,
                },
            ),
            Err(m) => Err(Error::IO(m)),
        }
    }

    /// The socket to connect to.
    pub fn identity(&self) -> (r: &SocketIdentity)
        ensures
            r.name_view() == self@.name,
    {
        &self.identity
    }

    /// The state of the connection.
    pub fn link(&self) -> (r: Link)
        ensures
            r == self@.link,
    {
        self.link
    }

    /// Whether a call holds the channel.
    pub fn is_busy(&self) -> (r: bool)
        ensures
            r == (self@.pending is Some),
    {
        self.pending.is_some()
    }

    /// The cached public key, if it was fetched.
    pub fn cached_public_key(&self) -> (r: Option<String>)
        ensures
            r matches Some(k) ==> self@.public_key == Some(k@),
            r is None ==> (self@.public_key is None),
    {
        match &self.public_key {
            Some(k) => Some(k.clone()),
            None => None,
        }
    }

    /// Starts the call `op`: answers it at once where it needs no channel,
    /// asks to wait while the channel is busy or being opened, asks to open
    /// the connection where there is none, and otherwise takes the channel and
    /// hands out the request frame to send.
    pub fn begin(&mut self, op: Operation) -> (r: Action)
        requires
            old(self)@.wf(),
        ensures
            final(self)@.wf(),
            (final(self)@, r@) == begin_step(old(self)@, op@),
    {
        let unsupported = match &op {
            Operation::Nip44Encrypt { .. } => true,
            Operation::Nip44Decrypt { .. } => true,
            _ => false,
        };
        if unsupported {
            return Action::Done(
                Err(Error::Unsupported(String::from_str("NIP-44 is not offered by the signer"))),
            );
        }
        if let Operation::GetPublicKey = op {
            if let Some(k) = &self.public_key {
                return Action::Done(Ok(Outcome::PublicKey(k.clone())));
            }
        }
        if self.link == Link::Connecting || self.pending.is_some() {
            return Action::Wait;
        }
        if self.link == Link::Idle {
            self.link = Link::Connecting;
            return Action::Connect;
        }
        let needs_key = match &op {
            Operation::Nip04Encrypt { .. } => true,
            Operation::Nip04Decrypt { .. } => true,
            _ => false,
        };
        let req = match &self.public_key {
            Some(k) => request_with_key(&op, k),
            None => if needs_key {
                SignerRequest::GetPublicKey
            } else {
                request_with_key(&op, &String::new())
            },
        };
        match encode_request(&req) {
            Some(f) => {
                self.fetching_key = needs_key && self.public_key.is_none();
                self.pending = Some(op);
                Action::Send(f)
            },
            None => Action::Done(
                Err(Error::IO(String::from_str("request does not fit in one frame"))),
            ),
        }
    }

    /// Starts the call that asks whether the external signer is installed.
    pub fn is_external_signer_installed(&mut self) -> (r: Action)
        requires
            old(self)@.wf(),
        ensures
            final(self)@.wf(),
            (final(self)@, r@) == begin_step(old(self)@, OperationView::IsExternalSignerInstalled),
    {
        self.begin(Operation::IsExternalSignerInstalled)
    }

    /// Starts the call that fetches the user's public key, answered from the
    /// cache once it was fetched.
    pub fn get_public_key(&mut self) -> (r: Action)
        requires
            old(self)@.wf(),
        ensures
            final(self)@.wf(),
            (final(self)@, r@) == begin_step(old(self)@, OperationView::GetPublicKey),
    {
        self.begin(Operation::GetPublicKey)
    }

    /// Starts the call that has the signer sign the event given as JSON.
    pub fn sign_event(&mut self, unsigned_event: String) -> (r: Action)
        requires
            old(self)@.wf(),
        ensures
            final(self)@.wf(),
            (final(self)@, r@) == begin_step(old(self)@, OperationView::SignEvent(unsigned_event@)),
    {
        self.begin(Operation::SignEvent { unsigned_event })
    }

    /// Starts a NIP-04 encryption of `content` for the peer `public_key` (hex).
    pub fn nip04_encrypt(&mut self, public_key: String, content: String) -> (r: Action)
        requires
            old(self)@.wf(),
        ensures
            final(self)@.wf(),
            (final(self)@, r@) == begin_step(
                old(self)@,
                OperationView::Nip04Encrypt(public_key@, content@),
            ),
    {
        self.begin(Operation::Nip04Encrypt { public_key, content })
    }

    /// Starts a NIP-04 decryption of `encrypted_content` from the peer
    /// `public_key` (hex).
    pub fn nip04_decrypt(&mut self, public_key: String, encrypted_content: String) -> (r: Action)
        requires
            old(self)@.wf(),
        ensures
            final(self)@.wf(),
            (final(self)@, r@) == begin_step(
                old(self)@,
                OperationView::Nip04Decrypt(public_key@, encrypted_content@),
            ),
    {
        self.begin(Operation::Nip04Decrypt { public_key, encrypted_content })
    }

    /// NIP-44 encryption, which the signer protocol does not offer.
    pub fn nip44_encrypt(&mut self, public_key: String, content: String) -> (r: Action)
        requires
            old(self)@.wf(),
        ensures
            final(self)@.wf(),
            (final(self)@, r@) == begin_step(
                old(self)@,
                OperationView::Nip44Encrypt(public_key@, content@),
            ),
    {
        self.begin(Operation::Nip44Encrypt { public_key, content })
    }

    /// NIP-44 decryption, which the signer protocol does not offer.
    pub fn nip44_decrypt(&mut self, public_key: String, payload: String) -> (r: Action)
        requires
            old(self)@.wf(),
        ensures
            final(self)@.wf(),
            (final(self)@, r@) == begin_step(
                old(self)@,
                OperationView::Nip44Decrypt(public_key@, payload@),
            ),
    {
        self.begin(Operation::Nip44Decrypt { public_key, payload })
    }

    /// Reports how opening the connection went. On failure the connection
    /// stays closed and the call that opened it fails with `Transport`.
    pub fn connected(&mut self, result: Result<(), String>) -> (r: Option<Error>)
        requires
            old(self)@.wf(),
            old(self)@.link == Link::Connecting,
        ensures
            final(self)@.wf(),
            match result {
                Ok(()) => (r is None) && final(self)@ == (ClientView {
                    link: Link::Connected,
                    ..old(self)@
                }),
                Err(m) => (r matches Some(e) && e@ == ErrorView::Transport(m@)) && final(self)@
                    == (ClientView { link: Link::Idle, ..old(self)@ }),
            },
    {
        match result {
            Ok(()) => {
                self.link = Link::Connected;
                None
            },
            Err(m) => {
                self.link = Link::Idle;
                Some(Error::Transport(m))
            },
        }
    }

    /// Handles the reply payload to the call that holds the channel.
    pub fn replied(&mut self, payload: &[u8]) -> (r: Action)
        requires
            old(self)@.wf(),
            old(self)@.pending is Some,
        ensures
            final(self)@.wf(),
            replied_spec(old(self)@, payload@, final(self)@, r@),
    {
        let reply = match decode_reply(payload) {
            Some(reply) => reply,
            None => {
                self.release();
                return Action::Done(Err(Error::Decode(String::from_str("malformed reply"))));
            },
        };
        if let SignerReply::Failure { message } = reply {
            self.release();
            return Action::Done(Err(Error::Status(message)));
        }
        if !self.answered_by(&reply) {
            self.release();
            return Action::Done(
                Err(Error::Decode(String::from_str("reply does not answer the request"))),
            );
        }
        match reply {
            SignerReply::IsExternalSignerInstalled { installed } => {
                self.release();
                Action::Done(Ok(Outcome::Installed(installed)))
            },
            SignerReply::GetPublicKey { public_key } => self.key_arrived(public_key.as_str()),
            SignerReply::SignEvent { event } => {
                self.release();
                match parse_event(event.as_str()) {
                    Ok(parsed) => {
                        let check = verify_event(&parsed);
                        Action::Done(signed_event_result(parsed.event, check))
                    },
                    Err(m) => Action::Done(Err(Error::Decode(m))),
                }
            },
            SignerReply::Nip04Encrypt { ciphertext } => {
                self.release();
                Action::Done(Ok(Outcome::Text(ciphertext)))
            },
            SignerReply::Nip04Decrypt { plaintext } => {
                self.release();
                Action::Done(Ok(Outcome::Text(plaintext)))
            },
            SignerReply::Failure { message } => {
                self.release();
                Action::Done(Err(Error::Status(message)))
            },
        }
    }

    fn answered_by(&self, reply: &SignerReply) -> (r: bool)
        requires
            self@.pending is Some,
        ensures
            r == answers(self@.pending->0, self@.fetching_key, reply@),
    {
        if self.fetching_key {
            return match reply {
                SignerReply::GetPublicKey { .. } => true,
                _ => false,
            };
        }
        match (&self.pending, reply) {
            (
                Some(Operation::IsExternalSignerInstalled),
                SignerReply::IsExternalSignerInstalled { .. },
            ) => true,
            (Some(Operation::GetPublicKey), SignerReply::GetPublicKey { .. }) => true,
            (Some(Operation::SignEvent { .. }), SignerReply::SignEvent { .. }) => true,
            (Some(Operation::Nip04Encrypt { .. }), SignerReply::Nip04Encrypt { .. }) => true,
            (Some(Operation::Nip04Decrypt { .. }), SignerReply::Nip04Decrypt { .. }) => true,
            _ => false,
        }
    }

    /// The key text sent by the signer: parse it, cache it, then answer the
    /// call or send the request that waited for it.
    fn key_arrived(&mut self, text: &str) -> (r: Action)
        requires
            old(self)@.wf(),
            old(self)@.pending is Some,
            answers(old(self)@.pending->0, old(self)@.fetching_key, ReplyModel::GetPublicKey(text@)),
        ensures
            final(self)@.wf(),
            match parsed_public_key(text@) {
                Err(m) => final(self)@ == old(self)@.released() && r@ == ActionView::Done(
                    Err(ErrorView::Keys(m)),
                ),
                Ok(h) => {
                    let cached = (ClientView { public_key: Some(h), ..old(self)@ });
                    let op = old(self)@.pending->0;
                    if !old(self)@.fetching_key {
                        final(self)@ == cached.released() && r@ == ActionView::Done(
                            Ok(OutcomeView::PublicKey(h)),
                        )
                    } else if request_fits(request_for(op, h)) {
                        final(self)@ == (ClientView { fetching_key: false, ..cached }) && r@
                            == ActionView::Send(frame(request_payload(request_for(op, h))))
                    } else {
                        final(self)@ == cached.released() && r@ == ActionView::Done(
                            Err(ErrorView::IO("request does not fit in one frame"@)),
                        )
                    }
                },
            },
    {
        let key = match parse_public_key(text) {
            Ok(k) => k,
            Err(m) => {
                self.release();
                return Action::Done(Err(Error::Keys(m)));
            },
        };
        self.public_key = Some(key.clone());
        if !self.fetching_key {
            self.release();
            return Action::Done(Ok(Outcome::PublicKey(key)));
        }
        let req = match &self.pending {
            Some(op) => request_with_key(op, &key),
            None => SignerRequest::GetPublicKey,
        };
        match encode_request(&req) {
            Some(f) => {
                self.fetching_key = false;
                Action::Send(f)
            },
            None => {
                self.release();
                Action::Done(Err(Error::IO(String::from_str("request does not fit in one frame"))))
            },
        }
    }

    fn release(&mut self)
        ensures
            final(self)@ == old(self)@.released(),
    {
        self.pending = None;
        self.fetching_key = false;
    }

    /// Reports that no reply came in time. The connection is dropped, since
    /// the signer may still answer on it, and the next call opens a new one.
    pub fn timed_out(&mut self) -> (r: Error)
        requires
            old(self)@.wf(),
            old(self)@.pending is Some,
        ensures
            final(self)@.wf(),
            final(self)@ == (ClientView { link: Link::Idle, ..old(self)@.released() }),
            r@ == ErrorView::Timeout,
    {
        self.release();
        self.link = Link::Idle;
        Error::Timeout
    }

    /// Reports that writing the request or reading the reply failed with
    /// `message`. The connection is dropped and the next call opens a new one.
    pub fn failed(&mut self, message: String) -> (r: Error)
        requires
            old(self)@.wf(),
            old(self)@.pending is Some,
        ensures
            final(self)@.wf(),
            final(self)@ == (ClientView { link: Link::Idle, ..old(self)@.released() }),
            r@ == ErrorView::IO(message@),
    {
        self.release();
        self.link = Link::Idle;
        Error::IO(message)
    }
}

/// The state of a client just made for the socket `name`.
pub open spec fn fresh(name: Seq<char>) -> ClientView {
    ClientView {
        name,
        link: Link::Idle,
        pending: None,
        fetching_key: false,
        public_key: None,
    }
}

/// Starting the calls `ops` one after the other, with nothing reported in
/// between: the state reached and the actions handed out.
pub open spec fn run_ops(s: ClientView, ops: Seq<OperationView>) -> (ClientView, Seq<ActionView>)
    decreases ops.len(),
{
    if ops.len() == 0 {
        (s, Seq::empty())
    } else {
        let (s1, a) = begin_step(s, ops[0]);
        let (s2, rest) = run_ops(s1, ops.drop_first());
        (s2, seq![a] + rest)
    }
}

/// How many of `acts` ask to open the connection.
pub open spec fn count_connects(acts: Seq<ActionView>) -> nat
    decreases acts.len(),
{
    if acts.len() == 0 {
        0
    } else {
        (if acts[0] is Connect {
            1nat
        } else {
            0nat
        }) + count_connects(acts.drop_first())
    }
}

/// How many of `acts` send a request.
pub open spec fn count_sends(acts: Seq<ActionView>) -> nat
    decreases acts.len(),
{
    if acts.len() == 0 {
        0
    } else {
        (if acts[0] is Send {
            1nat
        } else {
            0nat
        }) + count_sends(acts.drop_first())
    }
}

proof fn lemma_connecting_stays(s: ClientView, ops: Seq<OperationView>)
    requires
        s.link == Link::Connecting,
    ensures
        run_ops(s, ops).0 == s,
        count_connects(run_ops(s, ops).1) == 0,
    decreases ops.len(),
{
    if ops.len() > 0 {
        lemma_connecting_stays(s, ops.drop_first());
        let (s1, a) = begin_step(s, ops[0]);
        let rest = run_ops(s1, ops.drop_first()).1;
        assert((seq![a] + rest).drop_first() =~= rest);
    }
}

/// Calls started together on a fresh client, before any connection is
/// reported open, ask to open exactly one connection: one where some call
/// needs the channel, none otherwise. The other callers wait for it.
pub proof fn lemma_one_connection(name: Seq<char>, ops: Seq<OperationView>)
    ensures
        count_connects(run_ops(fresh(name), ops).1) == (if exists|i: int|
            0 <= i < ops.len() && #[trigger] needs_channel(ops[i]) {
            1nat
        } else {
            0nat
        }),
    decreases ops.len(),
{
    if ops.len() > 0 {
        let s = fresh(name);
        let (s1, a) = begin_step(s, ops[0]);
        let rest = run_ops(s1, ops.drop_first()).1;
        assert((seq![a] + rest).drop_first() =~= rest);
        if needs_channel(ops[0]) {
            lemma_connecting_stays(s1, ops.drop_first());
        } else {
            lemma_one_connection(name, ops.drop_first());
            assert(s1 == s);
            if exists|i: int| 0 <= i < ops.len() && #[trigger] needs_channel(ops[i]) {
                let i = choose|i: int| 0 <= i < ops.len() && #[trigger] needs_channel(ops[i]);
                assert(ops.drop_first()[i - 1] == ops[i]);
            }
            if exists|i: int|
                0 <= i < ops.drop_first().len() && #[trigger] needs_channel(ops.drop_first()[i]) {
                let i = choose|i: int|
                    0 <= i < ops.drop_first().len() && #[trigger] needs_channel(
                        ops.drop_first()[i],
                    );
                assert(needs_channel(ops[i + 1]));
            }
        }
    }
}

/// Once the public key is cached, any number of calls for it are each
/// answered with that key from the cache: none sends a request, opens a
/// connection or changes the state.
pub proof fn lemma_cached_key_answers(s: ClientView, n: nat)
    requires
        s.public_key is Some,
    ensures
        run_ops(s, Seq::new(n, |i: int| OperationView::GetPublicKey)) == (
            s,
            Seq::new(n, |i: int| ActionView::Done(Ok(OutcomeView::PublicKey(s.public_key->0)))),
        ),
    decreases n,
{
    let ops = Seq::new(n, |i: int| OperationView::GetPublicKey);
    let acts = Seq::new(n, |i: int| ActionView::Done(Ok(OutcomeView::PublicKey(s.public_key->0))));
    if n > 0 {
        lemma_cached_key_answers(s, (n - 1) as nat);
        assert(ops.drop_first() =~= Seq::new(
            (n - 1) as nat,
            |i: int| OperationView::GetPublicKey,
        ));
        assert(seq![acts[0]] + Seq::new(
            (n - 1) as nat,
            |i: int| ActionView::Done(Ok(OutcomeView::PublicKey(s.public_key->0))),
        ) =~= acts);
    }
}

/// Asking `n + 1` times for the public key of a connected client that has
/// not cached it yet takes one round trip: the first call sends the request,
/// a reply with a valid key answers it and caches the key, and the other `n`
/// calls are answered with that key without sending anything.
pub proof fn lemma_public_key_one_round_trip(
    s: ClientView,
    key_text: Seq<char>,
    t: ClientView,
    a: ActionView,
    n: nat,
)
    requires
        s.wf(),
        s.link == Link::Connected,
        s.pending is None,
        s.public_key is None,
        parsed_public_key(key_text) is Ok,
        reply_fits(ReplyModel::GetPublicKey(key_text)),
        replied_spec(
            begin_step(s, OperationView::GetPublicKey).0,
            reply_payload(ReplyModel::GetPublicKey(key_text)),
            t,
            a,
        ),
    ensures
        begin_step(s, OperationView::GetPublicKey).1 == ActionView::Send(
            frame(request_payload(RequestModel::GetPublicKey)),
        ),
        a == ActionView::Done(Ok(OutcomeView::PublicKey(parsed_public_key(key_text)->Ok_0))),
        run_ops(t, Seq::new(n, |i: int| OperationView::GetPublicKey)).1 == Seq::new(
            n,
            |i: int| ActionView::Done(Ok(OutcomeView::PublicKey(parsed_public_key(key_text)->Ok_0))),
        ),
        count_sends(run_ops(t, Seq::new(n, |i: int| OperationView::GetPublicKey)).1) == 0,
{
    lemma_reply_round_trip(ReplyModel::GetPublicKey(key_text));
    lemma_cached_key_answers(t, n);
    lemma_no_sends(parsed_public_key(key_text)->Ok_0, n);
}

proof fn lemma_no_sends(k: Seq<char>, n: nat)
    ensures
        count_sends(Seq::new(n, |i: int| ActionView::Done(Ok(OutcomeView::PublicKey(k))))) == 0,
    decreases n,
{
    if n > 0 {
        lemma_no_sends(k, (n - 1) as nat);
        assert(Seq::new(n, |i: int| ActionView::Done(Ok(OutcomeView::PublicKey(k)))).drop_first()
            =~= Seq::new((n - 1) as nat, |i: int| ActionView::Done(Ok(OutcomeView::PublicKey(k)))));
    }
}

/// After a timeout the connection is dropped, and the next call that needs
/// the channel asks to open a new connection rather than reuse the old stream.
pub proof fn lemma_reconnect_after_timeout(s: ClientView, op: OperationView)
    requires
        s.wf(),
        s.pending is Some,
        needs_channel(op),
        !(op is GetPublicKey && s.public_key is Some),
    ensures
        ({
            let t = ClientView { link: Link::Idle, ..s.released() };
            &&& t.wf()
            &&& begin_step(t, op).1 == ActionView::Connect
            &&& begin_step(t, op).0 == ClientView { link: Link::Connecting, ..t }
        }),
{
}

/// While a call holds the channel, no other call sends a request or touches
/// the state: each is answered without the channel, or waits.
pub proof fn lemma_one_call_at_a_time(s: ClientView, op: OperationView)
    requires
        s.wf(),
        s.pending is Some,
    ensures
        begin_step(s, op).0 == s,
        !(begin_step(s, op).1 is Send),
        !(begin_step(s, op).1 is Connect),
{
}

/// A reply to a signing request yields a signed event exactly when its JSON
/// parses and the event's id and signature verify: a tampered event is never
/// handed out, and one that parses but fails the check is an `Event` error.
pub proof fn lemma_only_verified_events(
    s: ClientView,
    b: Seq<u8>,
    json: Seq<char>,
    t: ClientView,
    a: ActionView,
)
    requires
        s.wf(),
        s.pending matches Some(op) && op is SignEvent,
        parse_reply(b) == Some(ReplyModel::SignEvent(json)),
        replied_spec(s, b, t, a),
    ensures
        (a matches ActionView::Done(Ok(OutcomeView::Signed(_)))) <==> (event_json_parses(json)
            && event_json_verifies(json)),
        (event_json_parses(json) && !event_json_verifies(json)) ==> (a matches ActionView::Done(
            Err(ErrorView::Event(_)),
        )),
        t.pending is None,
{
}

} // verus!
