use vstd::prelude::*;

verus! {

/// Failure on the proxy (external signer) side of the bridge.
#[derive(Debug, Clone, PartialEq, Eq)]
pub enum AndroidSignerProxyError {
    /// Stream-level failure.
    IO(String),
    /// Failure while serving connections.
    Transport(String),
    /// Failure reported by the signer callback.
    Callback(String),
}

impl AndroidSignerProxyError {
    /// The text that the error carries.
    pub open spec fn message_view(&self) -> Seq<char> {
        match self {
            AndroidSignerProxyError::IO(m) => m@,
            AndroidSignerProxyError::Transport(m) => m@,
            AndroidSignerProxyError::Callback(m) => m@,
        }
    }

    /// The text that the error carries, as shown to the client.
    pub fn message(&self) -> (r: String)
        ensures
            r@ == self.message_view(),
    {
        match self {
            AndroidSignerProxyError::IO(m) => m.clone(),
            AndroidSignerProxyError::Transport(m) => m.clone(),
            AndroidSignerProxyError::Callback(m) => m.clone(),
        }
    }
}

/// Failure on the client side of the bridge.
#[derive(Debug, Clone, PartialEq, Eq)]
pub enum Error {
    /// Stream-level failure while writing a request or reading a reply.
    IO(String),
    /// The connection to the signer could not be established.
    Transport(String),
    /// The signer reported an application-level failure.
    Status(String),
    /// The signer's reply bytes are malformed or do not answer the request.
    Decode(String),
    /// The public key sent by the signer is not a valid key.
    Keys(String),
    /// The signed event sent by the signer is malformed or does not verify.
    Event(String),
    /// No reply came in time.
    Timeout,
    /// The operation is not offered by the signer protocol.
    Unsupported(String),
}

/// What a client error holds, as sequences of characters.
pub enum ErrorView {
    IO(Seq<char>),
    Transport(Seq<char>),
    Status(Seq<char>),
    Decode(Seq<char>),
    Keys(Seq<char>),
    Event(Seq<char>),
    Timeout,
    Unsupported(Seq<char>),
}

impl View for Error {
    type V = ErrorView;

    open spec fn view(&self) -> ErrorView {
        match self {
            Error::IO(m) => ErrorView::IO(m@),
            Error::Transport(m) => ErrorView::Transport(m@),
            Error::Status(m) => ErrorView::Status(m@),
            Error::Decode(m) => ErrorView::Decode(m@),
            Error::Keys(m) => ErrorView::Keys(m@),
            Error::Event(m) => ErrorView::Event(m@),
            Error::Timeout => ErrorView::Timeout,
            Error::Unsupported(m) => ErrorView::Unsupported(m@),
        }
    }
}

impl Error {
    /// The text that the error carries.
    pub open spec fn message_view(&self) -> Seq<char> {
        match self {
            Error::IO(m) => m@,
            Error::Transport(m) => m@,
            Error::Status(m) => m@,
            Error::Decode(m) => m@,
            Error::Keys(m) => m@,
            Error::Event(m) => m@,
            Error::Timeout => "Timeout"@,
            Error::Unsupported(m) => m@,
        }
    }

    /// Text of the error, for diagnostics.
    pub fn message(&self) -> (r: String)
        ensures
            r@ == self.message_view(),
    {
        match self {
            Error::IO(m) => m.clone(),
            Error::Transport(m) => m.clone(),
            Error::Status(m) => m.clone(),
            Error::Decode(m) => m.clone(),
            Error::Keys(m) => m.clone(),
            Error::Event(m) => m.clone(),
            Error::Timeout => String::from_str("Timeout"),
            Error::Unsupported(m) => m.clone(),
        }
    }
}

} // verus!
