use vstd::prelude::*;
use vstd::utf8::encode_utf8;

use crate::outside::abstract_addr;

verus! {

/// The socket name that client and server derive from a logical name. The
/// fixed prefix keeps the signer's sockets apart from unrelated ones on the
/// same host.
pub open spec fn socket_name(unique_name: Seq<char>) -> Seq<char> {
    "nip55_proxy_"@ + unique_name
}

/// An abstract-namespace socket address and the name it was made from.
pub struct SocketIdentity {
    name: String,
    addr: uds::UnixSocketAddr,
}

impl SocketIdentity {
    pub closed spec fn name_view(&self) -> Seq<char> {
        self.name@
    }

    /// Derives the identity `nip55_proxy_<unique_name>`. Fails, with the
    /// platform's message, where that name cannot be an abstract address.
    pub fn new(unique_name: &str) -> (r: Result<SocketIdentity, String>)
        ensures
            r matches Ok(id) ==> id.name_view() == socket_name(unique_name@),
            encode_utf8(socket_name(unique_name@)).len() > 107 ==> r is Err,
    {
        let name = String::from_str("nip55_proxy_").concat(unique_name);
        proof {
            reveal_strlit("nip55_proxy_");
        }
        assert(name@ == socket_name(unique_name@));
        match abstract_addr(name.as_str()) {
            Ok(addr) => Ok(SocketIdentity { name, addr }),
            Err(e) => Err(e),
        }
    }

    /// The socket name, prefix included.
    pub fn name(&self) -> (r: &String)
        ensures
            r@ == self.name_view(),
    {
        &self.name
    }

    /// The socket address to bind or connect to.
    pub fn addr(&self) -> &uds::UnixSocketAddr {
        &self.addr
    }
}

} // verus!
