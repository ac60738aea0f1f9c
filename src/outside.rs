use vstd::prelude::*;
use vstd::utf8::{decode_utf8, encode_utf8, valid_utf8};

use crate::client::ParsedEvent;

verus! {

/// Relies on `String::from_utf8`: it succeeds exactly when the bytes are valid
/// UTF-8, and the string then holds the characters those bytes encode.
#[verifier::external_body]
pub(crate) fn utf8_string(bytes: Vec<u8>) -> (r: Option<String>)
    ensures
        r is Some <==> valid_utf8(bytes@),
        r matches Some(s) ==> s@ == decode_utf8(bytes@),
{
    String::from_utf8(bytes).ok()
}

#[verifier::external_type_specification]
#[verifier::external_body]
pub struct ExUnixSocketAddr(uds::UnixSocketAddr);

#[verifier::external_type_specification]
#[verifier::external_body]
pub struct ExEvent(nostr::event::Event);

/// Relies on uds's `UnixSocketAddr::from_abstract`: it builds an abstract
/// socket address from the name's bytes, and refuses a name longer than
/// `sun_path` allows after the leading zero byte (107 bytes at most).
#[verifier::external_body]
pub(crate) fn abstract_addr(name: &str) -> (r: Result<uds::UnixSocketAddr, String>)
    ensures
        encode_utf8(name@).len() > 107 ==> r is Err,
{
    uds::UnixSocketAddr::from_abstract(name.as_bytes()).map_err(|e| e.to_string())
}

/// What nostr's `PublicKey::parse` makes of a text (hex, bech32 or a
/// `nostr:` URI): the key written back as lowercase hex, or, where it refuses
/// the text, its error's message.
pub uninterp spec fn parsed_public_key(s: Seq<char>) -> Result<Seq<char>, Seq<char>>;

/// Relies on nostr's `PublicKey::parse`, whose key is handed back through
/// `PublicKey::to_hex`.
#[verifier::external_body]
pub(crate) fn parse_public_key(s: &str) -> (r: Result<String, String>)
    ensures
        match r {
            Ok(h) => parsed_public_key(s@) == Ok::<Seq<char>, Seq<char>>(h@),
            Err(m) => parsed_public_key(s@) == Err::<Seq<char>, Seq<char>>(m@),
        },
{
    nostr::key::PublicKey::parse(s).map(|k| k.to_hex()).map_err(|e| e.to_string())
}

/// Whether nostr's `Event::from_json` accepts a text as an event.
pub uninterp spec fn event_json_parses(s: Seq<char>) -> bool;

/// Relies on nostr's `Event::from_json`, which deserializes an event from
/// JSON; the event is kept with the text it came from.
#[verifier::external_body]
pub(crate) fn parse_event(json: &str) -> (r: Result<ParsedEvent, String>)
    ensures
        r is Ok <==> event_json_parses(json@),
        r matches Ok(p) ==> p.json@ == json@,
{
    match nostr::event::Event::from_json(json) {
        Ok(event) => Ok(ParsedEvent { event, json: Ghost(json@) }),
        Err(e) => Err(e.to_string()),
    }
}

/// Whether nostr's `Event::verify` accepts the event that `Event::from_json`
/// makes of a text: its id matches its content and its Schnorr signature
/// matches its id and author. Both steps depend on the text alone.
pub uninterp spec fn event_json_verifies(s: Seq<char>) -> bool;

/// Relies on nostr's `Event::verify`, which checks the event's id and its
/// Schnorr signature.
#[verifier::external_body]
pub(crate) fn verify_event(p: &ParsedEvent) -> (r: Result<(), String>)
    ensures
        r is Ok <==> event_json_verifies(p.json@),
{
    p.event.verify().map_err(|e| e.to_string())
}

} // verus!
