use vstd::prelude::*;
use vstd::slice::slice_to_vec;
use vstd::utf8::{decode_utf8, encode_utf8, valid_utf8};

use crate::outside::utf8_string;

verus! {

/// Largest payload that a frame can carry: its length travels as four bytes.
pub const MAX_PAYLOAD: u64 = 0xffff_ffff;

/// Four bytes, most significant first, holding `n < 2^32`.
pub open spec fn be32(n: nat) -> Seq<u8> {
    seq![
        (n / 0x100_0000) as u8,
        ((n / 0x1_0000) % 0x100) as u8,
        ((n / 0x100) % 0x100) as u8,
        (n % 0x100) as u8,
    ]
}

/// The number held by the four bytes of `b` from `pos`, most significant first.
pub open spec fn read_be32(b: Seq<u8>, pos: int) -> nat {
    (b[pos] as nat) * 0x100_0000 + (b[pos + 1] as nat) * 0x1_0000 + (b[pos + 2] as nat) * 0x100
        + (b[pos + 3] as nat)
}

/// A frame: the payload's length in four bytes, then the payload.
pub open spec fn frame(payload: Seq<u8>) -> Seq<u8> {
    be32(payload.len()) + payload
}

pub proof fn lemma_be32_round_trip(n: nat, b: Seq<u8>, pos: int)
    requires
        n <= MAX_PAYLOAD,
        0 <= pos,
        pos + 4 <= b.len(),
        b.subrange(pos, pos + 4) == be32(n),
    ensures
        read_be32(b, pos) == n,
{
    assert(b[pos] == be32(n)[0]);
    assert(b[pos + 1] == be32(n)[1]);
    assert(b[pos + 2] == be32(n)[2]);
    assert(b[pos + 3] == be32(n)[3]);
    assert(read_be32(b, pos) == n) by (nonlinear_arith)
        requires
            n <= 0xffff_ffff,
            b[pos] == (n / 0x100_0000) as u8,
            b[pos + 1] == ((n / 0x1_0000) % 0x100) as u8,
            b[pos + 2] == ((n / 0x100) % 0x100) as u8,
            b[pos + 3] == (n % 0x100) as u8,
            read_be32(b, pos) == (b[pos] as nat) * 0x100_0000 + (b[pos + 1] as nat) * 0x1_0000
                + (b[pos + 2] as nat) * 0x100 + (b[pos + 3] as nat),
    ;
}

/// A frame's header gives back the payload's length, and what follows the
/// header is the payload.
pub proof fn lemma_frame_round_trip(payload: Seq<u8>)
    requires
        payload.len() <= MAX_PAYLOAD,
    ensures
        read_be32(frame(payload), 0) == payload.len(),
        frame(payload).subrange(4, frame(payload).len() as int) == payload,
{
    let f = frame(payload);
    assert(f.subrange(0, 4) =~= be32(payload.len()));
    lemma_be32_round_trip(payload.len(), f, 0);
    assert(f.subrange(4, f.len() as int) =~= payload);
}

/// Appends the four bytes of `n` to `out`.
fn push_be32(out: &mut Vec<u8>, n: u32)
    ensures
        final(out)@ == old(out)@ + be32(n as nat),
{
    out.push((n / 0x100_0000) as u8);
    out.push(((n / 0x1_0000) % 0x100) as u8);
    out.push(((n / 0x100) % 0x100) as u8);
    out.push((n % 0x100) as u8);
    assert(final(out)@ =~= old(out)@ + be32(n as nat));
}

/// The number that the four bytes of `b` from `pos` hold.
fn get_be32(b: &[u8], pos: usize) -> (r: u32)
    requires
        pos + 4 <= b@.len(),
    ensures
        r as nat == read_be32(b@, pos as int),
{
    let r: u64 = (b[pos] as u64) * 0x100_0000 + (b[pos + 1] as u64) * 0x1_0000 + (b[pos + 2] as u64)
        * 0x100 + (b[pos + 3] as u64);
    r as u32
}

/// The payload length announced by a frame's four-byte header.
pub fn payload_len(header: &[u8]) -> (r: u32)
    requires
        header@.len() == 4,
    ensures
        r as nat == read_be32(header@, 0),
{
    get_be32(header, 0)
}

/// A string on the wire: its UTF-8 length in four bytes, then its UTF-8 bytes.
pub open spec fn field(s: Seq<char>) -> Seq<u8> {
    be32(encode_utf8(s).len()) + encode_utf8(s)
}

/// The string field that starts at `pos`, and the position after it.
pub open spec fn field_at(b: Seq<u8>, pos: int) -> Option<(Seq<char>, int)> {
    if 0 <= pos && pos + 4 <= b.len() {
        let end = pos + 4 + read_be32(b, pos);
        if end <= b.len() && valid_utf8(b.subrange(pos + 4, end)) {
            Some((decode_utf8(b.subrange(pos + 4, end)), end))
        } else {
            None
        }
    } else {
        None
    }
}

/// The string field that starts at `pos` and ends the payload.
pub open spec fn last_field(b: Seq<u8>, pos: int) -> Option<Seq<char>> {
    match field_at(b, pos) {
        Some((s, end)) => if end == b.len() {
            Some(s)
        } else {
            None
        },
        None => None,
    }
}

/// Three string fields from offset 1 that fill the rest of the payload.
pub open spec fn three_fields(b: Seq<u8>) -> Option<(Seq<char>, Seq<char>, Seq<char>)> {
    match field_at(b, 1) {
        Some((x, p1)) => match field_at(b, p1) {
            Some((y, p2)) => match last_field(b, p2) {
                Some(z) => Some((x, y, z)),
                None => None,
            },
            None => None,
        },
        None => None,
    }
}

pub proof fn lemma_field_round_trip(p: Seq<u8>, s: Seq<char>, rest: Seq<u8>)
    requires
        encode_utf8(s).len() <= MAX_PAYLOAD,
    ensures
        field_at(p + field(s) + rest, p.len() as int) == Some((s, (p.len() + field(s).len()) as int)),
{
    let b = p + field(s) + rest;
    let pos = p.len() as int;
    let n = encode_utf8(s).len();
    assert(b.subrange(pos, pos + 4) =~= be32(n));
    lemma_be32_round_trip(n, b, pos);
    assert(b.subrange(pos + 4, pos + 4 + n) =~= encode_utf8(s));
    vstd::utf8::encode_utf8_valid_utf8(s);
    vstd::utf8::encode_utf8_decode_utf8(s);
}

/// A request from the client to the signer.
#[derive(Debug, Clone, PartialEq, Eq)]
pub enum SignerRequest {
    IsExternalSignerInstalled,
    GetPublicKey,
    SignEvent { unsigned_event: String },
    Nip04Encrypt { current_user_public_key: String, other_public_key: String, plaintext: String },
    Nip04Decrypt { current_user_public_key: String, other_public_key: String, ciphertext: String },
}

/// What a request holds, as sequences of characters.
pub enum RequestModel {
    IsExternalSignerInstalled,
    GetPublicKey,
    SignEvent(Seq<char>),
    Nip04Encrypt(Seq<char>, Seq<char>, Seq<char>),
    Nip04Decrypt(Seq<char>, Seq<char>, Seq<char>),
}

impl View for SignerRequest {
    type V = RequestModel;

    open spec fn view(&self) -> RequestModel {
        match self {
            SignerRequest::IsExternalSignerInstalled => RequestModel::IsExternalSignerInstalled,
            SignerRequest::GetPublicKey => RequestModel::GetPublicKey,
            SignerRequest::SignEvent { unsigned_event } => RequestModel::SignEvent(unsigned_event@),
            SignerRequest::Nip04Encrypt { current_user_public_key, other_public_key, plaintext } =>
                RequestModel::Nip04Encrypt(current_user_public_key@, other_public_key@, plaintext@),
            SignerRequest::Nip04Decrypt { current_user_public_key, other_public_key, ciphertext } =>
                RequestModel::Nip04Decrypt(current_user_public_key@, other_public_key@, ciphertext@),
        }
    }
}

/// A reply from the signer: an answer to one request kind, or a failure status.
#[derive(Debug, Clone, PartialEq, Eq)]
pub enum SignerReply {
    Failure { message: String },
    IsExternalSignerInstalled { installed: bool },
    GetPublicKey { public_key: String },
    SignEvent { event: String },
    Nip04Encrypt { ciphertext: String },
    Nip04Decrypt { plaintext: String },
}

/// What a reply holds, as sequences of characters.
pub enum ReplyModel {
    Failure(Seq<char>),
    IsExternalSignerInstalled(bool),
    GetPublicKey(Seq<char>),
    SignEvent(Seq<char>),
    Nip04Encrypt(Seq<char>),
    Nip04Decrypt(Seq<char>),
}

impl View for SignerReply {
    type V = ReplyModel;

    open spec fn view(&self) -> ReplyModel {
        match self {
            SignerReply::Failure { message } => ReplyModel::Failure(message@),
            SignerReply::IsExternalSignerInstalled { installed } =>
                ReplyModel::IsExternalSignerInstalled(*installed),
            SignerReply::GetPublicKey { public_key } => ReplyModel::GetPublicKey(public_key@),
            SignerReply::SignEvent { event } => ReplyModel::SignEvent(event@),
            SignerReply::Nip04Encrypt { ciphertext } => ReplyModel::Nip04Encrypt(ciphertext@),
            SignerReply::Nip04Decrypt { plaintext } => ReplyModel::Nip04Decrypt(plaintext@),
        }
    }
}

/// The payload bytes of a request: a kind byte, then the string fields.
pub open spec fn request_payload(r: RequestModel) -> Seq<u8> {
    match r {
        RequestModel::IsExternalSignerInstalled => seq![1u8],
        RequestModel::GetPublicKey => seq![2u8],
        RequestModel::SignEvent(e) => seq![3u8] + field(e),
        RequestModel::Nip04Encrypt(a, b, c) => seq![4u8] + field(a) + field(b) + field(c),
        RequestModel::Nip04Decrypt(a, b, c) => seq![5u8] + field(a) + field(b) + field(c),
    }
}

/// The request that a payload holds, if it is well formed.
pub open spec fn parse_request(b: Seq<u8>) -> Option<RequestModel> {
    if b.len() == 0 {
        None
    } else if b[0] == 1 {
        if b.len() == 1 {
            Some(RequestModel::IsExternalSignerInstalled)
        } else {
            None
        }
    } else if b[0] == 2 {
        if b.len() == 1 {
            Some(RequestModel::GetPublicKey)
        } else {
            None
        }
    } else if b[0] == 3 {
        match last_field(b, 1) {
            Some(e) => Some(RequestModel::SignEvent(e)),
            None => None,
        }
    } else if b[0] == 4 {
        match three_fields(b) {
            Some((x, y, z)) => Some(RequestModel::Nip04Encrypt(x, y, z)),
            None => None,
        }
    } else if b[0] == 5 {
        match three_fields(b) {
            Some((x, y, z)) => Some(RequestModel::Nip04Decrypt(x, y, z)),
            None => None,
        }
    } else {
        None
    }
}

/// The payload bytes of a reply: a kind byte, then its value.
pub open spec fn reply_payload(r: ReplyModel) -> Seq<u8> {
    match r {
        ReplyModel::Failure(m) => seq![0u8] + field(m),
        ReplyModel::IsExternalSignerInstalled(i) => seq![1u8, if i { 1u8 } else { 0u8 }],
        ReplyModel::GetPublicKey(k) => seq![2u8] + field(k),
        ReplyModel::SignEvent(e) => seq![3u8] + field(e),
        ReplyModel::Nip04Encrypt(c) => seq![4u8] + field(c),
        ReplyModel::Nip04Decrypt(p) => seq![5u8] + field(p),
    }
}

/// The reply that a payload holds, if it is well formed.
pub open spec fn parse_reply(b: Seq<u8>) -> Option<ReplyModel> {
    if b.len() == 0 {
        None
    } else if b[0] == 1 {
        if b.len() == 2 && b[1] <= 1 {
            Some(ReplyModel::IsExternalSignerInstalled(b[1] == 1))
        } else {
            None
        }
    } else if b[0] <= 5 {
        match last_field(b, 1) {
            Some(s) => Some(
                if b[0] == 0 {
                    ReplyModel::Failure(s)
                } else if b[0] == 2 {
                    ReplyModel::GetPublicKey(s)
                } else if b[0] == 3 {
                    ReplyModel::SignEvent(s)
                } else if b[0] == 4 {
                    ReplyModel::Nip04Encrypt(s)
                } else {
                    ReplyModel::Nip04Decrypt(s)
                },
            ),
            None => None,
        }
    } else {
        None
    }
}

/// Whether a request's payload fits in one frame.
pub open spec fn request_fits(r: RequestModel) -> bool {
    request_payload(r).len() <= MAX_PAYLOAD
}

/// Whether a reply's payload fits in one frame.
pub open spec fn reply_fits(r: ReplyModel) -> bool {
    reply_payload(r).len() <= MAX_PAYLOAD
}

/// Encoding a request and parsing the payload gives the request back.
pub proof fn lemma_request_round_trip(r: RequestModel)
    requires
        request_fits(r),
    ensures
        parse_request(request_payload(r)) == Some(r),
{
    let b = request_payload(r);
    let e = Seq::<u8>::empty();
    match r {
        RequestModel::SignEvent(x) => {
            lemma_field_round_trip(seq![3u8], x, e);
            assert(seq![3u8] + field(x) + e =~= b);
        },
        RequestModel::Nip04Encrypt(x, y, z) => {
            lemma_three_round_trip(4u8, x, y, z);
        },
        RequestModel::Nip04Decrypt(x, y, z) => {
            lemma_three_round_trip(5u8, x, y, z);
        },
        _ => {},
    }
}

proof fn lemma_three_round_trip(tag: u8, x: Seq<char>, y: Seq<char>, z: Seq<char>)
    requires
        (seq![tag] + field(x) + field(y) + field(z)).len() <= MAX_PAYLOAD,
    ensures
        three_fields(seq![tag] + field(x) + field(y) + field(z)) == Some((x, y, z)),
{
    let b = seq![tag] + field(x) + field(y) + field(z);
    let e = Seq::<u8>::empty();
    lemma_field_round_trip(seq![tag], x, field(y) + field(z));
    assert(seq![tag] + field(x) + (field(y) + field(z)) =~= b);
    lemma_field_round_trip(seq![tag] + field(x), y, field(z));
    assert(seq![tag] + field(x) + field(y) + field(z) =~= b);
    lemma_field_round_trip(seq![tag] + field(x) + field(y), z, e);
    assert(seq![tag] + field(x) + field(y) + field(z) + e =~= b);
}

/// Encoding a reply and parsing the payload gives the reply back.
pub proof fn lemma_reply_round_trip(r: ReplyModel)
    requires
        reply_fits(r),
    ensures
        parse_reply(reply_payload(r)) == Some(r),
{
    let b = reply_payload(r);
    let e = Seq::<u8>::empty();
    match r {
        ReplyModel::IsExternalSignerInstalled(_) => {},
        ReplyModel::Failure(s) => {
            lemma_field_round_trip(seq![0u8], s, e);
            assert(seq![0u8] + field(s) + e =~= b);
        },
        ReplyModel::GetPublicKey(s) => {
            lemma_field_round_trip(seq![2u8], s, e);
            assert(seq![2u8] + field(s) + e =~= b);
        },
        ReplyModel::SignEvent(s) => {
            lemma_field_round_trip(seq![3u8], s, e);
            assert(seq![3u8] + field(s) + e =~= b);
        },
        ReplyModel::Nip04Encrypt(s) => {
            lemma_field_round_trip(seq![4u8], s, e);
            assert(seq![4u8] + field(s) + e =~= b);
        },
        ReplyModel::Nip04Decrypt(s) => {
            lemma_field_round_trip(seq![5u8], s, e);
            assert(seq![5u8] + field(s) + e =~= b);
        },
    }
}

/// Number of UTF-8 bytes of `s`.
fn byte_len(s: &String) -> (r: u64)
    ensures
        r == encode_utf8(s@).len(),
{
    s.as_str().as_bytes().len() as u64
}

/// Appends `s` as a string field to `out`.
fn push_field(out: &mut Vec<u8>, s: &String)
    requires
        encode_utf8(s@).len() <= MAX_PAYLOAD,
    ensures
        final(out)@ == old(out)@ + field(s@),
{
    let b = s.as_str().as_bytes();
    push_be32(out, b.len() as u32);
    let ghost mid = out@;
    let mut i: usize = 0;
    while i < b.len()
        invariant
            i <= b@.len(),
            b@ == encode_utf8(s@),
            mid == old(out)@ + be32(b@.len()),
            out@ == mid + b@.subrange(0, i as int),
        decreases b@.len() - i,
    {
        out.push(b[i]);
        i = i + 1;
        assert(out@ =~= mid + b@.subrange(0, i as int));
    }
    assert(b@.subrange(0, b@.len() as int) =~= b@);
    assert(out@ =~= old(out)@ + field(s@));
}

/// The frame of a request, or `None` when its payload does not fit in a frame.
pub fn encode_request(r: &SignerRequest) -> (out: Option<Vec<u8>>)
    ensures
        out is Some <==> request_fits(r@),
        out matches Some(v) ==> v@ == frame(request_payload(r@)),
{
    let mut out: Vec<u8> = Vec::new();
    match r {
        SignerRequest::IsExternalSignerInstalled => {
            push_be32(&mut out, 1);
            out.push(1u8);
        },
        SignerRequest::GetPublicKey => {
            push_be32(&mut out, 1);
            out.push(2u8);
        },
        SignerRequest::SignEvent { unsigned_event } => {
            let n = byte_len(unsigned_event);
            if n > MAX_PAYLOAD - 5 {
                return None;
            }
            push_be32(&mut out, (n + 5) as u32);
            out.push(3u8);
            push_field(&mut out, unsigned_event);
        },
        SignerRequest::Nip04Encrypt { current_user_public_key, other_public_key, plaintext } => {
            return encode_three(4u8, current_user_public_key, other_public_key, plaintext);
        },
        SignerRequest::Nip04Decrypt { current_user_public_key, other_public_key, ciphertext } => {
            return encode_three(5u8, current_user_public_key, other_public_key, ciphertext);
        },
    }
    assert(out@ =~= frame(request_payload(r@)));
    Some(out)
}

fn encode_three(tag: u8, x: &String, y: &String, z: &String) -> (out: Option<Vec<u8>>)
    ensures
        out is Some <==> (seq![tag] + field(x@) + field(y@) + field(z@)).len() <= MAX_PAYLOAD,
        out matches Some(v) ==> v@ == frame(seq![tag] + field(x@) + field(y@) + field(z@)),
{
    let nx = byte_len(x);
    let ny = byte_len(y);
    let nz = byte_len(z);
    if nx > MAX_PAYLOAD || ny > MAX_PAYLOAD || nz > MAX_PAYLOAD {
        return None;
    }
    let total: u64 = 13 + nx + ny + nz;
    if total > MAX_PAYLOAD {
        return None;
    }
    let mut out: Vec<u8> = Vec::new();
    push_be32(&mut out, total as u32);
    out.push(tag);
    push_field(&mut out, x);
    push_field(&mut out, y);
    push_field(&mut out, z);
    assert(out@ =~= frame(seq![tag] + field(x@) + field(y@) + field(z@)));
    Some(out)
}

/// The frame of a reply, or `None` when its payload does not fit in a frame.
pub fn encode_reply(r: &SignerReply) -> (out: Option<Vec<u8>>)
    ensures
        out is Some <==> reply_fits(r@),
        out matches Some(v) ==> v@ == frame(reply_payload(r@)),
{
    let (tag, s): (u8, &String) = match r {
        SignerReply::IsExternalSignerInstalled { installed } => {
            let mut out: Vec<u8> = Vec::new();
            push_be32(&mut out, 2);
            out.push(1u8);
            out.push(if *installed { 1u8 } else { 0u8 });
            assert(out@ =~= frame(reply_payload(r@)));
            return Some(out);
        },
        SignerReply::Failure { message } => (0u8, message),
        SignerReply::GetPublicKey { public_key } => (2u8, public_key),
        SignerReply::SignEvent { event } => (3u8, event),
        SignerReply::Nip04Encrypt { ciphertext } => (4u8, ciphertext),
        SignerReply::Nip04Decrypt { plaintext } => (5u8, plaintext),
    };
    assert(reply_payload(r@) == seq![tag] + field(s@));
    let n = byte_len(s);
    if n > MAX_PAYLOAD - 5 {
        return None;
    }
    let mut out: Vec<u8> = Vec::new();
    push_be32(&mut out, (n + 5) as u32);
    out.push(tag);
    push_field(&mut out, s);
    assert(out@ =~= frame(reply_payload(r@)));
    Some(out)
}

/// The string field at `pos` and the position after it.
fn read_field(b: &[u8], pos: usize) -> (r: Option<(String, usize)>)
    ensures
        match r {
            Some((s, end)) => field_at(b@, pos as int) == Some((s@, end as int)),
            None => field_at(b@, pos as int) is None,
        },
{
    if b.len() < 4 || pos > b.len() - 4 {
        return None;
    }
    let n = get_be32(b, pos) as usize;
    if n > b.len() - pos - 4 {
        return None;
    }
    let end = pos + 4 + n;
    let bytes = slice_to_vec(&b[pos + 4..end]);
    match utf8_string(bytes) {
        Some(s) => Some((s, end)),
        None => None,
    }
}

/// The string field at `pos`, where it ends the payload.
fn read_last_field(b: &[u8], pos: usize) -> (r: Option<String>)
    ensures
        match r {
            Some(s) => last_field(b@, pos as int) == Some(s@),
            None => last_field(b@, pos as int) is None,
        },
{
    match read_field(b, pos) {
        Some((s, end)) => if end == b.len() {
            Some(s)
        } else {
            None
        },
        None => None,
    }
}

fn read_three(b: &[u8]) -> (r: Option<(String, String, String)>)
    ensures
        match r {
            Some((x, y, z)) => three_fields(b@) == Some((x@, y@, z@)),
            None => three_fields(b@) is None,
        },
{
    let (x, p1) = match read_field(b, 1) {
        Some(f) => f,
        None => return None,
    };
    let (y, p2) = match read_field(b, p1) {
        Some(f) => f,
        None => return None,
    };
    match read_last_field(b, p2) {
        Some(z) => Some((x, y, z)),
        None => None,
    }
}

/// The request that a frame's payload holds, or `None` when it is malformed.
pub fn decode_request(payload: &[u8]) -> (r: Option<SignerRequest>)
    ensures
        match r {
            Some(q) => parse_request(payload@) == Some(q@),
            None => parse_request(payload@) is None,
        },
{
    if payload.len() == 0 {
        return None;
    }
    let tag = payload[0];
    if tag == 1 || tag == 2 {
        if payload.len() != 1 {
            None
        } else if tag == 1 {
            Some(SignerRequest::IsExternalSignerInstalled)
        } else {
            Some(SignerRequest::GetPublicKey)
        }
    } else if tag == 3 {
        match read_last_field(payload, 1) {
            Some(unsigned_event) => Some(SignerRequest::SignEvent { unsigned_event }),
            None => None,
        }
    } else if tag == 4 || tag == 5 {
        match read_three(payload) {
            Some((a, b, c)) => if tag == 4 {
                Some(
                    SignerRequest::Nip04Encrypt {
                        current_user_public_key: a,
                        other_public_key: b,
                        plaintext: c,
                    },
                )
            } else {
                Some(
                    SignerRequest::Nip04Decrypt {
                        current_user_public_key: a,
                        other_public_key: b,
                        ciphertext: c,
                    },
                )
            },
            None => None,
        }
    } else {
        None
    }
}

/// The reply that a frame's payload holds, or `None` when it is malformed.
pub fn decode_reply(payload: &[u8]) -> (r: Option<SignerReply>)
    ensures
        match r {
            Some(q) => parse_reply(payload@) == Some(q@),
            None => parse_reply(payload@) is None,
        },
{
    if payload.len() == 0 {
        return None;
    }
    let tag = payload[0];
    if tag == 1 {
        if payload.len() == 2 && payload[1] <= 1 {
            Some(SignerReply::IsExternalSignerInstalled { installed: payload[1] == 1 })
        } else {
            None
        }
    } else if tag <= 5 {
        match read_last_field(payload, 1) {
            Some(s) => Some(
                if tag == 0 {
                    SignerReply::Failure { message: s }
                } else if tag == 2 {
                    SignerReply::GetPublicKey { public_key: s }
                } else if tag == 3 {
                    SignerReply::SignEvent { event: s }
                } else if tag == 4 {
                    SignerReply::Nip04Encrypt { ciphertext: s }
                } else {
                    SignerReply::Nip04Decrypt { plaintext: s }
                },
            ),
            None => None,
        }
    } else {
        None
    }
}

} // verus!
