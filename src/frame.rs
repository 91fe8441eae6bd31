//! Typed frames: the length-delimited codec at the byte-stream boundary and
//! the chat payload layout that the relay reads and writes.
use vstd::prelude::*;

verus! {

/// First byte of every frame header.
pub const FRAME_SIGNATURE: u8 = 0xF7;

/// Header bytes: signature, type tag, then the frame length (header
/// included) as a little-endian `u16`.
pub const HEADER_LEN: usize = 4;

/// Largest frame length that the header can carry.
pub const MAX_FRAME_LEN: usize = 0xFFFF;

pub const INCOMING_ACTION: u8 = 0x0C;

pub const CHAT_FROM_HOST: u8 = 0x0F;

pub const LEAVE_ACK: u8 = 0x1B;

pub const OUTGOING_ACTION: u8 = 0x26;

pub const OUTGOING_KEEP_ALIVE: u8 = 0x27;

pub const CHAT_TO_HOST: u8 = 0x28;

/// Chat flag of a scoped message (one carrying a scope word before its text).
pub const CHAT_FLAG_SCOPED: u8 = 0x20;

/// Scope word of a message sent directly to one player: this base plus the
/// player's slot id.
pub const CHAT_SCOPE_DIRECT: u32 = 3;

/// A frame: a numeric type tag and an opaque payload.
#[derive(Debug)]
pub struct Frame {
    pub type_id: u8,
    pub payload: Vec<u8>,
}

/// Bytes of a frame on the wire.
pub open spec fn encoding(type_id: u8, payload: Seq<u8>) -> Seq<u8> {
    let len = payload.len() + HEADER_LEN;
    seq![FRAME_SIGNATURE, type_id, (len % 256) as u8, (len / 256) as u8] + payload
}

/// Frame length that a header declares.
pub open spec fn declared_len(b: Seq<u8>) -> nat {
    b[2] as nat + 256 * (b[3] as nat)
}

#[derive(Debug, PartialEq, Eq, Structural)]
pub enum EncodeError {
    PayloadTooLarge,
}

#[derive(Debug, PartialEq, Eq, Structural)]
pub enum DecodeError {
    BadSignature,
    BadLength,
}

/// What the front of a byte buffer holds.
pub enum Decoded {
    /// Not yet a whole frame: more bytes are needed.
    Incomplete,
    /// A whole frame, and the number of bytes it took.
    Complete(Frame, usize),
}

/// The wire bytes of `f`.
pub fn encode_frame(f: &Frame) -> (r: Result<Vec<u8>, EncodeError>)
    ensures
        r is Ok <==> f.payload@.len() + HEADER_LEN <= MAX_FRAME_LEN,
        r is Ok ==> r->Ok_0@ == encoding(f.type_id, f.payload@),
{
    if f.payload.len() > MAX_FRAME_LEN - HEADER_LEN {
        return Err(EncodeError::PayloadTooLarge);
    }
    let len = f.payload.len() + HEADER_LEN;
    let mut out: Vec<u8> = Vec::new();
    out.push(FRAME_SIGNATURE);
    out.push(f.type_id);
    out.push((len % 256) as u8);
    out.push((len / 256) as u8);
    let mut i: usize = 0;
    while i < f.payload.len()
        invariant
            i <= f.payload@.len(),
            out@ == seq![FRAME_SIGNATURE, f.type_id, (len % 256) as u8, (len / 256) as u8]
                + f.payload@.subrange(0, i as int),
        decreases f.payload@.len() - i,
    {
        out.push(f.payload[i]);
        i = i + 1;
        assert(out@ =~= seq![FRAME_SIGNATURE, f.type_id, (len % 256) as u8, (len / 256) as u8]
            + f.payload@.subrange(0, i as int));
    }
    assert(f.payload@.subrange(0, i as int) =~= f.payload@);
    Ok(out)
}

/// Reads the frame at the front of `buf`, if it is all there.
pub fn decode_frame(buf: &[u8]) -> (r: Result<Decoded, DecodeError>)
    ensures
        ({
            let b = buf@;
            match r {
                Ok(Decoded::Incomplete) => b.len() < HEADER_LEN || (b[0] == FRAME_SIGNATURE
                    && HEADER_LEN <= declared_len(b) && b.len() < declared_len(b)),
                Ok(Decoded::Complete(f, n)) => b.len() >= HEADER_LEN && b[0] == FRAME_SIGNATURE
                    && HEADER_LEN <= declared_len(b) <= b.len() && n == declared_len(b)
                    && f.type_id == b[1] && f.payload@ == b.subrange(HEADER_LEN as int, n as int),
                Err(DecodeError::BadSignature) => b.len() >= HEADER_LEN && b[0] != FRAME_SIGNATURE,
                Err(DecodeError::BadLength) => b.len() >= HEADER_LEN && b[0] == FRAME_SIGNATURE
                    && declared_len(b) < HEADER_LEN,
            }
        }),
{
    if buf.len() < HEADER_LEN {
        return Ok(Decoded::Incomplete);
    }
    if buf[0] != FRAME_SIGNATURE {
        return Err(DecodeError::BadSignature);
    }
    let n = buf[2] as usize + 256 * (buf[3] as usize);
    if n < HEADER_LEN {
        return Err(DecodeError::BadLength);
    }
    if buf.len() < n {
        return Ok(Decoded::Incomplete);
    }
    let mut payload: Vec<u8> = Vec::new();
    let mut i: usize = HEADER_LEN;
    while i < n
        invariant
            HEADER_LEN <= i <= n <= buf@.len(),
            payload@ == buf@.subrange(HEADER_LEN as int, i as int),
        decreases n - i,
    {
        payload.push(buf[i]);
        i = i + 1;
        assert(payload@ =~= buf@.subrange(HEADER_LEN as int, i as int));
    }
    Ok(Decoded::Complete(Frame { type_id: buf[1], payload }, n))
}

/// A frame's encoding, followed by any bytes, reads back as that frame.
pub proof fn lemma_frame_round_trip(type_id: u8, payload: Seq<u8>, rest: Seq<u8>)
    requires
        payload.len() + HEADER_LEN <= MAX_FRAME_LEN,
    ensures
        ({
            let b = encoding(type_id, payload) + rest;
            &&& b.len() >= HEADER_LEN
            &&& b[0] == FRAME_SIGNATURE
            &&& declared_len(b) == payload.len() + HEADER_LEN
            &&& declared_len(b) <= b.len()
            &&& b[1] == type_id
            &&& b.subrange(HEADER_LEN as int, declared_len(b) as int) == payload
        }),
{
    let b = encoding(type_id, payload) + rest;
    let len = payload.len() + HEADER_LEN;
    assert(b[2] == (len % 256) as u8);
    assert(b[3] == (len / 256) as u8);
    assert(declared_len(b) == len);
    assert(b.subrange(HEADER_LEN as int, len as int) =~= payload);
}

/// The first byte past the recipient list of a chat payload: the sender.
pub open spec fn chat_sender_at(p: Seq<u8>) -> int {
    p[0] as int + 1
}

/// Where the text of a scoped chat payload starts: after the recipient
/// count and list, the sender, the flag and the four-byte scope word.
pub open spec fn chat_text_start(p: Seq<u8>) -> int {
    p[0] as int + 7
}

/// `k` ends the text of a scoped chat payload: the first zero byte after
/// its start.
pub open spec fn is_text_end(p: Seq<u8>, k: int) -> bool {
    &&& chat_text_start(p) <= k < p.len()
    &&& p[k] == 0
    &&& forall|j: int| chat_text_start(p) <= j < k ==> p[j] != 0
}

/// Whether a chat payload is a well-formed scoped message.
pub open spec fn is_scoped_chat(p: Seq<u8>) -> bool {
    &&& p.len() > 0
    &&& p.len() >= chat_text_start(p)
    &&& p[p[0] as int + 2] == CHAT_FLAG_SCOPED
    &&& exists|k: int| chat_text_start(p) <= k < p.len() && p[k] == 0
}

pub open spec fn chat_sender(p: Seq<u8>) -> u8 {
    p[chat_sender_at(p)]
}

/// The text of a scoped chat payload, without its terminating zero.
pub open spec fn chat_text(p: Seq<u8>) -> Seq<u8> {
    let k = choose|k: int| is_text_end(p, k);
    p.subrange(chat_text_start(p), k)
}

/// The sender and text of a scoped chat message.
pub struct ScopedChat {
    pub from: u8,
    pub text: Vec<u8>,
}

proof fn lemma_text_end_unique(p: Seq<u8>, k1: int, k2: int)
    requires
        is_text_end(p, k1),
        is_text_end(p, k2),
    ensures
        k1 == k2,
{
    if k1 < k2 {
        assert(p[k1] != 0);
    } else if k2 < k1 {
        assert(p[k2] != 0);
    }
}

/// Reads a chat payload as a scoped message, if it is one.
pub fn parse_scoped_chat(p: &Vec<u8>) -> (r: Option<ScopedChat>)
    ensures
        r is Some <==> is_scoped_chat(p@),
        r is Some ==> r->0.from == chat_sender(p@) && r->0.text@ == chat_text(p@),
{
    if p.len() == 0 {
        return None;
    }
    let start = p[0] as usize + 7;
    if p.len() < start || p[p[0] as usize + 2] != CHAT_FLAG_SCOPED {
        return None;
    }
    let mut text: Vec<u8> = Vec::new();
    let mut k = start;
    while k < p.len() && p[k] != 0
        invariant
            start == chat_text_start(p@),
            start <= k <= p@.len(),
            text@ == p@.subrange(start as int, k as int),
            forall|j: int| start <= j < k ==> p@[j] != 0,
        decreases p@.len() - k,
    {
        text.push(p[k]);
        k = k + 1;
        assert(text@ =~= p@.subrange(start as int, k as int));
    }
    if k == p.len() {
        assert forall|j: int| chat_text_start(p@) <= j < p@.len() implies p@[j] != 0 by {}
        return None;
    }
    proof {
        assert(is_text_end(p@, k as int));
        let c = choose|c: int| is_text_end(p@, c);
        lemma_text_end_unique(p@, c, k as int);
    }
    Some(ScopedChat { from: p[p[0] as usize + 1], text })
}

/// Payload of a scoped chat message that `player` sends to itself.
pub open spec fn private_chat_payload(player: u8, text: Seq<u8>) -> Seq<u8> {
    let scope = CHAT_SCOPE_DIRECT + player;
    seq![1, player, player, CHAT_FLAG_SCOPED, (scope % 256) as u8, (scope / 256) as u8, 0, 0]
        + text + seq![0u8]
}

/// Whether `text` can travel as a private chat: no zero byte inside, and
/// the whole frame within the largest length.
pub open spec fn private_chat_fits(text: Seq<u8>) -> bool {
    &&& text.len() + 9 + HEADER_LEN <= MAX_FRAME_LEN
    &&& forall|i: int| 0 <= i < text.len() ==> text[i] != 0
}

/// A chat-from-host frame carrying `text` privately to `player`.
pub fn private_chat_frame(player: u8, text: &[u8]) -> (r: Option<Frame>)
    ensures
        r is Some <==> private_chat_fits(text@),
        r is Some ==> r->0.type_id == CHAT_FROM_HOST
            && r->0.payload@ == private_chat_payload(player, text@),
{
    if text.len() > MAX_FRAME_LEN - HEADER_LEN - 9 {
        return None;
    }
    let scope: u32 = CHAT_SCOPE_DIRECT + player as u32;
    let mut payload: Vec<u8> = Vec::new();
    payload.push(1);
    payload.push(player);
    payload.push(player);
    payload.push(CHAT_FLAG_SCOPED);
    payload.push((scope % 256) as u8);
    payload.push((scope / 256) as u8);
    payload.push(0);
    payload.push(0);
    let ghost head = payload@;
    let mut i: usize = 0;
    while i < text.len()
        invariant
            i <= text@.len(),
            payload@ == head + text@.subrange(0, i as int),
            forall|j: int| 0 <= j < i ==> text@[j] != 0,
        decreases text@.len() - i,
    {
        if text[i] == 0 {
            return None;
        }
        payload.push(text[i]);
        i = i + 1;
        assert(payload@ =~= head + text@.subrange(0, i as int));
    }
    payload.push(0);
    assert(payload@ =~= private_chat_payload(player, text@));
    Some(Frame { type_id: CHAT_FROM_HOST, payload })
}

/// The frame that acknowledges a leave request.
pub fn leave_ack_frame() -> (r: Frame)
    ensures
        r.type_id == LEAVE_ACK,
        r.payload@.len() == 0,
{
    Frame { type_id: LEAVE_ACK, payload: Vec::new() }
}

} // verus!
