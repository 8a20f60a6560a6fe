use prost::bytes::BytesMut;
use vstd::prelude::*;

use crate::buffer::{
    be_bytes, be_u32, buffer_bytes, buffer_extend, buffer_get_u32, buffer_len, buffer_put_u32,
    buffer_split_to, lemma_be_round_trip, BUFFER_MAX,
};
use crate::error::{failure_kind, FailureKind, RiemannClientError};

verus! {

/// The largest body a frame can carry: its length must fit the 32-bit header.
pub const MAX_BODY_LEN: usize = 0xffff_ffff;

/// The frame for a serialised message: a 4-byte big-endian length, then the body.
pub open spec fn frame(body: Seq<u8>) -> Seq<u8>
    recommends
        body.len() <= MAX_BODY_LEN,
{
    be_bytes(body.len() as u32) + body
}

/// One decoding step on the bytes buffered so far, given the body length
/// remembered from an earlier step: the length remembered afterwards, the
/// bytes left in the buffer, and the body if a whole one was there.
/// A header is read once; while its body is incomplete the length is kept
/// and nothing more is consumed.
pub open spec fn decode_step(len: Option<usize>, bytes: Seq<u8>) -> (
    Option<usize>,
    Seq<u8>,
    Option<Seq<u8>>,
) {
    match len {
        Some(n) => if bytes.len() >= n {
            (None, bytes.subrange(n as int, bytes.len() as int), Some(bytes.subrange(0, n as int)))
        } else {
            (Some(n), bytes, None)
        },
        None => if bytes.len() >= 4 {
            let n = be_u32(bytes) as usize;
            let rest = bytes.subrange(4, bytes.len() as int);
            if rest.len() >= n {
                (None, rest.subrange(n as int, rest.len() as int), Some(rest.subrange(0, n as int)))
            } else {
                (Some(n), rest, None)
            }
        } else {
            (None, bytes, None)
        },
    }
}

/// Reads and writes length-prefixed frames on a byte stream. Between calls it
/// remembers the length of a frame whose header has been read but whose body
/// has not fully arrived.
#[derive(Debug)]
pub struct MsgCodec {
    len: Option<usize>,
}

impl View for MsgCodec {
    type V = Option<usize>;

    closed spec fn view(&self) -> Option<usize> {
        self.len
    }
}

impl Default for MsgCodec {
    fn default() -> (r: MsgCodec)
        ensures
            r@ == None::<usize>,
    {
        MsgCodec::new()
    }
}

impl MsgCodec {
    /// A codec that is not inside a frame.
    pub fn new() -> (r: MsgCodec)
        ensures
            r@ == None::<usize>,
    {
        MsgCodec { len: None }
    }

    /// Appends the frame of `body` to `buf`. Fails with a codec error, leaving
    /// `buf` as it was, when the body is too long for the header or the buffer
    /// would outgrow what can be allocated.
    pub fn encode(&mut self, body: &[u8], buf: &mut BytesMut) -> (r: Result<
        (),
        RiemannClientError,
    >)
        ensures
            final(self)@ == old(self)@,
            r is Ok <==> body@.len() <= MAX_BODY_LEN && buffer_bytes(*old(buf)).len() + 4
                + body@.len() <= BUFFER_MAX,
            r is Ok ==> buffer_bytes(*final(buf)) == buffer_bytes(*old(buf)) + frame(body@),
            r is Err ==> buffer_bytes(*final(buf)) == buffer_bytes(*old(buf)) && failure_kind(
                r->Err_0,
            ) == Some(FailureKind::Codec),
    {
        let size = body.len();
        let held = buffer_len(buf);
        if size > MAX_BODY_LEN || held > BUFFER_MAX - 4 || size > BUFFER_MAX - 4 - held {
            return Err(
                RiemannClientError::IoError(
                    FailureKind::Codec,
                    "message too large to frame".to_owned(),
                ),
            );
        }
        buffer_put_u32(buf, size as u32);
        buffer_extend(buf, body);
        assert(buffer_bytes(*buf) =~= buffer_bytes(*old(buf)) + frame(body@));
        Ok(())
    }

    /// Takes the next whole frame body off the front of `buf`, if there is one.
    /// A header is consumed as soon as it is there, and its length kept until
    /// the body has arrived.
    pub fn decode(&mut self, buf: &mut BytesMut) -> (r: Option<BytesMut>)
        ensures
            ({
                let (len, rest, body) = decode_step(old(self)@, buffer_bytes(*old(buf)));
                &&& final(self)@ == len
                &&& buffer_bytes(*final(buf)) == rest
                &&& match r {
                    Some(b) => body == Some(buffer_bytes(b)),
                    None => body is None,
                }
            }),
    {
        let msg_len = match self.len {
            Some(n) => n,
            None => {
                if buffer_len(buf) >= 4 {
                    let n = buffer_get_u32(buf) as usize;
                    self.len = Some(n);
                    n
                } else {
                    return None;
                }
            },
        };
        if buffer_len(buf) >= msg_len {
            let body = buffer_split_to(buf, msg_len);
            self.len = None;
            Some(body)
        } else {
            None
        }
    }
}

/// The length in a frame's header is the length of its body, and decoding a
/// frame, on its own or with more bytes behind it, gives back the body and
/// leaves exactly those bytes.
pub proof fn lemma_frame_round_trip(body: Seq<u8>, rest: Seq<u8>)
    requires
        body.len() <= MAX_BODY_LEN,
    ensures
        be_u32(frame(body)) == body.len(),
        decode_step(None, frame(body) + rest) == (None::<usize>, rest, Some(body)),
{
    lemma_be_round_trip(body.len() as u32, body);
    lemma_be_round_trip(body.len() as u32, body + rest);
    let s = frame(body) + rest;
    assert(s =~= be_bytes(body.len() as u32) + (body + rest));
    let tail = s.subrange(4, s.len() as int);
    assert(tail =~= body + rest);
    assert(tail.subrange(0, body.len() as int) =~= body);
    assert(tail.subrange(body.len() as int, tail.len() as int) =~= rest);
}

/// However a frame arrives split in two reads with bytes left for the
/// second, the first read yields nothing, the header is read once, and the
/// second read yields the body.
pub proof fn lemma_frame_split(body: Seq<u8>, k: int)
    requires
        body.len() <= MAX_BODY_LEN,
        0 <= k < frame(body).len(),
    ensures
        ({
            let f = frame(body);
            let (len, rest, out) = decode_step(None, f.subrange(0, k));
            &&& out is None
            &&& decode_step(len, rest + f.subrange(k, f.len() as int)) == (
                None::<usize>,
                Seq::<u8>::empty(),
                Some(body),
            )
        }),
{
    let f = frame(body);
    let e = Seq::<u8>::empty();
    lemma_frame_round_trip(body, e);
    assert(f + e =~= f);
    let first = decode_step(None, f.subrange(0, k));
    let second = first.1 + f.subrange(k, f.len() as int);
    if k < 4 {
        assert(first == (None::<usize>, f.subrange(0, k), None::<Seq<u8>>));
        assert(second =~= f);
    } else {
        let head = f.subrange(0, k);
        lemma_be_round_trip(body.len() as u32, body.subrange(0, k - 4));
        assert(head =~= be_bytes(body.len() as u32) + body.subrange(0, k - 4));
        let rest = head.subrange(4, head.len() as int);
        assert(rest =~= body.subrange(0, k - 4));
        assert(first == (Some(body.len() as usize), rest, None::<Seq<u8>>));
        assert(second =~= body);
        assert(second.subrange(0, body.len() as int) =~= body);
        assert(second.subrange(body.len() as int, second.len() as int) =~= e);
    }
}

} // verus!
