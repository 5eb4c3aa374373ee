//! Chunked stream codec: moves an exact, out-of-band-agreed number of
//! fixed-size chunks across a duplex byte stream, with no framing metadata.
//!
//! The stream itself is modelled by [`ByteStream`]: the settled transcript of
//! one direction of a loopback connection. The codec's contracts pin down
//! exactly which bytes a body write appends and which bytes a body read
//! consumes, and that a read never turns a short delivery into a success.

use vstd::prelude::*;

verus! {

/// Number of bytes in one chunk: the indivisible unit the codec moves.
pub const CHUNK_SIZE: usize = 1024;

/// The byte value every chunk of a body carries.
pub const CHUNK_BYTE: u8 = 1;

/// A chunk read or write failed or was cut short by closure of the stream.
#[derive(Clone, Copy, PartialEq, Eq, Structural, Debug)]
pub struct IoError;

/// The bytes a body of `n` chunks consists of.
pub open spec fn body_bytes(n: nat) -> Seq<u8> {
    Seq::new(n * (CHUNK_SIZE as nat), |i: int| CHUNK_BYTE)
}

/// One direction of a duplex byte stream, seen as its settled transcript:
/// every byte the transport has delivered, how far the reader has consumed
/// it, and whether the transport has closed the stream. A read that runs out
/// of delivered bytes is a premature end of stream, never a short success.
pub struct ByteStream {
    /// Every byte delivered on the stream so far, in order.
    pub buf: Vec<u8>,
    /// How many of those bytes the reader has already consumed.
    pub pos: usize,
    /// Whether the transport has closed the stream; writes to a closed
    /// stream fail.
    pub closed: bool,
}

impl ByteStream {
    /// The reader's cursor never runs past the delivered bytes.
    pub open spec fn wf(self) -> bool {
        self.pos <= self.buf@.len()
    }

    /// All bytes ever delivered on the stream.
    pub open spec fn written(self) -> Seq<u8> {
        self.buf@
    }

    /// The delivered bytes the reader has not consumed yet.
    pub open spec fn unread(self) -> Seq<u8> {
        self.buf@.subrange(self.pos as int, self.buf@.len() as int)
    }

    /// A fresh, open, empty stream.
    pub fn new() -> (s: ByteStream)
        ensures
            s.wf(),
            s.written() == Seq::<u8>::empty(),
            s.pos == 0,
            !s.closed,
    {
        ByteStream { buf: Vec::new(), pos: 0, closed: false }
    }

    /// The transport closes the stream: nothing further will be delivered.
    pub fn close(&mut self)
        ensures
            *final(self) == (ByteStream { closed: true, ..*old(self) }),
    {
        self.closed = true;
    }
}

/// Writes `size` chunks of the fixed byte pattern to `io`, or fails with
/// `IoError` exactly when the stream is already closed; a failed write
/// leaves the stream untouched.
pub fn write_body(io: &mut ByteStream, size: u64) -> (r: Result<(), IoError>)
    requires
        old(io).wf(),
        old(io).written().len() + size * (CHUNK_SIZE as int) <= usize::MAX,
    ensures
        final(io).wf(),
        (r is Ok) <==> !old(io).closed,
        r is Err ==> *final(io) == *old(io),
        r is Ok ==> final(io).written() == old(io).written() + body_bytes(size as nat),
        r is Ok ==> final(io).pos == old(io).pos && final(io).closed == old(io).closed,
{
    if io.closed {
        return Err(IoError);
    }
    let total: usize = (size as usize) * CHUNK_SIZE;
    let mut k: usize = 0;
    while k < total
        invariant
            old(io).wf(),
            !old(io).closed,
            k <= total,
            total == size * (CHUNK_SIZE as int),
            old(io).written().len() + total <= usize::MAX,
            io.pos == old(io).pos,
            io.closed == old(io).closed,
            io.buf@ == old(io).buf@ + Seq::new(k as nat, |i: int| CHUNK_BYTE),
        decreases total - k,
    {
        io.buf.push(CHUNK_BYTE);
        proof {
            assert(Seq::new((k + 1) as nat, |i: int| CHUNK_BYTE) =~= Seq::new(
                k as nat,
                |i: int| CHUNK_BYTE,
            ).push(CHUNK_BYTE));
            assert(old(io).buf@ + Seq::new(k as nat, |i: int| CHUNK_BYTE).push(CHUNK_BYTE)
                =~= (old(io).buf@ + Seq::new(k as nat, |i: int| CHUNK_BYTE)).push(CHUNK_BYTE));
        }
        k = k + 1;
    }
    proof {
        assert(io.buf@ =~= old(io).buf@ + body_bytes(size as nat));
    }
    Ok(())
}

/// Reads `size` chunks from `io` and returns the accumulated bytes, or fails
/// with `IoError` exactly when fewer than `size` full chunks remain on the
/// stream (a premature end of stream); a failed read leaves the stream
/// untouched.
pub fn read_body(io: &mut ByteStream, size: u64) -> (r: Result<Vec<u8>, IoError>)
    requires
        old(io).wf(),
    ensures
        final(io).wf(),
        final(io).written() == old(io).written(),
        final(io).closed == old(io).closed,
        (r is Ok) <==> old(io).unread().len() >= size * (CHUNK_SIZE as int),
        (match r {
            Ok(v) => v@ == old(io).unread().subrange(0, size * (CHUNK_SIZE as int))
                && final(io).pos == old(io).pos + size * (CHUNK_SIZE as int),
            Err(_) => final(io).pos == old(io).pos,
        }),
{
    let start: usize = io.pos;
    let mut out: Vec<u8> = Vec::new();
    let mut j: u64 = 0;
    while j < size
        invariant
            old(io).wf(),
            start == old(io).pos,
            j <= size,
            io.buf@ == old(io).buf@,
            io.closed == old(io).closed,
            io.pos == start + j * (CHUNK_SIZE as int),
            io.pos <= io.buf@.len(),
            out@ == old(io).unread().subrange(0, j * (CHUNK_SIZE as int)),
        decreases size - j,
    {
        if io.buf.len() - io.pos < CHUNK_SIZE {
            // premature end of stream: fewer than `size` chunks were delivered
            io.pos = start;
            return Err(IoError);
        }
        let mut k: usize = 0;
        while k < CHUNK_SIZE
            invariant
                old(io).wf(),
                start == old(io).pos,
                j < size,
                k <= CHUNK_SIZE,
                io.buf@ == old(io).buf@,
                io.closed == old(io).closed,
                io.pos == start + j * (CHUNK_SIZE as int),
                io.pos + CHUNK_SIZE <= io.buf@.len(),
                io.buf@.len() <= usize::MAX,
                out@ == old(io).unread().subrange(0, j * (CHUNK_SIZE as int) + k),
            decreases CHUNK_SIZE - k,
        {
            let b: u8 = io.buf[io.pos + k];
            out.push(b);
            proof {
                let base: int = j * (CHUNK_SIZE as int) + k;
                assert(old(io).unread()[base] == old(io).buf@[start + base]);
                assert(old(io).unread().subrange(0, base + 1) =~= old(io).unread().subrange(
                    0,
                    base,
                ).push(old(io).unread()[base]));
            }
            k = k + 1;
        }
        io.pos = io.pos + CHUNK_SIZE;
        j = j + 1;
    }
    Ok(out)
}

/// The bulk-transfer codec of one exchange: requests carry an empty body,
/// responses carry exactly `message_size_in_kilobyte` chunks. The chunk
/// count is agreed out-of-band by both ends; the wire carries no framing
/// metadata.
#[derive(Clone, Copy)]
pub struct Codec {
    /// Number of 1024-byte chunks a response body must contain.
    pub message_size_in_kilobyte: u64,
}

impl Codec {
    /// A codec for bodies of `message_size_in_kilobyte` chunks.
    pub fn new(message_size_in_kilobyte: u64) -> (c: Codec)
        ensures
            c.message_size_in_kilobyte == message_size_in_kilobyte,
    {
        Codec { message_size_in_kilobyte }
    }

    /// Reads a request body. Requests are a zero-length signal: nothing is
    /// consumed and the read always succeeds.
    pub fn read_request(&self, io: &mut ByteStream) -> (r: Result<(), IoError>)
        ensures
            *final(io) == *old(io),
            r is Ok,
    {
        let _ = io;
        Ok(())
    }

    /// Writes a request body. Requests are a zero-length signal: nothing is
    /// written and the write always succeeds.
    pub fn write_request(&self, io: &mut ByteStream) -> (r: Result<(), IoError>)
        ensures
            *final(io) == *old(io),
            r is Ok,
    {
        let _ = io;
        Ok(())
    }

    /// Reads a full response body of `message_size_in_kilobyte` chunks,
    /// consuming exactly those bytes; fails with `IoError` exactly when the
    /// stream ends before all chunks arrived, leaving the stream untouched.
    pub fn read_response(&self, io: &mut ByteStream) -> (r: Result<(), IoError>)
        requires
            old(io).wf(),
        ensures
            final(io).wf(),
            final(io).written() == old(io).written(),
            final(io).closed == old(io).closed,
            (r is Ok) <==> old(io).unread().len() >= self.message_size_in_kilobyte * (
            CHUNK_SIZE as int),
            r is Ok ==> final(io).pos == old(io).pos + self.message_size_in_kilobyte * (
            CHUNK_SIZE as int),
            r is Err ==> final(io).pos == old(io).pos,
    {
        match read_body(io, self.message_size_in_kilobyte) {
            Ok(_) => Ok(()),
            Err(e) => Err(e),
        }
    }

    /// Writes a full response body of `message_size_in_kilobyte` chunks;
    /// fails with `IoError` exactly when the stream is already closed,
    /// leaving it untouched.
    pub fn write_response(&self, io: &mut ByteStream) -> (r: Result<(), IoError>)
        requires
            old(io).wf(),
            old(io).written().len() + self.message_size_in_kilobyte * (CHUNK_SIZE as int)
                <= usize::MAX,
        ensures
            final(io).wf(),
            (r is Ok) <==> !old(io).closed,
            r is Err ==> *final(io) == *old(io),
            r is Ok ==> final(io).written() == old(io).written() + body_bytes(
                self.message_size_in_kilobyte as nat,
            ),
            r is Ok ==> final(io).pos == old(io).pos && final(io).closed == old(io).closed,
    {
        write_body(io, self.message_size_in_kilobyte)
    }
}

/// Round-trip fidelity: whenever `post` is what a body write of `size`
/// chunks leaves of a fresh stream `pre`, a body read of the same `size`
/// from `post` is guaranteed to succeed and to return byte-for-byte the
/// body the writer produced.
pub proof fn lemma_write_read_round_trip(pre: ByteStream, post: ByteStream, size: u64)
    requires
        pre.wf(),
        post.wf(),
        pre.written().len() == 0,
        pre.pos == 0,
        post.written() == pre.written() + body_bytes(size as nat),
        post.pos == pre.pos,
    ensures
        post.unread().len() >= size * (CHUNK_SIZE as int),
        post.unread().subrange(0, size * (CHUNK_SIZE as int)) == body_bytes(size as nat),
{
    assert(post.unread() =~= body_bytes(size as nat));
    assert(post.unread().subrange(0, size * (CHUNK_SIZE as int)) =~= body_bytes(size as nat));
}

} // verus!
