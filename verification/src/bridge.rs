use vstd::prelude::*;

use crate::error::IngestError;

verus! {

/// Trusted view of std::sync::mpsc::Receiver, the consuming end of the
/// one-producer/one-consumer chunk queue that feeds the decode side.
#[verifier::external_type_specification]
#[verifier::external_body]
#[verifier::reject_recursive_types(T)]
pub struct ExReceiver<T>(std::sync::mpsc::Receiver<T>);

/// Relies on std::sync::mpsc::Receiver::recv: blocks until the producer
/// sends a chunk (Some) or until the sending side is gone (None). What
/// arrives depends entirely on the producer, so nothing is promised of the
/// value.
#[verifier::external_body]
fn recv_chunk(channel: &std::sync::mpsc::Receiver<Vec<u8>>) -> (r: Option<Vec<u8>>) {
    channel.recv().ok()
}

/// A target for a seek on the decode bridge. Only absolute positions and
/// steps from the current position are meaningful there; the total stream
/// length is unknown while bytes are still arriving, so there is no
/// seeking from the end.
#[derive(Clone, Copy, Debug, PartialEq, Eq, Structural)]
pub enum SeekTarget {
    /// An absolute byte offset from the start of the stream.
    Start(u64),
    /// A signed step from the current position.
    Current(i64),
}

/// The synchronous byte source handed to the blocking decoder: a growing
/// buffer of every chunk received so far from the splitter's queue, and a
/// read cursor into it. The disk-write loop drives the network; this side
/// only pulls from the queue when the cursor runs past what has arrived.
pub struct Buffer {
    buffer: Vec<u8>,
    position: usize,
    channel: std::sync::mpsc::Receiver<Vec<u8>>,
}

impl Buffer {
    /// Every byte received so far, in arrival order.
    pub closed spec fn buf(self) -> Seq<u8> {
        self.buffer@
    }

    /// The read cursor.
    pub closed spec fn pos(self) -> int {
        self.position as int
    }

    /// The cursor sits inside the received bytes. Reads require this; a
    /// forward seek beyond the end can break it until more bytes arrive.
    pub open spec fn wf(self) -> bool {
        0 <= self.pos() <= self.buf().len()
    }

    /// A fresh bridge over a chunk queue: nothing received, cursor at the
    /// start.
    pub fn new(channel: std::sync::mpsc::Receiver<Vec<u8>>) -> (r: Buffer)
        ensures
            r.buf() == Seq::<u8>::empty(),
            r.pos() == 0,
    {
        Buffer { buffer: Vec::new(), position: 0, channel }
    }

    /// The bytes received so far, for callers outside the library that
    /// need a borrowed view (the buffered-read adapter).
    pub fn contents(&self) -> (r: &Vec<u8>)
        ensures
            r@ == self.buf(),
    {
        &self.buffer
    }

    /// The current cursor position.
    pub fn cursor(&self) -> (r: usize)
        ensures
            r == self.pos(),
    {
        self.position
    }

    /// Take delivery of one chunk from the splitter: exactly its bytes, in
    /// their order, appended after everything received before, with the
    /// cursor left where it was. This is the whole effect a queue delivery
    /// has on the bridge, so the splitter guarantee — the decode side sees
    /// precisely the bytes that arrived — is fixed here.
    pub fn absorb_chunk(&mut self, data: Vec<u8>)
        ensures
            final(self).buf() == old(self).buf() + data@,
            final(self).pos() == old(self).pos(),
    {
        self.buffer.extend_from_slice(data.as_slice());
        proof {
            assert(self.buffer@ =~= old(self).buffer@ + data@);
        }
    }

    /// Pull one chunk from the queue and absorb it. Blocks until the
    /// producer sends; what arrives is the producer's alone, so this
    /// contract fixes only the shape of the change — `absorb_chunk` above
    /// says exactly what the received chunk does to the buffer. A closed
    /// queue means the stream ended without its sentinel: the truncation
    /// error.
    pub fn read_channel(&mut self) -> (r: Result<(), IngestError>)
        ensures
            final(self).pos() == old(self).pos(),
            r is Ok ==> old(self).buf().is_prefix_of(final(self).buf()),
            r is Err ==> *final(self) == *old(self) && r == Err::<(), IngestError>(
                IngestError::Truncated,
            ),
    {
        match recv_chunk(&self.channel) {
            Some(data) => {
                self.absorb_chunk(data);
                Ok(())
            },
            None => Err(IngestError::Truncated),
        }
    }

    /// Sequential read into the front of `out`, as the blocking decoder
    /// issues it. When the cursor has consumed everything received, one
    /// more chunk is awaited first; an empty sentinel chunk then yields a
    /// zero-byte read, the conventional end of stream. Returns how many
    /// bytes were copied.
    pub fn read(&mut self, out: &mut Vec<u8>) -> (r: Result<usize, IngestError>)
        requires
            old(self).wf(),
        ensures
            final(self).wf(),
            final(out)@.len() == old(out)@.len(),
            match r {
                Ok(count) => {
                    &&& old(self).buf().is_prefix_of(final(self).buf())
                    &&& old(self).pos() < old(self).buf().len() ==> final(self).buf() == old(
                        self,
                    ).buf()
                    &&& count == vstd::math::min(
                        final(self).buf().len() - old(self).pos(),
                        old(out)@.len() as int,
                    )
                    &&& final(self).pos() == old(self).pos() + count
                    &&& forall|i: int|
                        0 <= i < count ==> final(out)@[i] == final(self).buf()[old(self).pos() + i]
                    &&& forall|i: int| count <= i < old(out)@.len() ==> final(out)@[i] == old(out)@[i]
                },
                Err(e) => {
                    &&& *final(self) == *old(self)
                    &&& final(out)@ == old(out)@
                    &&& e == IngestError::Truncated
                    &&& old(self).pos() == old(self).buf().len()
                },
            },
    {
        if self.position >= self.buffer.len() {
            match self.read_channel() {
                Ok(()) => {},
                Err(e) => {
                    return Err(e);
                },
            }
        }
        let ghost buf_snap: Seq<u8> = self.buffer@;
        let ghost pos0: int = self.position as int;
        let avail = self.buffer.len() - self.position;
        let n = if avail < out.len() {
            avail
        } else {
            out.len()
        };
        let mut count: usize = 0;
        while count < n
            invariant
                count <= n,
                self.buffer@ == buf_snap,
                pos0 == old(self).pos(),
                old(self).buf().is_prefix_of(buf_snap),
                old(self).pos() < old(self).buf().len() ==> buf_snap == old(self).buf(),
                n == vstd::math::min(buf_snap.len() - pos0, old(out)@.len() as int),
                pos0 + n <= buf_snap.len(),
                pos0 + n <= usize::MAX,
                self.position == pos0 + count,
                out@.len() == old(out)@.len(),
                forall|i: int| 0 <= i < count ==> out@[i] == buf_snap[pos0 + i],
                forall|i: int| count <= i < out@.len() ==> out@[i] == old(out)@[i],
            decreases n - count,
        {
            let b = self.buffer[self.position];
            out.set(count, b);
            self.position = self.position + 1;
            count = count + 1;
        }
        Ok(count)
    }

    /// Await one more chunk, making more bytes available to borrow through
    /// `contents`; the delivery itself is `read_channel`'s, and what the
    /// chunk does to the buffer is `absorb_chunk`'s exact contract. The
    /// buffered-read adapter pairs this with `consume`.
    pub fn fill_buf(&mut self) -> (r: Result<(), IngestError>)
        ensures
            final(self).pos() == old(self).pos(),
            r is Ok ==> old(self).buf().is_prefix_of(final(self).buf()),
            r is Err ==> *final(self) == *old(self) && r == Err::<(), IngestError>(
                IngestError::Truncated,
            ),
    {
        self.read_channel()
    }

    /// Advance the cursor by `amount`, clamped to the bytes received so
    /// far.
    pub fn consume(&mut self, amount: usize)
        requires
            old(self).pos() + amount <= usize::MAX,
        ensures
            final(self).buf() == old(self).buf(),
            final(self).pos() == vstd::math::min(
                old(self).buf().len() as int,
                old(self).pos() + amount,
            ),
    {
        let target = self.position + amount;
        self.position = if self.buffer.len() < target {
            self.buffer.len()
        } else {
            target
        };
    }

    /// Move the cursor. Forward-only in spirit: a target before the start
    /// of the stream, or one no cursor can represent, is refused and
    /// leaves the bridge unchanged. On success the new absolute position
    /// is returned.
    pub fn seek(&mut self, target: SeekTarget) -> (r: Result<u64, IngestError>)
        requires
            target matches SeekTarget::Current(delta) ==> old(self).pos() <= i64::MAX && old(
                self,
            ).pos() + delta <= i64::MAX,
        ensures
            final(self).buf() == old(self).buf(),
            match target {
                SeekTarget::Start(offset) => {
                    if offset <= i64::MAX && offset <= usize::MAX {
                        &&& r == Ok::<u64, IngestError>(offset)
                        &&& final(self).pos() == offset
                    } else {
                        &&& r == Err::<u64, IngestError>(IngestError::InvalidSeek)
                        &&& final(self).pos() == old(self).pos()
                    }
                },
                SeekTarget::Current(delta) => {
                    if 0 <= old(self).pos() + delta <= usize::MAX {
                        &&& r == Ok::<u64, IngestError>((old(self).pos() + delta) as u64)
                        &&& final(self).pos() == old(self).pos() + delta
                    } else {
                        &&& r == Err::<u64, IngestError>(IngestError::InvalidSeek)
                        &&& final(self).pos() == old(self).pos()
                    }
                },
            },
    {
        let new_pos: i64 = match target {
            SeekTarget::Start(offset) => {
                if offset > i64::MAX as u64 {
                    return Err(IngestError::InvalidSeek);
                }
                offset as i64
            },
            SeekTarget::Current(delta) => self.position as i64 + delta,
        };
        if new_pos < 0 {
            return Err(IngestError::InvalidSeek);
        }
        let wide = new_pos as u64;
        if wide > usize::MAX as u64 {
            return Err(IngestError::InvalidSeek);
        }
        self.position = wide as usize;
        Ok(wide)
    }
}

} // verus!
