//! Reassembly of discrete messages out of an unbounded sequence of partial
//! stream reads.
//!
//! No explicit length prefix carries a message boundary on the wire. Instead
//! the receiver reads into a fixed-size intermediate buffer of
//! [`READ_CHUNK_SIZE`] bytes in a loop, accumulating into a growable result
//! buffer, and considers the message complete the moment a read returns
//! strictly fewer bytes than the buffer's capacity, or the stream closes.
//! Each loop iteration is individually subject to the configured timeout; if
//! the timeout fires mid-message, the operation fails and any bytes already
//! accumulated in that call are discarded, not returned and not buffered for
//! a subsequent call.
//!
//! The loop's decisions live here as a state machine, [`StreamReassembler`]:
//! the caller performs one raw read, reports what happened as a
//! [`ReadEvent`], and is told by the resulting [`ReadStep`] whether to keep
//! reading, to return a complete message, or to fail. The I/O itself (an
//! async read racing a deadline) stays with the caller.
//!
//! A known constraint of this framing: a message whose final chunk exactly
//! fills the intermediate buffer, on a stream that stays open, is
//! indistinguishable from more data coming, so the reader stalls awaiting
//! another read. Writers must ensure their final write is not a multiple of
//! the buffer size.

use vstd::prelude::*;

use crate::errors::TransportError;

verus! {

/// Size in bytes of the intermediate read buffer that frames messages.
pub const READ_CHUNK_SIZE: usize = 1024;

/// What one raw read of the stream produced.
pub enum ReadEvent {
    /// The read returned these bytes: at least one, at most
    /// [`READ_CHUNK_SIZE`].
    Data(Vec<u8>),
    /// The read returned zero bytes: the stream closed.
    Closed,
    /// The configured timeout elapsed before the read finished.
    TimedOut,
    /// The read itself failed.
    Failed(TransportError),
}

/// What the caller must do next after reporting a read.
pub enum ReadStep {
    /// The message may have more data coming: read again.
    Continue,
    /// One complete logical message.
    Complete(Vec<u8>),
    /// The receive operation failed; any partial bytes were discarded.
    Failed(TransportError),
}

/// One read step of the reassembly at the level of the model: given the bytes
/// accumulated so far and the bytes one read returned, whether the message is
/// complete, and the accumulation (the message, once complete).
pub open spec fn step_read_spec(acc: Seq<u8>, chunk: Seq<u8>) -> (bool, Seq<u8>) {
    (chunk.len() < READ_CHUNK_SIZE, acc + chunk)
}

/// The concatenation of a sequence of read chunks.
pub open spec fn concat_chunks(chunks: Seq<Seq<u8>>) -> Seq<u8>
    decreases chunks.len(),
{
    if chunks.len() == 0 {
        Seq::empty()
    } else {
        chunks.first() + concat_chunks(chunks.drop_first())
    }
}

/// The reassembly loop at the level of the model: feed the chunks in order,
/// stopping at the first one that completes a message. Yields whether a
/// message was completed, and the bytes gathered up to that point.
pub open spec fn drive_spec(acc: Seq<u8>, chunks: Seq<Seq<u8>>) -> (bool, Seq<u8>)
    decreases chunks.len(),
{
    if chunks.len() == 0 {
        (false, acc)
    } else {
        let step = step_read_spec(acc, chunks.first());
        if step.0 {
            step
        } else {
            drive_spec(step.1, chunks.drop_first())
        }
    }
}

/// The state of one in-progress `receive`: the bytes accumulated so far and
/// the timeout the reads race against, in milliseconds (`None`: wait
/// indefinitely).
pub struct StreamReassembler {
    accumulated: Vec<u8>,
    timeout_ms: Option<u64>,
}

impl StreamReassembler {
    /// The bytes accumulated so far in this call.
    pub closed spec fn acc(&self) -> Seq<u8> {
        self.accumulated@
    }

    /// The configured per-read timeout, in milliseconds.
    pub closed spec fn timeout(&self) -> Option<u64> {
        self.timeout_ms
    }

    /// Start reassembling one message, with nothing accumulated yet.
    pub fn new(timeout_ms: Option<u64>) -> (r: Self)
        ensures
            r.acc() == Seq::<u8>::empty(),
            r.timeout() == timeout_ms,
    {
        StreamReassembler { accumulated: Vec::new(), timeout_ms }
    }

    /// Advance the reassembly by one read.
    ///
    /// A full chunk is accumulated and the caller reads on; a short chunk
    /// completes the message, as does a closed stream (closure, not size,
    /// also terminates a message — and a stream that closes before any data
    /// yields a normal empty message, not an error). A timeout fails the call
    /// with [`TransportError::ReceiveTimeout`] carrying the configured wait,
    /// and a failed read propagates its error; either way the bytes
    /// accumulated so far are discarded, not returned and not kept for a
    /// subsequent call.
    pub fn on_read(&mut self, event: ReadEvent) -> (r: ReadStep)
        requires
            event matches ReadEvent::Data(chunk) ==> 1 <= chunk@.len() <= READ_CHUNK_SIZE,
            event is TimedOut ==> old(self).timeout() is Some,
        ensures
            final(self).timeout() == old(self).timeout(),
            match event {
                ReadEvent::Data(chunk) => {
                    let step = step_read_spec(old(self).acc(), chunk@);
                    if step.0 {
                        &&& r matches ReadStep::Complete(m) && m@ == step.1
                        &&& final(self).acc() == Seq::<u8>::empty()
                    } else {
                        &&& r is Continue
                        &&& final(self).acc() == step.1
                    }
                },
                ReadEvent::Closed => {
                    &&& r matches ReadStep::Complete(m) && m@ == old(self).acc()
                    &&& final(self).acc() == Seq::<u8>::empty()
                },
                ReadEvent::TimedOut => {
                    &&& r matches ReadStep::Failed(e) && e == TransportError::ReceiveTimeout(
                        old(self).timeout()->Some_0,
                    )
                    &&& final(self).acc() == Seq::<u8>::empty()
                },
                ReadEvent::Failed(err) => {
                    &&& r matches ReadStep::Failed(e) && e == err
                    &&& final(self).acc() == Seq::<u8>::empty()
                },
            },
    {
        match event {
            ReadEvent::Data(chunk) => {
                let complete = chunk.len() < READ_CHUNK_SIZE;
                let mut message = Vec::new();
                core::mem::swap(&mut message, &mut self.accumulated);
                let mut tail = chunk;
                message.append(&mut tail);
                if complete {
                    ReadStep::Complete(message)
                } else {
                    self.accumulated = message;
                    ReadStep::Continue
                }
            },
            ReadEvent::Closed => {
                let mut message = Vec::new();
                core::mem::swap(&mut message, &mut self.accumulated);
                ReadStep::Complete(message)
            },
            ReadEvent::TimedOut => {
                self.accumulated = Vec::new();
                ReadStep::Failed(TransportError::ReceiveTimeout(self.timeout_ms.unwrap()))
            },
            ReadEvent::Failed(err) => {
                self.accumulated = Vec::new();
                ReadStep::Failed(err)
            },
        }
    }
}

/// Reassembly law, short final read: a message delivered as full chunks
/// followed by one strictly short chunk is returned whole, in one call, as
/// the concatenation of its chunks.
pub proof fn lemma_reassembly_short_read(acc: Seq<u8>, chunks: Seq<Seq<u8>>)
    requires
        chunks.len() > 0,
        forall|i: int| 0 <= i < chunks.len() - 1 ==> (#[trigger] chunks[i]).len() == READ_CHUNK_SIZE,
        chunks.last().len() < READ_CHUNK_SIZE,
    ensures
        drive_spec(acc, chunks) == (true, acc + concat_chunks(chunks)),
    decreases chunks.len(),
{
    if chunks.len() == 1 {
        assert(acc + chunks.first() + Seq::<u8>::empty() =~= acc + chunks.first());
        assert(concat_chunks(chunks.drop_first()) == Seq::<u8>::empty());
        assert(acc + concat_chunks(chunks) =~= acc + chunks.first());
    } else {
        let rest = chunks.drop_first();
        assert(chunks.first().len() == READ_CHUNK_SIZE);
        assert(rest.last() == chunks.last());
        assert(forall|i: int|
            0 <= i < rest.len() - 1 ==> (#[trigger] rest[i]).len() == READ_CHUNK_SIZE) by {
            assert(forall|i: int| 0 <= i < rest.len() - 1 ==> rest[i] == chunks[i + 1]);
        }
        lemma_reassembly_short_read(acc + chunks.first(), rest);
        assert(acc + chunks.first() + concat_chunks(rest) =~= acc + concat_chunks(chunks));
    }
}

/// Reassembly law, closure: a message delivered as full chunks only (its
/// total length an exact multiple of the buffer size) is still pending after
/// the last chunk, holding the full concatenation; the stream closing then
/// completes it, so closure, not only size, terminates a message.
pub proof fn lemma_reassembly_closed(acc: Seq<u8>, chunks: Seq<Seq<u8>>)
    requires
        forall|i: int| 0 <= i < chunks.len() ==> (#[trigger] chunks[i]).len() == READ_CHUNK_SIZE,
    ensures
        drive_spec(acc, chunks) == (false, acc + concat_chunks(chunks)),
    decreases chunks.len(),
{
    if chunks.len() == 0 {
        assert(acc + concat_chunks(chunks) =~= acc);
    } else {
        let rest = chunks.drop_first();
        lemma_reassembly_closed(acc + chunks.first(), rest);
        assert(acc + chunks.first() + concat_chunks(rest) =~= acc + concat_chunks(chunks));
    }
}

} // verus!
