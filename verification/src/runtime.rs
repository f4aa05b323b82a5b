//! What a transport must be able to do to carry a TLS stream: read, write,
//! flush and shut down without blocking the calling thread.

use crate::io::IoError;
use std::task::Context;
use vstd::prelude::*;

verus! {

/// The task context of the host's scheduler. An operation that cannot finish
/// keeps the waker of the context it was given and wakes it when trying again
/// is worthwhile. Nothing in this crate looks inside.
#[verifier::external_type_specification]
#[verifier::external_body]
pub struct ExContext<'a>(Context<'a>);

/// The outcome of one attempt at an operation that does not block.
#[derive(Debug, PartialEq, Eq)]
pub enum Poll<T> {
    /// The operation finished, with this result.
    Ready(T),
    /// The operation would have blocked; the caller is woken to try again.
    Pending,
}

impl<T> Poll<T> {
    /// Whether the operation finished.
    pub fn is_ready(&self) -> (ready: bool)
        ensures
            ready == (self is Ready),
    {
        match self {
            Poll::Ready(_) => true,
            Poll::Pending => false,
        }
    }

    /// Whether the operation would have blocked.
    pub fn is_pending(&self) -> (pending: bool)
        ensures
            pending == (self is Pending),
    {
        !self.is_ready()
    }
}

/// One operation that an object was asked to attempt, with the answer that it
/// gave.
pub enum Attempt {
    /// A read into a buffer of `room` bytes.
    Read { room: nat, outcome: Poll<Result<usize, IoError>> },
    /// A write of `bytes`.
    Write { bytes: Seq<u8>, outcome: Poll<Result<usize, IoError>> },
    /// A flush.
    Flush { done: Poll<Result<(), IoError>> },
    /// A shutdown.
    Shutdown { done: Poll<Result<(), IoError>> },
}

/// Bytes, as contracts see them.
pub type Bytes = Seq<u8>;

/// Attempts in the order in which they were made, as contracts see them.
pub type Attempts = Seq<Attempt>;

/// The record of what has passed through an object that is read or written:
/// what the contracts of [`AsyncRead`] and [`AsyncWrite`] speak of.
///
/// The three views are ghost: an implementation that is compiled without the
/// verifier gives each a body that is never run.
pub trait IoHistory {
    /// Every byte that reads of this object have handed out, oldest first.
    spec fn received(&self) -> Bytes;

    /// Every byte that writes to this object have accepted, oldest first.
    spec fn sent(&self) -> Bytes;

    /// Every read, write, flush and shutdown that this object was asked to
    /// attempt, oldest first, each with the answer it gave.
    spec fn attempts(&self) -> Attempts;
}

/// A source of bytes that is read without blocking. An implementation that is
/// compiled without the verifier is trusted to report no more bytes than the
/// buffer holds.
pub trait AsyncRead: IoHistory {
    /// Tries to read into `buf`. `Ready(Ok(n))` says that the first `n` bytes
    /// of `buf` now hold what was read; `n` is 0 at the end of the stream or
    /// for an empty `buf`. Any other outcome hands out no byte. The attempt
    /// is the newest of this object's attempts, the outcome is its answer, and
    /// nothing is written.
    fn poll_read(&mut self, cx: &mut Context<'_>, buf: &mut [u8]) -> (outcome: Poll<
        Result<usize, IoError>,
    >)
        ensures
            final(buf)@.len() == old(buf)@.len(),
            final(self).attempts() == old(self).attempts().push(
                Attempt::Read { room: old(buf)@.len(), outcome },
            ),
            final(self).sent() == old(self).sent(),
            match outcome {
                Poll::Ready(Ok(n)) => n <= old(buf)@.len() && final(self).received() == old(
                    self,
                ).received() + final(buf)@.take(n as int),
                _ => final(self).received() == old(self).received(),
            },
    ;
}

/// A sink of bytes that is written without blocking. An implementation that
/// is compiled without the verifier is trusted to report no more bytes than
/// it was given.
pub trait AsyncWrite: IoHistory {
    /// Tries to write `buf`. `Ready(Ok(n))` says that the first `n` bytes of
    /// `buf` were accepted. Any other outcome accepts no byte. The attempt is
    /// the newest of this object's attempts, the outcome is its answer, and
    /// nothing is read.
    fn poll_write(&mut self, cx: &mut Context<'_>, buf: &[u8]) -> (outcome: Poll<
        Result<usize, IoError>,
    >)
        ensures
            final(self).attempts() == old(self).attempts().push(
                Attempt::Write { bytes: buf@, outcome },
            ),
            final(self).received() == old(self).received(),
            match outcome {
                Poll::Ready(Ok(n)) => n <= buf@.len() && final(self).sent() == old(self).sent()
                    + buf@.take(n as int),
                _ => final(self).sent() == old(self).sent(),
            },
    ;

    /// Tries to push the bytes accepted so far on to their destination. The
    /// attempt is the newest of this object's attempts, the outcome is its
    /// answer, and nothing is read or accepted.
    fn poll_flush(&mut self, cx: &mut Context<'_>) -> (outcome: Poll<Result<(), IoError>>)
        ensures
            final(self).attempts() == old(self).attempts().push(Attempt::Flush { done: outcome }),
            final(self).sent() == old(self).sent(),
            final(self).received() == old(self).received(),
    ;

    /// Tries to signal the end of the stream and to release what the
    /// transport holds. Hosts that call this operation "close" mean the same.
    /// The attempt is the newest of this object's attempts, the outcome is its
    /// answer, and nothing is read or accepted.
    fn poll_shutdown(&mut self, cx: &mut Context<'_>) -> (outcome: Poll<Result<(), IoError>>)
        ensures
            final(self).attempts() == old(self).attempts().push(
                Attempt::Shutdown { done: outcome },
            ),
            final(self).sent() == old(self).sent(),
            final(self).received() == old(self).received(),
    ;
}

} // verus!
