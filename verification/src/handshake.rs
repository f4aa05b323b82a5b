//! A handshake in progress: what `connect` and `accept` hand back.

use crate::error::Error;
use crate::runtime::Poll;
use crate::stream::TlsStream;
use std::task::Context;
use vstd::prelude::*;

verus! {

/// The answers of a handshake in the order in which it gave them, as
/// contracts see them.
pub type Answers<S> = Seq<Poll<Result<TlsStream<S>, Error>>>;

/// What a TLS implementation offers for one handshake over a transport `S`:
/// it is driven step by step, and a step never blocks the calling thread.
///
/// `answers` is the history that the contract of `poll` speaks of. It is
/// ghost: an implementation that is compiled without the verifier gives it a
/// body that is never run.
pub trait HandshakeImpl<S: 'static>: Send {
    /// Every answer that this handshake has given to a step, oldest first.
    spec fn answers(&self) -> Answers<S>;

    /// Tries to take the handshake further. `Ready` carries the stream that
    /// was established, or the error that ended the attempt. The outcome is
    /// the newest of this handshake's answers.
    fn poll(&mut self, cx: &mut Context<'_>) -> (outcome: Poll<Result<TlsStream<S>, Error>>)
        ensures
            final(self).answers() == old(self).answers().push(outcome),
    ;
}

/// An implementation of a handshake whose concrete type has been erased.
#[verifier::reject_recursive_types(S)]
struct Steps<'a, S: 'static>(Box<dyn HandshakeImpl<S> + 'a>);

impl<'a, S: 'static> Steps<'a, S> {
    closed spec fn answers(&self) -> Answers<S> {
        self.0.answers()
    }
}

/// `Box::new` followed by the unsizing of `Box<I>` to
/// `Box<dyn HandshakeImpl<S>>`. A method called on the trait object runs the
/// method of `I` on the value boxed, so the object has given the answers that
/// `imp` had given.
#[verifier::external_body]
fn erase_handshake<'a, S: 'static, I: HandshakeImpl<S> + 'a>(imp: I) -> (steps: Steps<'a, S>)
    ensures
        steps.answers() == imp.answers(),
{
    Steps(Box::new(imp))
}

/// A handshake over a transport `S`, whichever implementation runs it. It
/// owns the transport until it hands out the stream; a transport whose
/// handshake failed, or was dropped before its end, does not come back.
#[verifier::reject_recursive_types(S)]
pub struct Handshake<'a, S: 'static> {
    steps: Steps<'a, S>,
    done: bool,
}

impl<'a, S: 'static> Handshake<'a, S> {
    /// Whether the handshake has handed out its result.
    pub closed spec fn finished(&self) -> bool {
        self.done
    }

    /// Every answer that the implementation has given to a step, oldest
    /// first.
    pub closed spec fn answers(&self) -> Answers<S> {
        self.steps.answers()
    }

    /// A handshake that `imp` will run. It has handed out no result yet, and
    /// has given the answers that `imp` has given: none, where `imp` is new.
    pub fn new<I: HandshakeImpl<S> + 'a>(imp: I) -> (handshake: Handshake<'a, S>)
        ensures
            !handshake.finished(),
            handshake.answers() == imp.answers(),
    {
        Handshake { steps: erase_handshake(imp), done: false }
    }

    /// Whether the handshake has handed out its result.
    pub fn is_finished(&self) -> (done: bool)
        ensures
            done == self.finished(),
    {
        self.done
    }

    /// Takes the handshake one step further: the implementation is asked for
    /// one step, and its answer is the outcome. The handshake hands out its
    /// result once: after `Ready` it is finished and is not to be polled
    /// again.
    pub fn poll(&mut self, cx: &mut Context<'_>) -> (outcome: Poll<Result<TlsStream<S>, Error>>)
        requires
            !old(self).finished(),
        ensures
            final(self).finished() == (outcome is Ready),
            final(self).answers() == old(self).answers().push(outcome),
    {
        let outcome = self.steps.0.poll(cx);
        self.done = outcome.is_ready();
        outcome
    }
}

} // verus!
