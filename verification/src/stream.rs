//! The TLS stream that callers hold, whichever implementation made it.

use crate::io::IoError;
use crate::error::Text;
use crate::runtime::{AsyncRead, AsyncWrite, Attempts, Bytes, IoHistory, Poll};
use std::task::Context;
use vstd::prelude::*;

verus! {

/// What a TLS implementation offers for one established connection over a
/// transport `S`: the bytes of the connection, the protocol that the two sides
/// agreed on, and the transport beneath.
///
/// The three views say what the methods return. They are ghost: an
/// implementation that is compiled without the verifier gives each a body
/// that is never run, and is trusted to answer from its state alone.
pub trait TlsStreamImpl<S>: AsyncRead + AsyncWrite + Send + Sync + 'static {
    /// The protocol that [`TlsStreamImpl::get_alpn_protocol`] returns.
    spec fn alpn_view(&self) -> Option<Bytes>;

    /// The transport that [`TlsStreamImpl::get_ref`] returns.
    spec fn transport_view(&self) -> S;

    /// The text that [`TlsStreamImpl::debug_text`] returns.
    spec fn debug_view(&self) -> Text;

    /// The protocol negotiated through ALPN, or `None` if none was.
    fn get_alpn_protocol(&self) -> (protocol: Option<Vec<u8>>)
        ensures
            protocol.deep_view() == self.alpn_view(),
    ;

    /// The transport beneath the TLS layer, to change in place. What the
    /// caller leaves there is the transport afterwards; the TLS layer above
    /// it stays as it is.
    fn get_mut(&mut self) -> (transport: &mut S)
        ensures
            *transport == old(self).transport_view(),
            final(self).transport_view() == *final(transport),
            final(self).alpn_view() == old(self).alpn_view(),
            final(self).received() == old(self).received(),
            final(self).sent() == old(self).sent(),
            final(self).attempts() == old(self).attempts(),
    ;

    /// The transport beneath the TLS layer.
    fn get_ref(&self) -> (transport: &S)
        ensures
            *transport == self.transport_view(),
    ;

    /// A description of the connection for developers.
    fn debug_text(&self) -> (text: String)
        ensures
            text@ == self.debug_view(),
    ;
}

/// A TLS stream over a transport `S`. It owns one implementation, whose type
/// it hides, and hands every operation to it as it is.
#[verifier::reject_recursive_types(S)]
pub struct TlsStream<S: 'static>(Box<dyn TlsStreamImpl<S> + 'static>);

/// `Box::new` followed by the unsizing of `Box<I>` to
/// `Box<dyn TlsStreamImpl<S>>`. A method called on the trait object runs the
/// method of `I` on the value boxed, so the stream made of the object is in
/// the state that `imp` was in.
#[verifier::external_body]
fn erase_stream<S: 'static, I: TlsStreamImpl<S> + 'static>(imp: I) -> (stream: TlsStream<S>)
    ensures
        stream.alpn_view() == imp.alpn_view(),
        stream.transport_view() == imp.transport_view(),
        stream.debug_view() == imp.debug_view(),
        stream.received() == imp.received(),
        stream.sent() == imp.sent(),
        stream.attempts() == imp.attempts(),
{
    TlsStream(Box::new(imp))
}

impl<S: 'static> TlsStream<S> {
    /// The protocol that the implementation negotiated.
    pub closed spec fn alpn_view(&self) -> Option<Bytes> {
        self.0.alpn_view()
    }

    /// The transport that the implementation holds.
    pub closed spec fn transport_view(&self) -> S {
        self.0.transport_view()
    }

    /// The description that the implementation gives of itself.
    pub closed spec fn debug_view(&self) -> Text {
        self.0.debug_view()
    }

    /// Wraps `imp`: the stream starts in the state that `imp` is in.
    pub fn new<I: TlsStreamImpl<S> + 'static>(imp: I) -> (stream: TlsStream<S>)
        ensures
            stream.alpn_view() == imp.alpn_view(),
            stream.transport_view() == imp.transport_view(),
            stream.debug_view() == imp.debug_view(),
            stream.received() == imp.received(),
            stream.sent() == imp.sent(),
            stream.attempts() == imp.attempts(),
    {
        erase_stream(imp)
    }

    /// The transport beneath the TLS layer, to change in place. What the
    /// caller leaves there is the transport of the stream afterwards; the TLS
    /// layer above it stays as it is.
    pub fn get_mut(&mut self) -> (transport: &mut S)
        ensures
            *transport == old(self).transport_view(),
            final(self).transport_view() == *final(transport),
            final(self).alpn_view() == old(self).alpn_view(),
            final(self).received() == old(self).received(),
            final(self).sent() == old(self).sent(),
            final(self).attempts() == old(self).attempts(),
    {
        self.0.get_mut()
    }

    /// The transport beneath the TLS layer.
    pub fn get_ref(&self) -> (transport: &S)
        ensures
            *transport == self.transport_view(),
    {
        self.0.get_ref()
    }

    /// The protocol negotiated through ALPN, or `None` if none was.
    pub fn get_alpn_protocol(&self) -> (protocol: Option<Vec<u8>>)
        ensures
            protocol.deep_view() == self.alpn_view(),
    {
        self.0.get_alpn_protocol()
    }

    /// The implementation's description of the connection.
    pub fn debug_text(&self) -> (text: String)
        ensures
            text@ == self.debug_view(),
    {
        self.0.debug_text()
    }
}

/// What has passed through the stream is what has passed through the
/// implementation.
impl<S: 'static> IoHistory for TlsStream<S> {
    closed spec fn received(&self) -> Bytes {
        self.0.received()
    }

    closed spec fn sent(&self) -> Bytes {
        self.0.sent()
    }

    closed spec fn attempts(&self) -> Attempts {
        self.0.attempts()
    }
}

/// Reading from the stream is reading from the implementation: an attempt on
/// the stream is one attempt of the implementation, with the buffer given, and
/// its answer is what the stream answers. Nothing else is asked of the
/// implementation.
impl<S: 'static> AsyncRead for TlsStream<S> {

    fn poll_read(&mut self, cx: &mut Context<'_>, buf: &mut [u8]) -> (outcome: Poll<
        Result<usize, IoError>,
    >) {
        self.0.poll_read(cx, buf)
    }
}

/// Writing to the stream is writing to the implementation: an attempt on the
/// stream is one attempt of the implementation, with the bytes given, and its
/// answer is what the stream answers. Nothing else is asked of the
/// implementation.
impl<S: 'static> AsyncWrite for TlsStream<S> {

    fn poll_write(&mut self, cx: &mut Context<'_>, buf: &[u8]) -> (outcome: Poll<
        Result<usize, IoError>,
    >) {
        self.0.poll_write(cx, buf)
    }

    fn poll_flush(&mut self, cx: &mut Context<'_>) -> (outcome: Poll<Result<(), IoError>>) {
        self.0.poll_flush(cx)
    }

    fn poll_shutdown(&mut self, cx: &mut Context<'_>) -> (outcome: Poll<Result<(), IoError>>) {
        self.0.poll_shutdown(cx)
    }
}

} // verus!
