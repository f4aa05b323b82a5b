//! The server side: a builder that gathers the configuration, and the
//! acceptor that it is frozen into.

use crate::error::Error;
use crate::handshake::Handshake;
use crate::runtime::{AsyncRead, AsyncWrite};
use vstd::prelude::*;

verus! {

/// The protocols offered through ALPN, most preferred first, as contracts see
/// them.
pub type Protocols = Seq<Seq<u8>>;

/// A builder for [`TlsAcceptor`]s. The server's certificate and key are the
/// implementation's business and are set on its own builder; this interface
/// configures the protocols offered through ALPN and nothing else.
///
/// `alpn_protocols` is the state that the contracts speak of. It is ghost, as
/// `alpn_supported` and `built_alpn_protocols` are: an implementation that is
/// compiled without the verifier gives each a body that is never run, and is
/// trusted to keep what the setter accepted.
pub trait TlsAcceptorBuilder: Sized + Sync + Send + 'static {
    /// The acceptor that this builder builds.
    type Acceptor;

    /// The implementation's own builder.
    type Underlying;

    /// Whether the implementation can negotiate a protocol through ALPN. It
    /// is a property of the implementation, not of a builder.
    spec fn alpn_supported() -> bool;

    /// The protocols configured so far, most preferred first.
    spec fn alpn_protocols(&self) -> Protocols;

    /// The protocols that an acceptor of this builder was built with.
    spec fn built_alpn_protocols(acceptor: &Self::Acceptor) -> Protocols;

    /// Whether the implementation can negotiate a protocol through ALPN.
    fn supports_alpn() -> (supported: bool)
        ensures
            supported == Self::alpn_supported(),
    ;

    /// Offers `protocols` through ALPN, most preferred first.
    fn set_alpn_protocols(&mut self, protocols: &[&[u8]]) -> (outcome: Result<(), Error>)
        ensures
            outcome is Ok ==> final(self).alpn_protocols() == protocols.deep_view(),
    ;

    /// The implementation's own builder, for what this interface leaves out.
    fn underlying_mut(&mut self) -> (underlying: &mut Self::Underlying);

    /// Freezes the configuration into an acceptor.
    fn build(self) -> (outcome: Result<Self::Acceptor, Error>)
        ensures
            outcome matches Ok(acceptor) ==> Self::built_alpn_protocols(&acceptor)
                == self.alpn_protocols(),
    ;
}

/// A server-side TLS configuration, ready to take connections. It cannot be
/// changed, and any number of handshakes may run on one acceptor at a time.
pub trait TlsAcceptor: Sized + Sync + Send + 'static {
    /// The builder of this acceptor.
    type Builder: TlsAcceptorBuilder<Acceptor = Self>;

    /// Whether the implementation can negotiate a protocol through ALPN: what
    /// the builder answers.
    fn supports_alpn() -> (supported: bool)
        ensures
            supported == <Self::Builder as TlsAcceptorBuilder>::alpn_supported(),
    {
        <Self::Builder as TlsAcceptorBuilder>::supports_alpn()
    }

    /// Starts the server side of a handshake over `stream`, a connection that
    /// the caller has accepted. Nothing is exchanged before the handshake is
    /// polled.
    fn accept<'a, S>(&'a self, stream: S) -> (handshake: Handshake<'a, S>) where
        S: AsyncRead + AsyncWrite + core::fmt::Debug + Send + Sync + 'static,

        ensures
            !handshake.finished(),
    ;
}

/// Whether ALPN is supported does not change when a builder is built: the
/// builder and the acceptor give one answer, however often and in whatever
/// order they are asked.
pub proof fn lemma_acceptor_alpn_support_is_stable<A: TlsAcceptor>(
    builder_first: bool,
    builder_second: bool,
    acceptor_first: bool,
    acceptor_second: bool,
)
    requires
        call_ensures(<A::Builder as TlsAcceptorBuilder>::supports_alpn, (), builder_first),
        call_ensures(<A::Builder as TlsAcceptorBuilder>::supports_alpn, (), builder_second),
        call_ensures(A::supports_alpn, (), acceptor_first),
        call_ensures(A::supports_alpn, (), acceptor_second),
    ensures
        builder_first == builder_second,
        acceptor_first == acceptor_second,
        builder_first == acceptor_first,
{
}

} // verus!
