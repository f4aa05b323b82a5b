//! The client side: a builder that gathers the configuration, and the
//! connector that it is frozen into.

use crate::certificate::{Certificate, CertificateFormat};
use crate::error::Error;
use crate::handshake::Handshake;
use crate::runtime::{AsyncRead, AsyncWrite};
use vstd::prelude::*;

verus! {

/// What a client is configured with.
pub struct ConnectorConfig {
    /// The protocols offered through ALPN, most preferred first.
    pub alpn_protocols: Seq<Seq<u8>>,
    /// Whether the peer's certificate must match the domain connected to.
    pub verify_hostname: bool,
    /// The certificates trusted as roots besides the implementation's own, in
    /// the order in which they were added.
    pub root_certificates: Seq<(Seq<u8>, CertificateFormat)>,
}

/// A builder for [`TlsConnector`]s. It is changed by its setters, each of
/// which the implementation may refuse, and used up by `build`.
///
/// `config` is the state that the contracts of the setters speak of. It is
/// ghost, as `alpn_supported` and `built_config` are: an implementation that
/// is compiled without the verifier gives each a body that is never run, and
/// is trusted to keep what a setter accepted.
pub trait TlsConnectorBuilder: Sized + Sync + Send + 'static {
    /// The connector that this builder builds.
    type Connector;

    /// The implementation's own builder.
    type Underlying;

    /// Whether the implementation can negotiate a protocol through ALPN. It
    /// is a property of the implementation, not of a builder.
    spec fn alpn_supported() -> bool;

    /// What has been configured so far.
    spec fn config(&self) -> ConnectorConfig;

    /// What a connector of this builder was built with.
    spec fn built_config(connector: &Self::Connector) -> ConnectorConfig;

    /// The implementation's own builder, for what this interface leaves out.
    fn underlying_mut(&mut self) -> (underlying: &mut Self::Underlying);

    /// Whether the implementation can negotiate a protocol through ALPN.
    fn supports_alpn() -> (supported: bool)
        ensures
            supported == Self::alpn_supported(),
    ;

    /// Offers `protocols` through ALPN, most preferred first.
    fn set_alpn_protocols(&mut self, protocols: &[&[u8]]) -> (outcome: Result<(), Error>)
        ensures
            outcome is Ok ==> final(self).config() == (ConnectorConfig {
                alpn_protocols: protocols.deep_view(),
                ..old(self).config()
            }),
    ;

    /// Says whether the peer's certificate must match the domain.
    fn set_verify_hostname(&mut self, verify: bool) -> (outcome: Result<(), Error>)
        ensures
            outcome is Ok ==> final(self).config() == (ConnectorConfig {
                verify_hostname: verify,
                ..old(self).config()
            }),
    ;

    /// Trusts `cert` as a root, and hands the builder back for the next call.
    fn add_root_certificate(&mut self, cert: Certificate) -> (outcome: Result<&mut Self, Error>)
        ensures
            outcome matches Ok(builder) ==> builder.config() == (ConnectorConfig {
                root_certificates: old(self).config().root_certificates.push(
                    (cert.bytes@, cert.format),
                ),
                ..old(self).config()
            }) && *final(self) == *final(builder),
    ;

    /// Freezes the configuration into a connector.
    fn build(self) -> (outcome: Result<Self::Connector, Error>)
        ensures
            outcome matches Ok(connector) ==> Self::built_config(&connector) == self.config(),
    ;
}

/// A client-side TLS configuration, ready to open connections. It cannot be
/// changed, and any number of handshakes may run on one connector at a time.
pub trait TlsConnector: Sized + Sync + Send + 'static {
    /// The builder of this connector.
    type Builder: TlsConnectorBuilder<Connector = Self>;

    /// Whether the implementation can negotiate a protocol through ALPN: what
    /// the builder answers.
    fn supports_alpn() -> (supported: bool)
        ensures
            supported == <Self::Builder as TlsConnectorBuilder>::alpn_supported(),
    {
        <Self::Builder as TlsConnectorBuilder>::supports_alpn()
    }

    /// A builder with the implementation's defaults.
    fn builder() -> (outcome: Result<Self::Builder, Error>);

    /// Starts the client side of a handshake with `domain` over `stream`.
    /// Nothing is exchanged before the handshake is polled.
    fn connect<'a, S>(&'a self, domain: &'a str, stream: S) -> (handshake: Handshake<'a, S>) where
        S: AsyncRead + AsyncWrite + core::fmt::Debug + Send + Sync + 'static,

        ensures
            !handshake.finished(),
    ;
}

/// Whether ALPN is supported does not change when a builder is built: the
/// builder and the connector give one answer, however often and in whatever
/// order they are asked.
pub proof fn lemma_connector_alpn_support_is_stable<C: TlsConnector>(
    builder_first: bool,
    builder_second: bool,
    connector_first: bool,
    connector_second: bool,
)
    requires
        call_ensures(<C::Builder as TlsConnectorBuilder>::supports_alpn, (), builder_first),
        call_ensures(<C::Builder as TlsConnectorBuilder>::supports_alpn, (), builder_second),
        call_ensures(C::supports_alpn, (), connector_first),
        call_ensures(C::supports_alpn, (), connector_second),
    ensures
        builder_first == builder_second,
        connector_first == connector_second,
        builder_first == connector_first,
{
}

} // verus!
