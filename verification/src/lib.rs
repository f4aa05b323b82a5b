//! An implementation-neutral TLS interface. Applications configure a builder,
//! build a connector or an acceptor, and get a [`TlsStream`] from a handshake;
//! TLS implementations provide the traits. Nothing here encrypts anything.

pub mod acceptor;
pub mod certificate;
pub mod connector;
pub mod error;
pub mod handshake;
pub mod io;
pub mod runtime;
pub mod stream;

pub use crate::acceptor::{TlsAcceptor, TlsAcceptorBuilder};
pub use crate::certificate::{Certificate, CertificateFormat};
pub use crate::connector::{ConnectorConfig, TlsConnector, TlsConnectorBuilder};
pub use crate::error::{BoxedCause, Cause, Error};
pub use crate::handshake::{Handshake, HandshakeImpl};
pub use crate::io::{IoError, IoErrorKind};
pub use crate::stream::{TlsStream, TlsStreamImpl};
