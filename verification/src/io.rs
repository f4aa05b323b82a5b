//! The host's I/O error, as far as this interface reads it: a kind and a cause.

use crate::error::{BoxedCause, Cause, Chain, Error, Text};
use vstd::prelude::*;
use vstd::std_specs::convert::FromSpecImpl;

verus! {

/// The categories of I/O failure that the host tells apart.
#[derive(Clone, Copy, Debug, PartialEq, Eq, Structural)]
pub enum IoErrorKind {
    NotFound,
    PermissionDenied,
    ConnectionRefused,
    ConnectionReset,
    ConnectionAborted,
    NotConnected,
    AddrInUse,
    AddrNotAvailable,
    BrokenPipe,
    AlreadyExists,
    WouldBlock,
    InvalidInput,
    InvalidData,
    TimedOut,
    WriteZero,
    Interrupted,
    UnexpectedEof,
    /// Any failure that has no category of its own.
    Other,
}

impl IoErrorKind {
    /// The name that [`IoErrorKind::name`] returns.
    pub open spec fn name_view(self) -> Seq<char> {
        match self {
            IoErrorKind::NotFound => "NotFound"@,
            IoErrorKind::PermissionDenied => "PermissionDenied"@,
            IoErrorKind::ConnectionRefused => "ConnectionRefused"@,
            IoErrorKind::ConnectionReset => "ConnectionReset"@,
            IoErrorKind::ConnectionAborted => "ConnectionAborted"@,
            IoErrorKind::NotConnected => "NotConnected"@,
            IoErrorKind::AddrInUse => "AddrInUse"@,
            IoErrorKind::AddrNotAvailable => "AddrNotAvailable"@,
            IoErrorKind::BrokenPipe => "BrokenPipe"@,
            IoErrorKind::AlreadyExists => "AlreadyExists"@,
            IoErrorKind::WouldBlock => "WouldBlock"@,
            IoErrorKind::InvalidInput => "InvalidInput"@,
            IoErrorKind::InvalidData => "InvalidData"@,
            IoErrorKind::TimedOut => "TimedOut"@,
            IoErrorKind::WriteZero => "WriteZero"@,
            IoErrorKind::Interrupted => "Interrupted"@,
            IoErrorKind::UnexpectedEof => "UnexpectedEof"@,
            IoErrorKind::Other => "Other"@,
        }
    }

    /// The name of the kind, as it is written in the source.
    pub fn name(self) -> (name: &'static str)
        ensures
            name@ == self.name_view(),
    {
        match self {
            IoErrorKind::NotFound => "NotFound",
            IoErrorKind::PermissionDenied => "PermissionDenied",
            IoErrorKind::ConnectionRefused => "ConnectionRefused",
            IoErrorKind::ConnectionReset => "ConnectionReset",
            IoErrorKind::ConnectionAborted => "ConnectionAborted",
            IoErrorKind::NotConnected => "NotConnected",
            IoErrorKind::AddrInUse => "AddrInUse",
            IoErrorKind::AddrNotAvailable => "AddrNotAvailable",
            IoErrorKind::BrokenPipe => "BrokenPipe",
            IoErrorKind::AlreadyExists => "AlreadyExists",
            IoErrorKind::WouldBlock => "WouldBlock",
            IoErrorKind::InvalidInput => "InvalidInput",
            IoErrorKind::InvalidData => "InvalidData",
            IoErrorKind::TimedOut => "TimedOut",
            IoErrorKind::WriteZero => "WriteZero",
            IoErrorKind::Interrupted => "Interrupted",
            IoErrorKind::UnexpectedEof => "UnexpectedEof",
            IoErrorKind::Other => "Other",
        }
    }
}

/// What a developer sees of an I/O error of kind `kind` whose cause shows as
/// `cause`: both, named, between braces.
pub open spec fn io_debug_view(kind: IoErrorKind, cause: Seq<char>) -> Seq<char> {
    "Custom { kind: "@ + kind.name_view() + ", error: "@ + cause + " }"@
}

/// `String::push_str`: `more` is appended to `text`.
#[verifier::external_body]
fn push_str(text: &mut String, more: &str)
    ensures
        final(text)@ == old(text)@ + more@,
{
    text.push_str(more)
}

/// An I/O error: a kind, and the cause that is reported under it.
pub struct IoError {
    kind: IoErrorKind,
    cause: BoxedCause,
}

impl IoError {
    /// The kind that [`IoError::kind`] returns.
    pub closed spec fn kind_view(&self) -> IoErrorKind {
        self.kind
    }

    /// The cause that this error carries.
    pub closed spec fn cause(&self) -> BoxedCause {
        self.cause
    }

    /// An error of the given kind that reports what `cause` reports.
    pub fn new<E: Cause>(kind: IoErrorKind, cause: E) -> (err: IoError)
        ensures
            err.kind_view() == kind,
            err.io_kind_view() == Some(kind),
            err.message_view() == cause.message_view(),
            err.debug_view() == io_debug_view(kind, cause.debug_view()),
            err.chain_view() == cause.chain_view(),
    {
        IoError { kind, cause: BoxedCause::new(cause) }
    }

    /// The category of this failure.
    pub fn kind(&self) -> (kind: IoErrorKind)
        ensures
            kind == self.kind_view(),
    {
        self.kind
    }

    /// The boxed cause, without the kind.
    pub fn into_inner(self) -> (cause: BoxedCause)
        ensures
            cause == self.cause(),
    {
        self.cause
    }
}

/// An I/O error reports what its cause reports, under its own kind. A
/// developer sees the kind beside the cause.
impl Cause for IoError {
    open spec fn message_view(&self) -> Text {
        self.cause().message_view()
    }

    open spec fn debug_view(&self) -> Text {
        io_debug_view(self.kind_view(), self.cause().debug_view())
    }

    open spec fn chain_view(&self) -> Chain {
        self.cause().chain_view()
    }

    open spec fn io_kind_view(&self) -> Option<IoErrorKind> {
        Some(self.kind_view())
    }

    fn message(&self) -> (text: String) {
        self.cause.message()
    }

    fn debug_text(&self) -> (text: String) {
        let cause = self.cause.debug_text();
        let mut text = "Custom { kind: ".to_owned();
        push_str(&mut text, self.kind.name());
        push_str(&mut text, ", error: ");
        push_str(&mut text, cause.as_str());
        push_str(&mut text, " }");
        text
    }

    fn sources(&self) -> (chain: Vec<String>) {
        self.cause.sources()
    }

    fn io_kind(&self) -> (kind: Option<IoErrorKind>) {
        Some(self.kind)
    }
}

/// An I/O error becomes the cause of the error it is turned into: nothing of
/// it is lost.
impl From<IoError> for Error {
    fn from(err: IoError) -> (wrapped: Error)
        ensures
            wrapped.message_view() == err.message_view(),
            wrapped.debug_view() == err.debug_view(),
            wrapped.chain_view() == err.chain_view(),
            wrapped.io_kind_view() == Some(err.kind_view()),
    {
        Error::new(err)
    }
}

/// The error made is a new box each time, so no function of the I/O error
/// gives it: `from` states in its own contract what it keeps.
impl FromSpecImpl<IoError> for Error {
    open spec fn obeys_from_spec() -> bool {
        false
    }

    open spec fn from_spec(err: IoError) -> Error {
        arbitrary()
    }
}

/// An error turned into an I/O error is of kind `Other`, whatever it was made
/// from, and becomes the cause of the I/O error.
impl From<Error> for IoError {
    fn from(err: Error) -> (wrapped: IoError)
        ensures
            wrapped.kind_view() == IoErrorKind::Other,
            wrapped.io_kind_view() == Some(IoErrorKind::Other),
            wrapped.message_view() == err.message_view(),
            wrapped.debug_view() == io_debug_view(IoErrorKind::Other, err.debug_view()),
            wrapped.chain_view() == err.chain_view(),
    {
        IoError::new(IoErrorKind::Other, err)
    }
}

/// The I/O error made is a new box each time, so no function of the error
/// gives it: `from` states in its own contract what it keeps.
impl FromSpecImpl<Error> for IoError {
    open spec fn obeys_from_spec() -> bool {
        false
    }

    open spec fn from_spec(err: Error) -> IoError {
        arbitrary()
    }
}

/// Wrapping keeps the chain of causes: an error made of a cause has the
/// chain of that cause, and so has its nearest source; an error made of an
/// I/O error is an I/O failure of that kind; and an I/O error that goes into
/// an error and comes back is of kind `Other` with the message and the chain
/// that it had.
pub proof fn lemma_wrapping_keeps_the_cause_chain<E: Cause>(
    cause: E,
    made: Error,
    io: IoError,
    wrapped: Error,
    back: IoError,
)
    requires
        call_ensures(Error::new::<E>, (cause,), made),
        call_ensures(<Error as From<IoError>>::from, (io,), wrapped),
        call_ensures(<IoError as From<Error>>::from, (wrapped,), back),
    ensures
        made.chain_view() == cause.chain_view(),
        forall|nearest: Option<String>| #[trigger]
            call_ensures(Error::source, (&made,), nearest) ==> match nearest {
                Some(text) => cause.chain_view().len() > 0 && text@ == cause.chain_view()[0],
                None => cause.chain_view().len() == 0,
            },
        wrapped.chain_view() == io.chain_view(),
        wrapped.message_view() == io.message_view(),
        wrapped.io_kind_view() == Some(io.kind_view()),
        back.chain_view() == io.chain_view(),
        back.message_view() == io.message_view(),
        back.kind_view() == IoErrorKind::Other,
{
}

} // verus!
