//! The error that every fallible operation of the interface returns.

use crate::io::{io_debug_view, IoError, IoErrorKind};
use vstd::prelude::*;

verus! {

/// A text, as contracts see it.
pub type Text = Seq<char>;

/// The messages of a chain of causes, as contracts see them.
pub type Chain = Seq<Seq<char>>;

/// What a value must offer to be carried as the cause of an [`Error`]: a text
/// for users, a text for developers, the messages of the causes below it, and
/// the kind of I/O failure that it is, if it is one. The bounds make every
/// cause safe to hand to another thread.
///
/// The four views say what the four methods return. They are ghost: an
/// implementation that is compiled without the verifier gives each a body
/// that is never run, and is trusted to answer the same whenever it is asked.
pub trait Cause: Send + Sync + 'static {
    /// The text that [`Cause::message`] returns.
    spec fn message_view(&self) -> Text;

    /// The text that [`Cause::debug_text`] returns.
    spec fn debug_view(&self) -> Text;

    /// The messages that [`Cause::sources`] returns, nearest cause first.
    spec fn chain_view(&self) -> Chain;

    /// The kind that [`Cause::io_kind`] returns.
    spec fn io_kind_view(&self) -> Option<IoErrorKind>;

    /// The text to show to a user.
    fn message(&self) -> (text: String)
        ensures
            text@ == self.message_view(),
    ;

    /// The text to show to a developer.
    fn debug_text(&self) -> (text: String)
        ensures
            text@ == self.debug_view(),
    ;

    /// The messages of the causes below this one, nearest first.
    fn sources(&self) -> (chain: Vec<String>)
        ensures
            chain.deep_view() == self.chain_view(),
    ;

    /// The kind of I/O failure that this cause is, or `None` if it is a
    /// failure of another sort.
    fn io_kind(&self) -> (kind: Option<IoErrorKind>)
        ensures
            kind == self.io_kind_view(),
    ;
}

/// The text that `Debug` writes for a string: the string between double
/// quotes, with the characters that would not show as they are escaped.
pub uninterp spec fn debug_quoted(text: Seq<char>) -> Seq<char>;

/// `<str as Debug>::fmt`, run by `format!`: the text that `Debug` writes for
/// `text`, which depends on `text` alone.
#[verifier::external_body]
fn quote(text: &str) -> (quoted: String)
    ensures
        quoted@ == debug_quoted(text@),
{
    format!("{:?}", text)
}

/// A plain message is a cause of its own, with nothing below it. It is no
/// I/O failure. A developer sees it quoted.
impl Cause for String {
    open spec fn message_view(&self) -> Text {
        self@
    }

    open spec fn debug_view(&self) -> Text {
        debug_quoted(self@)
    }

    open spec fn chain_view(&self) -> Chain {
        Seq::empty()
    }

    open spec fn io_kind_view(&self) -> Option<IoErrorKind> {
        None
    }

    fn message(&self) -> (text: String) {
        self.clone()
    }

    fn debug_text(&self) -> (text: String) {
        quote(self.as_str())
    }

    fn sources(&self) -> (chain: Vec<String>) {
        let chain: Vec<String> = Vec::new();
        assert(chain.deep_view() =~= Seq::<Seq<char>>::empty());
        chain
    }

    fn io_kind(&self) -> (kind: Option<IoErrorKind>) {
        None
    }
}

/// A cause whose concrete type has been erased.
pub struct BoxedCause(Box<dyn Cause>);

/// `Box::new` followed by the unsizing of `Box<E>` to `Box<dyn Cause>`. A
/// method called on the trait object runs the method of `E` on the value
/// boxed, so the object reports what `cause` reported.
#[verifier::external_body]
fn erase_cause<E: Cause>(cause: E) -> (boxed: BoxedCause)
    ensures
        boxed.message_view() == cause.message_view(),
        boxed.debug_view() == cause.debug_view(),
        boxed.chain_view() == cause.chain_view(),
        boxed.io_kind_view() == cause.io_kind_view(),
{
    BoxedCause(Box::new(cause))
}

impl BoxedCause {
    /// Boxes `cause` and forgets its type.
    pub fn new<E: Cause>(cause: E) -> (boxed: BoxedCause)
        ensures
            boxed.message_view() == cause.message_view(),
            boxed.debug_view() == cause.debug_view(),
            boxed.chain_view() == cause.chain_view(),
            boxed.io_kind_view() == cause.io_kind_view(),
    {
        erase_cause(cause)
    }
}

impl Cause for BoxedCause {
    closed spec fn message_view(&self) -> Text {
        self.0.message_view()
    }

    closed spec fn debug_view(&self) -> Text {
        self.0.debug_view()
    }

    closed spec fn chain_view(&self) -> Chain {
        self.0.chain_view()
    }

    closed spec fn io_kind_view(&self) -> Option<IoErrorKind> {
        self.0.io_kind_view()
    }

    fn message(&self) -> (text: String) {
        self.0.message()
    }

    fn debug_text(&self) -> (text: String) {
        self.0.debug_text()
    }

    fn sources(&self) -> (chain: Vec<String>) {
        self.0.sources()
    }

    fn io_kind(&self) -> (kind: Option<IoErrorKind>) {
        self.0.io_kind()
    }
}

/// An error returned from a TLS implementation. The type of the cause is
/// erased; what it reports stays reachable.
pub struct Error(BoxedCause);

impl Error {
    /// The cause that this error carries.
    pub closed spec fn cause(&self) -> BoxedCause {
        self.0
    }

    /// Wraps `cause`.
    pub fn new<E: Cause>(cause: E) -> (err: Error)
        ensures
            err.message_view() == cause.message_view(),
            err.debug_view() == cause.debug_view(),
            err.chain_view() == cause.chain_view(),
            err.io_kind_view() == cause.io_kind_view(),
    {
        Error(BoxedCause::new(cause))
    }

    /// An error that carries `message` as an I/O error of kind `Other`, with no
    /// cause below it. A developer sees the kind and the message quoted.
    pub fn new_other(message: &str) -> (err: Error)
        ensures
            err.message_view() == message@,
            err.debug_view() == io_debug_view(IoErrorKind::Other, debug_quoted(message@)),
            err.chain_view() == Seq::<Seq<char>>::empty(),
            err.io_kind_view() == Some(IoErrorKind::Other),
    {
        Error::new(IoError::new(IoErrorKind::Other, message.to_owned()))
    }

    /// The boxed cause, for callers that want to look at it without the wrapper.
    pub fn into_inner(self) -> (cause: BoxedCause)
        ensures
            cause == self.cause(),
    {
        self.0
    }

    /// The message of the nearest cause below this error, if it has one.
    pub fn source(&self) -> (nearest: Option<String>)
        ensures
            match nearest {
                Some(text) => self.chain_view().len() > 0 && text@ == self.chain_view()[0],
                None => self.chain_view().len() == 0,
            },
    {
        let mut chain = self.0.sources();
        if chain.len() == 0 {
            None
        } else {
            Some(chain.swap_remove(0))
        }
    }
}

/// An error reports what its cause reports.
impl Cause for Error {
    open spec fn message_view(&self) -> Text {
        self.cause().message_view()
    }

    open spec fn debug_view(&self) -> Text {
        self.cause().debug_view()
    }

    open spec fn chain_view(&self) -> Chain {
        self.cause().chain_view()
    }

    open spec fn io_kind_view(&self) -> Option<IoErrorKind> {
        self.cause().io_kind_view()
    }

    fn message(&self) -> (text: String) {
        self.0.message()
    }

    fn debug_text(&self) -> (text: String) {
        self.0.debug_text()
    }

    fn sources(&self) -> (chain: Vec<String>) {
        self.0.sources()
    }

    fn io_kind(&self) -> (kind: Option<IoErrorKind>) {
        self.0.io_kind()
    }
}

} // verus!

