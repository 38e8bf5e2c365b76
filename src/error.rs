//! Errors that requests end in.
use vstd::prelude::*;
use vstd::string::*;
use atomic_lib::{AtomicError, AtomicErrorType};

verus! {

/// The classes of failure a request can end in.
#[derive(Clone, Copy, Debug, PartialEq, Eq, Structural)]
pub enum ErrorKind {
    /// The store has no URL of its own, so it can own no subject.
    NoSelfUrl,
    /// The commit's subject lies outside the store's authority.
    SubjectNotOwned,
    /// The subject is not in the store.
    NotFound,
    /// The agent may not read or write the subject.
    RightsDenied,
    /// The body could not be read.
    Parse,
    /// The operation is not allowed on the subject.
    MethodNotAllowed,
    /// A validation of the commit failed, or the store or a serializer did.
    Rejected,
}

/// A failed request: its class and a message for the client.
#[derive(Clone, Debug)]
pub struct ServerError {
    pub kind: ErrorKind,
    pub message: String,
}

/// The class that a store error falls in.
pub open spec fn kind_of_spec(t: AtomicErrorType) -> ErrorKind {
    match t {
        AtomicErrorType::NotFoundError => ErrorKind::NotFound,
        AtomicErrorType::UnauthorizedError => ErrorKind::RightsDenied,
        AtomicErrorType::ParseError => ErrorKind::Parse,
        AtomicErrorType::MethodNotAllowed => ErrorKind::MethodNotAllowed,
        AtomicErrorType::OtherError => ErrorKind::Rejected,
    }
}

/// The one message that every denial carries, whatever was asked for.
pub open spec fn denied_message() -> Seq<char> {
    "Unauthorized: this agent lacks the rights for this resource."@
}

/// The message that a subject outside the store's authority is refused with.
pub open spec fn not_owned_message() -> Seq<char> {
    "Subject of commit should be sent to other domain - this store can not own this resource."@
}

/// The message that a store without a URL of its own refuses commits with.
pub open spec fn no_self_url_message() -> Seq<char> {
    "Cannot apply commits to this store. No self_url is set."@
}

/// What a client sees of a store error: its class, and its message unless the
/// class is a denial, whose message is fixed.
pub open spec fn error_view_spec(e: AtomicError) -> (ErrorKind, Seq<char>) {
    let kind = kind_of_spec(e.error_type);
    if kind == ErrorKind::RightsDenied {
        (kind, denied_message())
    } else {
        (kind, e.message@)
    }
}

impl ServerError {
    /// What a client sees of this error.
    pub open spec fn view_spec(&self) -> (ErrorKind, Seq<char>) {
        (self.kind, self.message@)
    }

    /// The error for a store error.
    pub fn from_atomic(e: AtomicError) -> (r: ServerError)
        ensures
            r.view_spec() == error_view_spec(e),
    {
        let kind = match e.error_type {
            AtomicErrorType::NotFoundError => ErrorKind::NotFound,
            AtomicErrorType::UnauthorizedError => ErrorKind::RightsDenied,
            AtomicErrorType::ParseError => ErrorKind::Parse,
            AtomicErrorType::MethodNotAllowed => ErrorKind::MethodNotAllowed,
            AtomicErrorType::OtherError => ErrorKind::Rejected,
        };
        if kind == ErrorKind::RightsDenied {
            ServerError::rights_denied()
        } else {
            ServerError { kind, message: e.message }
        }
    }

    /// A denial, with its fixed message.
    pub fn rights_denied() -> (r: ServerError)
        ensures
            r.view_spec() == (ErrorKind::RightsDenied, denied_message()),
    {
        ServerError {
            kind: ErrorKind::RightsDenied,
            message: "Unauthorized: this agent lacks the rights for this resource.".to_owned(),
        }
    }

    /// The refusal of a commit whose subject lies outside the store's authority.
    pub fn subject_not_owned() -> (r: ServerError)
        ensures
            r.view_spec() == (ErrorKind::SubjectNotOwned, not_owned_message()),
    {
        ServerError {
            kind: ErrorKind::SubjectNotOwned,
            message:
                "Subject of commit should be sent to other domain - this store can not own this resource.".to_owned(),
        }
    }

    /// The refusal of a commit by a store without a URL of its own.
    pub fn no_self_url() -> (r: ServerError)
        ensures
            r.view_spec() == (ErrorKind::NoSelfUrl, no_self_url_message()),
    {
        ServerError {
            kind: ErrorKind::NoSelfUrl,
            message: "Cannot apply commits to this store. No self_url is set.".to_owned(),
        }
    }
}

/// All denials look alike to a client: whether the resource exists, and what
/// it holds, leaves no trace in the error.
pub proof fn denials_are_uniform(a: AtomicError, b: AtomicError)
    requires
        a.error_type is UnauthorizedError,
        b.error_type is UnauthorizedError,
    ensures
        error_view_spec(a) == error_view_spec(b),
        error_view_spec(a) == (ErrorKind::RightsDenied, denied_message()),
{
}

} // verus!
