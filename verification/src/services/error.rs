//! The error envelope that every remote command answers with.

use vstd::prelude::*;
use vstd::std_specs::convert::FromSpecImpl;
use crate::services::auth::store::SaveCredentialError;
use crate::services::remote::{AliyunRejection, OperationError, RequestErrorKind};

verus! {

/// An error that belongs to one command alone, as opposed to the failures that
/// any remote command can meet.
pub trait SpecificError {
    /// The text of [`SpecificError::message`].
    spec fn message_text(&self) -> Seq<char>;

    /// What to tell the user.
    fn message(&self) -> (text: String)
        ensures
            text@ == self.message_text(),
    ;
}

/// A rejection by the remote service that the command did not expect.
#[derive(Debug, Clone, PartialEq, Eq)]
pub struct UnexpectedAliyunRejectionError(pub AliyunRejection);

/// What lies behind an internal error.
#[derive(Debug, Clone, PartialEq, Eq)]
pub enum InternalSource {
    /// Nothing further is known.
    NoSource,
    /// The remote service refused the call for a reason of its own.
    UnexpectedRejection(UnexpectedAliyunRejectionError),
    /// The remote call failed on this side of the wire.
    Operation,
    /// The credentials were found valid, and then could not be saved.
    SaveCredential(SaveCredentialError),
}

/// How a remote command fails.
#[derive(Debug, Clone, PartialEq, Eq)]
pub enum AliyunRequestCommandError<E: SpecificError> {
    /// The failure that the command itself defines.
    Specific(E),
    /// The request did not complete.
    RequestFailure { message: String, kind: RequestErrorKind },
    /// Something that should not happen did.
    InternalError { message: String, source: InternalSource },
}

/// Stands where a command has no error of its own. No command answers with
/// it.
#[derive(Debug, Clone, Copy, PartialEq, Eq, Structural)]
pub struct NoOther;

impl SpecificError for NoOther {
    open spec fn message_text(&self) -> Seq<char> {
        Seq::empty()
    }

    fn message(&self) -> (text: String) {
        String::new()
    }
}

/// The text of every unexpected rejection.
pub open spec fn unexpected_rejection_text() -> Seq<char> {
    "unexpected aliyun rejection"@
}

impl<E: SpecificError> AliyunRequestCommandError<E> {
    /// Wraps a command's own error.
    pub fn new_specific(error: E) -> (wrapped: Self)
        ensures
            wrapped == AliyunRequestCommandError::Specific(error),
    {
        AliyunRequestCommandError::Specific(error)
    }

    /// Whether `outcome` is what taking over `other` gives: a failure that no
    /// command defines for itself is taken over as it is, and a command's own
    /// error, which has no place in another command's answer, is handed back.
    pub open spec fn takes_over<F: SpecificError>(
        outcome: Result<Self, F>,
        other: AliyunRequestCommandError<F>,
    ) -> bool {
        match other {
            AliyunRequestCommandError::Specific(own) => outcome == Err::<Self, F>(own),
            AliyunRequestCommandError::RequestFailure { message, kind } => {
                outcome == Ok::<Self, F>(
                    AliyunRequestCommandError::RequestFailure { message, kind },
                )
            },
            AliyunRequestCommandError::InternalError { message, source } => {
                outcome == Ok::<Self, F>(
                    AliyunRequestCommandError::InternalError { message, source },
                )
            },
        }
    }

    /// Takes over the failure of another command, unless it is that
    /// command's own error, which is handed back.
    pub fn from_others<F: SpecificError>(other: AliyunRequestCommandError<F>) -> (outcome: Result<
        Self,
        F,
    >)
        ensures
            Self::takes_over(outcome, other),
    {
        match other {
            AliyunRequestCommandError::Specific(own) => Err(own),
            AliyunRequestCommandError::RequestFailure { message, kind } => Ok(
                AliyunRequestCommandError::RequestFailure { message, kind },
            ),
            AliyunRequestCommandError::InternalError { message, source } => Ok(
                AliyunRequestCommandError::InternalError { message, source },
            ),
        }
    }

    /// The text of [`AliyunRequestCommandError::message`].
    pub open spec fn message_text(&self) -> Seq<char> {
        match self {
            AliyunRequestCommandError::Specific(error) => error.message_text(),
            AliyunRequestCommandError::RequestFailure { message, kind } => message@,
            AliyunRequestCommandError::InternalError { message, source } => message@,
        }
    }

    /// What to tell the user.
    pub fn message(&self) -> (text: String)
        ensures
            text@ == self.message_text(),
    {
        match self {
            AliyunRequestCommandError::Specific(error) => error.message(),
            AliyunRequestCommandError::RequestFailure { message, kind: _ } => message.clone(),
            AliyunRequestCommandError::InternalError { message, source: _ } => message.clone(),
        }
    }

    /// Whether `self` is what a command that expects no rejection makes of
    /// `value`: a rejection becomes an internal error that carries it, the
    /// two other failures keep their kind and their message.
    pub open spec fn carries(&self, value: OperationError) -> bool {
        match value {
            OperationError::Rejected(rejection) => {
                &&& *self matches AliyunRequestCommandError::InternalError { message, source }
                &&& message@ == unexpected_rejection_text()
                &&& source == InternalSource::UnexpectedRejection(
                    UnexpectedAliyunRejectionError(rejection),
                )
            },
            OperationError::RequestFailure { message, kind } => {
                *self == (AliyunRequestCommandError::<E>::RequestFailure { message, kind })
            },
            OperationError::InternalError { message } => {
                *self == (AliyunRequestCommandError::<E>::InternalError {
                    message,
                    source: InternalSource::Operation,
                })
            },
        }
    }
}

impl<E: SpecificError> From<OperationError> for AliyunRequestCommandError<E> {
    fn from(value: OperationError) -> (error: Self)
        ensures
            error.carries(value),
    {
        match value {
            OperationError::Rejected(rejection) => {
                AliyunRequestCommandError::InternalError {
                    message: "unexpected aliyun rejection".to_owned(),
                    source: InternalSource::UnexpectedRejection(
                        UnexpectedAliyunRejectionError(rejection),
                    ),
                }
            },
            OperationError::RequestFailure { message, kind } => {
                AliyunRequestCommandError::RequestFailure { message, kind }
            },
            OperationError::InternalError { message } => {
                AliyunRequestCommandError::InternalError {
                    message,
                    source: InternalSource::Operation,
                }
            },
        }
    }
}

impl<E: SpecificError> FromSpecImpl<OperationError> for AliyunRequestCommandError<E> {
    open spec fn obeys_from_spec() -> bool {
        false
    }

    open spec fn from_spec(value: OperationError) -> Self {
        arbitrary()
    }
}

} // verus!
