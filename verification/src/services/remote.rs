//! What the remote identity check answers.
//!
//! One call of the check ends in exactly one of four ways: the service names
//! the caller, the service rejects the call, the request never completes, or
//! the answer cannot be used. The types here hold those answers as plain
//! values.

use vstd::prelude::*;

verus! {

/// The kind of principal an access key belongs to.
#[derive(Debug, Clone, Copy, PartialEq, Eq, Structural)]
pub enum IdentityType {
    /// The root account.
    Account,
    /// A sub-user of an account.
    RAMUser,
    /// A role that was assumed.
    AssumedRoleUser,
}

/// The caller as the remote service names it.
#[derive(Debug, Clone, PartialEq, Eq)]
pub struct CallerIdentityBody {
    pub identity_type: IdentityType,
    pub request_id: String,
    pub account_id: String,
    pub principal_id: String,
    pub user_id: String,
    pub arn: String,
    pub role_id: Option<String>,
}

/// The remote service's explicit refusal of a call.
///
/// `code` is dot-structured, as in `InvalidAccessKeyId.NotFound`: the part
/// before the first dot is the main code.
#[derive(Debug, Clone, PartialEq, Eq)]
pub struct AliyunRejection {
    pub code: String,
    pub host_id: String,
    pub message: String,
    pub request_id: String,
    pub recommend: String,
}

/// Where a request that got no answer went wrong.
#[derive(Debug, Clone, Copy, PartialEq, Eq, Structural)]
pub enum RequestErrorKind {
    /// No connection could be made.
    Connect,
    /// The time allowed ran out.
    Timeout,
    /// The request could not be sent.
    Request,
    /// The answer's body could not be read.
    Body,
    /// The answer's body could not be decoded.
    Decode,
    /// Anything else.
    Other,
}

/// A failed call of the remote identity check.
#[derive(Debug, Clone, PartialEq, Eq)]
pub enum OperationError {
    /// The service answered, and refused.
    Rejected(AliyunRejection),
    /// The request did not complete.
    RequestFailure { message: String, kind: RequestErrorKind },
    /// The call failed on this side of the wire.
    InternalError { message: String },
}

} // verus!
