//! How validating and fulfilling credentials fail.

use vstd::prelude::*;
use vstd::string::StringExecFns;
use crate::services::error::{AliyunRequestCommandError, SpecificError};
use crate::services::remote::AliyunRejection;

verus! {

/// The tag that marks an [`AKNotValid`] among the errors of a command.
#[derive(Debug, Default, Clone, Copy, PartialEq, Eq, Structural)]
pub struct AKNotValidType;

impl AKNotValidType {
    /// The tag as text.
    pub fn as_str(&self) -> (tag: &'static str)
        ensures
            tag@ == "AKNotValid"@,
    {
        "AKNotValid"
    }
}

/// The remote service has positively determined that the access key
/// credentials are wrong. `data` is its rejection, as received.
#[derive(Debug, Clone, PartialEq, Eq)]
pub struct AKNotValid {
    pub tag: AKNotValidType,
    pub data: AliyunRejection,
}

impl AKNotValid {
    /// Wraps the rejection that shows the credentials to be wrong.
    pub fn new(data: AliyunRejection) -> (error: Self)
        ensures
            error.data == data,
    {
        AKNotValid { tag: AKNotValidType, data }
    }
}

/// The text that introduces the rejection code in the message of an
/// [`AKNotValid`].
pub open spec fn not_valid_prefix() -> Seq<char> {
    "the access key credentials provided is not valid: "@
}

impl SpecificError for AKNotValid {
    open spec fn message_text(&self) -> Seq<char> {
        not_valid_prefix() + self.data.code@
    }

    fn message(&self) -> (text: String) {
        "the access key credentials provided is not valid: ".to_owned().concat(
            self.data.code.as_str(),
        )
    }
}

/// How validating credentials fails.
pub type AKValidationError = AliyunRequestCommandError<AKNotValid>;

/// How fulfilling credentials fails.
pub type AKFulfillError = AliyunRequestCommandError<AKNotValid>;

} // verus!
