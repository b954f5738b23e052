//! Validation and persistence of access key credentials.
//!
//! The remote identity check itself is a network call and is made by the
//! caller. Its answer is handed to [`AccessKeyAuthService`], which decides
//! what the answer means and what is saved.

pub mod code;
pub mod error;
pub mod record;
pub mod store;
pub mod types;

use vstd::prelude::*;
use alibabacloud::client::AliyunClient;
use crate::services::auth::code::{condemns_credentials, is_credential_rejection};
use crate::services::auth::error::{AKFulfillError, AKNotValid, AKNotValidType, AKValidationError};
use crate::services::auth::store::{
    fault_of,
    reports,
    AccessKeyAuthStore,
    AuthStore,
    QueryCredentialError,
    SaveFault,
    Slot,
};
use crate::services::auth::types::{AccessKeyCredentials, CredentialText};
use crate::services::client::client_of;
use crate::services::error::{AliyunRequestCommandError, InternalSource};
use crate::services::remote::{CallerIdentityBody, OperationError};
use crate::storage::MemoryStore;

verus! {

/// Whether `error` is what a failed identity check `raw` means for the
/// credentials that were checked.
///
/// A rejection whose main code condemns the credentials means that they are
/// invalid, and `error` carries the rejection as it came. Any other failure
/// leaves their validity undetermined: `error` is what
/// [`AliyunRequestCommandError::carries`] describes.
pub open spec fn classifies(error: AKValidationError, raw: OperationError) -> bool {
    match raw {
        OperationError::Rejected(rejection) if condemns_credentials(rejection.code@) => {
            error == AliyunRequestCommandError::Specific(
                AKNotValid { tag: AKNotValidType, data: rejection },
            )
        },
        _ => error.carries(raw),
    }
}

/// Whether `answer` is what the answer `checked` of the identity check means.
pub open spec fn validates(
    answer: Result<CallerIdentityBody, AKValidationError>,
    checked: Result<CallerIdentityBody, OperationError>,
) -> bool {
    match checked {
        Ok(identity) => answer == Ok::<CallerIdentityBody, AKValidationError>(identity),
        Err(raw) => answer matches Err(error) && classifies(error, raw),
    }
}

/// Whether fulfilling `credentials` can lead from the slot `before` to the
/// slot `after` with this answer, where `checked` is the answer of the
/// identity check, `taken` says whether the store takes the credentials, and
/// `refused` is the fault with which it refuses them where it does not.
///
/// Credentials that the check does not show to be valid are classified and
/// not saved. Valid credentials are saved and the caller's identity is handed
/// on; where they cannot be saved, the answer is an internal error whose
/// source is the failure to save with the store's own fault, whose message
/// is that failure's, and the slot stays as it was.
pub open spec fn fulfills(
    answer: Result<CallerIdentityBody, AKFulfillError>,
    before: Slot<CredentialText>,
    after: Slot<CredentialText>,
    credentials: CredentialText,
    checked: Result<CallerIdentityBody, OperationError>,
    taken: bool,
    refused: SaveFault,
) -> bool {
    match checked {
        Err(raw) => {
            &&& answer matches Err(error) && classifies(error, raw)
            &&& after == before
        },
        Ok(identity) => if taken {
            &&& answer == Ok::<CallerIdentityBody, AKFulfillError>(identity)
            &&& after == Slot::Holds(credentials)
        } else {
            &&& answer matches Err(
                AliyunRequestCommandError::InternalError {
                    message,
                    source: InternalSource::SaveCredential(fault),
                },
            ) && message@ == fault.message_text() && fault_of(fault) == refused
            &&& after == before
        },
    }
}

/// A rejection condemns the credentials exactly if it is classified as
/// showing them invalid, and then the classified error carries the rejection
/// unchanged. No failure that leaves the validity open is ever classified so.
pub proof fn lemma_invalid_iff_condemned(error: AKValidationError, raw: OperationError)
    requires
        classifies(error, raw),
    ensures
        error is Specific <==> (raw matches OperationError::Rejected(rejection)
            && condemns_credentials(rejection.code@)),
        error matches AliyunRequestCommandError::Specific(invalid) ==> (raw
            == OperationError::Rejected(invalid.data)),
        raw is RequestFailure ==> error is RequestFailure,
        raw is InternalError ==> error is InternalError,
{
}

/// Validation succeeds exactly if the identity check did, and hands the
/// caller's identity on unchanged.
pub proof fn lemma_valid_iff_checked(
    answer: Result<CallerIdentityBody, AKValidationError>,
    checked: Result<CallerIdentityBody, OperationError>,
)
    requires
        validates(answer, checked),
    ensures
        answer is Ok <==> checked is Ok,
        answer is Ok ==> answer->Ok_0 == checked->Ok_0,
{
}

/// Fulfilling succeeds exactly if the credentials were found valid and were
/// saved; after a success, asking for the current credentials gives the
/// credentials that were fulfilled.
pub proof fn lemma_fulfilled_is_current(
    answer: Result<CallerIdentityBody, AKFulfillError>,
    before: Slot<CredentialText>,
    after: Slot<CredentialText>,
    credentials: CredentialText,
    checked: Result<CallerIdentityBody, OperationError>,
    taken: bool,
    refused: SaveFault,
    current: Result<AccessKeyCredentials, QueryCredentialError>,
)
    requires
        fulfills(answer, before, after, credentials, checked, taken, refused),
        reports(after, current),
    ensures
        answer is Ok <==> checked is Ok && taken,
        answer is Ok ==> (current matches Ok(found) && found@ == credentials),
{
}

/// Nothing is saved that was not found valid: whenever fulfilling changes the
/// slot, the identity check had succeeded, and the slot holds the credentials
/// that were checked.
pub proof fn lemma_only_valid_is_saved(
    answer: Result<CallerIdentityBody, AKFulfillError>,
    before: Slot<CredentialText>,
    after: Slot<CredentialText>,
    credentials: CredentialText,
    checked: Result<CallerIdentityBody, OperationError>,
    taken: bool,
    refused: SaveFault,
)
    requires
        fulfills(answer, before, after, credentials, checked, taken, refused),
        after != before,
    ensures
        checked is Ok,
        answer is Ok,
        after == Slot::Holds(credentials),
{
}

/// A failure to save is told apart from every outcome of validation: it is
/// neither the error of invalid credentials nor one that a failed identity
/// check gives. It carries the fault with which the store refused.
pub proof fn lemma_persist_failure_is_distinct(
    answer: Result<CallerIdentityBody, AKFulfillError>,
    before: Slot<CredentialText>,
    after: Slot<CredentialText>,
    credentials: CredentialText,
    checked: Result<CallerIdentityBody, OperationError>,
    taken: bool,
    refused: SaveFault,
)
    requires
        fulfills(answer, before, after, credentials, checked, taken, refused),
    ensures
        (answer matches Err(
            AliyunRequestCommandError::InternalError {
                message,
                source: InternalSource::SaveCredential(fault),
            },
        )) <==> (checked is Ok && !taken),
        checked is Ok && !taken ==> (answer matches Err(
            AliyunRequestCommandError::InternalError {
                message,
                source: InternalSource::SaveCredential(fault),
            },
        ) && fault_of(fault) == refused),
{
}

/// Says what a failed identity check means for the credentials.
pub fn classify(raw: OperationError) -> (error: AKValidationError)
    ensures
        classifies(error, raw),
{
    match raw {
        OperationError::Rejected(rejection) => {
            if is_credential_rejection(rejection.code.as_str()) {
                AliyunRequestCommandError::new_specific(AKNotValid::new(rejection))
            } else {
                AliyunRequestCommandError::from(OperationError::Rejected(rejection))
            }
        },
        other => AliyunRequestCommandError::from(other),
    }
}

/// Validates credentials and keeps the valid ones.
///
/// The service has no state of its own: what is valid is asked of the remote
/// service each time, and what is saved lies in `auth_store`.
pub struct AccessKeyAuthService<A: AuthStore<AccessKeyCredentials>> {
    pub auth_store: A,
}

impl AccessKeyAuthService<AccessKeyAuthStore<MemoryStore>> {
    /// Says what the answer of the identity check means for the credentials
    /// that were checked.
    ///
    /// Validation looks at no store and needs no service. It is an associated
    /// function of the service over the memory store, so that a call of it
    /// names no store.
    pub fn validate_access_key_credentials(
        checked: Result<CallerIdentityBody, OperationError>,
    ) -> (answer: Result<CallerIdentityBody, AKValidationError>)
        ensures
            validates(answer, checked),
    {
        match checked {
            Ok(identity) => Ok(identity),
            Err(raw) => Err(classify(raw)),
        }
    }
}

impl<A: AuthStore<AccessKeyCredentials>> AccessKeyAuthService<A> {
    /// A service that saves to `store`.
    pub fn new(store: A) -> (service: Self)
        ensures
            service.auth_store == store,
    {
        AccessKeyAuthService { auth_store: store }
    }

    /// The credentials that were saved last.
    pub fn current_access_key_credentials(&self) -> (outcome: Result<
        AccessKeyCredentials,
        QueryCredentialError,
    >)
        ensures
            reports(self.auth_store.slot(), outcome),
    {
        self.auth_store.query()
    }

    /// A client built from the credentials that were saved last; none if
    /// there are none.
    pub fn new_client(&self) -> (client: Option<AliyunClient>)
        ensures
            match self.auth_store.slot() {
                Slot::Holds(credentials) => client == Some(
                    client_of(credentials.access_key_id, credentials.access_key_secret),
                ),
                _ => client is None,
            },
    {
        match self.auth_store.query() {
            Ok(credentials) => Some(
                AliyunClient::new(credentials.access_key_id, credentials.access_key_secret),
            ),
            Err(_) => None,
        }
    }

    /// Saves `credentials` if `checked`, the answer of the identity check for
    /// them, shows them to be valid.
    ///
    /// Nothing is written unless the check succeeded. Credentials that are
    /// valid and could not be saved give an internal error whose source is
    /// the failure to save.
    pub fn fulfill_access_key_credentials(
        &mut self,
        credentials: AccessKeyCredentials,
        checked: Result<CallerIdentityBody, OperationError>,
    ) -> (answer: Result<CallerIdentityBody, AKFulfillError>)
        ensures
            fulfills(
                answer,
                old(self).auth_store.slot(),
                final(self).auth_store.slot(),
                credentials@,
                checked,
                old(self).auth_store.takes(credentials@),
                old(self).auth_store.refusal(credentials@),
            ),
            checked is Err ==> *final(self) == *old(self),
    {
        let identity = match AccessKeyAuthService::validate_access_key_credentials(checked) {
            Ok(identity) => identity,
            Err(error) => {
                return Err(error);
            },
        };
        match self.auth_store.save(credentials) {
            Ok(()) => Ok(identity),
            Err(fault) => Err(
                AliyunRequestCommandError::InternalError {
                    message: fault.message(),
                    source: InternalSource::SaveCredential(fault),
                },
            ),
        }
    }
}

} // verus!
