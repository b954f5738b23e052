//! The commands on credentials and on the client.
//!
//! Each command is the part of a request from the user interface that
//! decides: the remote identity check is made before the command is called,
//! and its answer is handed in.

use vstd::prelude::*;
use vstd::std_specs::convert::FromSpecImpl;
use crate::services::auth::{classifies, fulfills};
use crate::services::auth::error::{AKFulfillError, AKValidationError};
use crate::services::auth::store::{AuthStore, QueryCredentialError, Slot};
use crate::services::auth::types::AccessKeyCredentials;
use crate::services::auth::AccessKeyAuthService;
use crate::services::client::{client_of, judges, AliyunClientService, ClientValidationError};
use crate::services::error::{AliyunRequestCommandError, InternalSource};
use crate::services::remote::{CallerIdentityBody, OperationError};

verus! {

/// How asking for the saved credentials fails.
#[derive(Debug, Clone, Copy, PartialEq, Eq, Structural)]
pub enum QueryError {
    /// The store holds something that could not be read.
    UnderlyingError(QueryCredentialError),
}

impl QueryError {
    /// What to tell the user.
    pub fn message(&self) -> (text: String)
        ensures
            text@ == "internal query error"@,
    {
        "internal query error".to_owned()
    }
}

impl From<QueryCredentialError> for QueryError {
    fn from(value: QueryCredentialError) -> (error: Self) {
        QueryError::UnderlyingError(value)
    }
}

impl FromSpecImpl<QueryCredentialError> for QueryError {
    open spec fn obeys_from_spec() -> bool {
        true
    }

    open spec fn from_spec(value: QueryCredentialError) -> Self {
        QueryError::UnderlyingError(value)
    }
}

/// The caller's identity as the user interface gets it.
#[derive(Debug, Clone, PartialEq, Eq)]
pub struct CallerIdentity(pub CallerIdentityBody);

impl From<CallerIdentityBody> for CallerIdentity {
    fn from(value: CallerIdentityBody) -> (identity: Self) {
        CallerIdentity(value)
    }
}

impl FromSpecImpl<CallerIdentityBody> for CallerIdentity {
    open spec fn obeys_from_spec() -> bool {
        true
    }

    open spec fn from_spec(value: CallerIdentityBody) -> Self {
        CallerIdentity(value)
    }
}

/// The credentials that are saved, if any. That none are saved is an
/// ordinary answer; only a slot that cannot be read is an error.
pub fn current_access_key_credential<A: AuthStore<AccessKeyCredentials>>(
    auth_service: &AccessKeyAuthService<A>,
) -> (outcome: Result<Option<AccessKeyCredentials>, QueryError>)
    ensures
        match auth_service.auth_store.slot() {
            Slot::Absent => outcome matches Ok(None),
            Slot::Malformed(fault) => outcome matches Err(
                QueryError::UnderlyingError(QueryCredentialError::DeserializeError(reported)),
            ) && reported == fault,
            Slot::Holds(credentials) => outcome matches Ok(Some(found)) && found@ == credentials,
        },
{
    match auth_service.current_access_key_credentials() {
        Ok(credentials) => Ok(Some(credentials)),
        Err(QueryCredentialError::NotExist) => Ok(None),
        Err(other) => Err(QueryError::from(other)),
    }
}

/// Says what the answer of the identity check means for the credentials that
/// were checked.
pub fn validate_access_key_credentials(
    checked: Result<CallerIdentityBody, OperationError>,
) -> (answer: Result<CallerIdentity, AKValidationError>)
    ensures
        match checked {
            Ok(identity) => answer == Ok::<CallerIdentity, AKValidationError>(
                CallerIdentity(identity),
            ),
            Err(raw) => answer matches Err(error) && classifies(error, raw),
        },
{
    match AccessKeyAuthService::validate_access_key_credentials(checked) {
        Ok(identity) => Ok(CallerIdentity::from(identity)),
        Err(error) => Err(error),
    }
}

/// The answer of fulfilling as the service gives it: the identity without its
/// wrapping, an error as it is.
pub open spec fn body_of(answer: Result<CallerIdentity, AKFulfillError>) -> Result<
    CallerIdentityBody,
    AKFulfillError,
> {
    match answer {
        Ok(identity) => Ok(identity.0),
        Err(error) => Err(error),
    }
}

/// Saves `credentials` if `checked`, the answer of the identity check for
/// them, shows them to be valid, and then puts the client built from them in
/// the place of the one that `client_service` held.
///
/// The answer is the service's: its error is handed on as it is, and the
/// identity is wrapped.
///
/// Unless the credentials were found valid and were saved, nothing changes.
/// Once they are saved a client can be built from them: the internal error
/// for a client that is missing then is never the answer.
pub fn fulfill_access_key_credentials<A: AuthStore<AccessKeyCredentials>>(
    credentials: AccessKeyCredentials,
    checked: Result<CallerIdentityBody, OperationError>,
    auth_service: &mut AccessKeyAuthService<A>,
    client_service: &mut AliyunClientService,
) -> (answer: Result<CallerIdentity, AKFulfillError>)
    ensures
        fulfills(
            body_of(answer),
            old(auth_service).auth_store.slot(),
            final(auth_service).auth_store.slot(),
            credentials@,
            checked,
            old(auth_service).auth_store.takes(credentials@),
            old(auth_service).auth_store.refusal(credentials@),
        ),
        checked is Err ==> *final(auth_service) == *old(auth_service),
        answer is Ok ==> final(client_service).client == Some(
            client_of(credentials@.access_key_id, credentials@.access_key_secret),
        ),
        answer is Err ==> *final(client_service) == *old(client_service),
{
    let identity = match auth_service.fulfill_access_key_credentials(credentials, checked) {
        Ok(identity) => identity,
        Err(error) => {
            return Err(error);
        },
    };
    match auth_service.new_client() {
        Some(client) => {
            client_service.initialize(client);
            Ok(CallerIdentity::from(identity))
        },
        None => Err(
            AliyunRequestCommandError::InternalError {
                message: "can't unwrap valid aliyun client when using auth_service.new_client"
                    .to_owned(),
                source: InternalSource::NoSource,
            },
        ),
    }
}

/// Whether a client is held.
pub fn has_aliyun_client(client_service: &AliyunClientService) -> (answer: Result<bool, ()>)
    ensures
        answer == Ok::<bool, ()>(client_service.client is Some),
{
    Ok(client_service.is_initialized())
}

/// Whether a client is held whose credentials are still valid: `checked` is
/// the answer of the identity check for the credentials of the client, or
/// `None` if no check was made, as is right where no client is held.
pub fn has_valid_aliyun_client(
    client_service: &AliyunClientService,
    checked: Option<Result<CallerIdentityBody, OperationError>>,
) -> (answer: Result<bool, ClientValidationError>)
    ensures
        judges(answer, client_service.client, checked),
{
    client_service.is_valid(checked)
}

} // verus!
