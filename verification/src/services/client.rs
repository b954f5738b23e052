//! The holder of the cloud client.
//!
//! The client is built from the credentials that were last found valid. It is
//! absent until such credentials exist, replaced as a whole when they change,
//! and cleared when they are given up. A program with several threads keeps
//! the holder behind a reader/writer lock: the operations that replace or
//! clear the client take `&mut self`, those that only look take `&self`.

use vstd::prelude::*;
use alibabacloud::client::AliyunClient;
use crate::services::auth::classify;
use crate::services::auth::code::condemns_credentials;
use crate::services::auth::types::{AccessKeyCredentials, CredentialText};
use crate::services::error::{AliyunRequestCommandError, InternalSource, NoOther};
use crate::services::remote::{CallerIdentityBody, OperationError};

verus! {

/// The cloud client of the `alibabacloud` crate. Its inside is not visible
/// here: a client is only built, copied, handed on and asked for the
/// credentials it was built from.
#[verifier::external_type_specification]
#[verifier::external_body]
pub struct ExAliyunClient(alibabacloud::client::AliyunClient);

/// The client that `AliyunClient::new` builds from an access key id and an
/// access key secret.
pub uninterp spec fn client_of(
    access_key_id: Seq<char>,
    access_key_secret: Seq<char>,
) -> AliyunClient;

/// `AliyunClient::new` stores the two texts it is given and does nothing
/// else, so the client is determined by them.
pub assume_specification[ AliyunClient::new ](
    access_key_id: String,
    access_key_secret: String,
) -> (client: AliyunClient)
    ensures
        client == client_of(access_key_id@, access_key_secret@),
;

/// Reads the two texts that `client` holds in its fields `access_key_id` and
/// `access_key_secret`. They are the ones it was built from: they determine
/// `client`, and no other two texts do.
#[verifier::external_body]
fn read_credentials(client: &AliyunClient) -> (credentials: AccessKeyCredentials)
    ensures
        *client == client_of(credentials@.access_key_id, credentials@.access_key_secret),
        forall|access_key_id: Seq<char>, access_key_secret: Seq<char>|
            *client == #[trigger] client_of(access_key_id, access_key_secret) ==> {
                &&& credentials@.access_key_id == access_key_id
                &&& credentials@.access_key_secret == access_key_secret
            },
{
    AccessKeyCredentials {
        access_key_id: client.access_key_id.clone(),
        access_key_secret: client.access_key_secret.clone(),
    }
}

/// Whether `credentials` are the ones that `client` was built from: they
/// determine `client`, and no others do.
pub open spec fn built_from(client: AliyunClient, credentials: CredentialText) -> bool {
    &&& client == client_of(credentials.access_key_id, credentials.access_key_secret)
    &&& forall|access_key_id: Seq<char>, access_key_secret: Seq<char>|
        client == #[trigger] client_of(access_key_id, access_key_secret) ==> {
            &&& credentials.access_key_id == access_key_id
            &&& credentials.access_key_secret == access_key_secret
        }
}

/// How asking whether the client is valid fails.
pub type ClientValidationError = AliyunRequestCommandError<NoOther>;

/// The text of the error for a client that is held and was not checked.
pub open spec fn unchecked_text() -> Seq<char> {
    "no answer of the identity check for the client"@
}

/// Whether `verdict` is what is known of the validity of the client `held`,
/// where `checked` is the answer of the identity check for the credentials
/// of that client, or `None` if no check was made.
///
/// No client is no valid client, and no error, whatever was checked. A
/// client is valid if the check named its caller, and not valid if the check
/// condemned its credentials. Any other failure of the check leaves the
/// question open, and so does a check that was not made: that is an error,
/// and never the answer that the client is not valid.
pub open spec fn judges(
    verdict: Result<bool, ClientValidationError>,
    held: Option<AliyunClient>,
    checked: Option<Result<CallerIdentityBody, OperationError>>,
) -> bool {
    if held is None {
        verdict == Ok::<bool, ClientValidationError>(false)
    } else {
        match checked {
            None => {
                &&& verdict matches Err(
                    AliyunRequestCommandError::InternalError { message, source },
                )
                &&& message@ == unchecked_text()
                &&& source == InternalSource::NoSource
            },
            Some(Ok(_)) => verdict == Ok::<bool, ClientValidationError>(true),
            Some(Err(OperationError::Rejected(rejection))) if condemns_credentials(
                rejection.code@,
            ) => verdict == Ok::<bool, ClientValidationError>(false),
            Some(Err(raw)) => verdict matches Err(error) && error.carries(raw),
        }
    }
}

/// The client is called not valid only where that is known: without a
/// client, or where the identity check condemned its credentials. A client
/// is called valid only after a check that succeeded. Every other case is an
/// error, and none of these errors is a command's own.
pub proof fn lemma_verdicts(
    verdict: Result<bool, ClientValidationError>,
    held: Option<AliyunClient>,
    checked: Option<Result<CallerIdentityBody, OperationError>>,
)
    requires
        judges(verdict, held, checked),
    ensures
        verdict == Ok::<bool, ClientValidationError>(true) <==> (held is Some
            && checked matches Some(Ok(_))),
        verdict == Ok::<bool, ClientValidationError>(false) <==> (held is None || (
        checked matches Some(Err(OperationError::Rejected(rejection))) && condemns_credentials(
            rejection.code@,
        ))),
        verdict matches Err(error) ==> !(error is Specific),
{
}

/// Looking at the holder is repeatable: as long as the client is neither
/// replaced nor cleared, any two answers to the question whether there is a
/// client agree, and a function run on the client gives a value each time or
/// never.
pub proof fn lemma_looking_is_repeatable<R>(
    service: AliyunClientService,
    first: bool,
    second: bool,
    seen: Option<R>,
    seen_again: Option<R>,
)
    requires
        first == service.client is Some,
        second == service.client is Some,
        seen is Some <==> service.client is Some,
        seen_again is Some <==> service.client is Some,
    ensures
        first == second,
        seen is Some <==> seen_again is Some,
        seen is Some <==> first,
{
}

/// The holder of the cloud client: empty, or holding one client.
pub struct AliyunClientService {
    pub client: Option<AliyunClient>,
}

impl AliyunClientService {
    /// A holder without a client.
    pub fn new() -> (service: Self)
        ensures
            service.client is None,
    {
        AliyunClientService { client: None }
    }

    /// Puts `client` in the place of the client that was held, if any.
    pub fn initialize(&mut self, client: AliyunClient)
        ensures
            final(self).client == Some(client),
    {
        self.client = Some(client);
    }

    /// Runs `f` on the client, if there is one.
    pub fn with_client<F, R>(&self, f: F) -> (outcome: Option<R>) where
        F: FnOnce(&AliyunClient) -> R,

        requires
            self.client matches Some(client) ==> f.requires((&client,)),
        ensures
            match self.client {
                Some(client) => outcome matches Some(value) && f.ensures((&client,), value),
                None => outcome is None,
            },
    {
        match &self.client {
            Some(client) => Some(f(client)),
            None => None,
        }
    }

    /// A copy of the client, if there is one.
    pub fn clone_client(&self) -> (copy: Option<AliyunClient>)
        ensures
            copy == self.client,
    {
        match &self.client {
            Some(client) => {
                let credentials = read_credentials(client);
                Some(AliyunClient::new(credentials.access_key_id, credentials.access_key_secret))
            },
            None => None,
        }
    }

    /// The credentials that the client was built from, if there is one.
    pub fn credentials(&self) -> (credentials: Option<AccessKeyCredentials>)
        ensures
            match self.client {
                Some(client) => credentials matches Some(found) && built_from(client, found@),
                None => credentials is None,
            },
    {
        match &self.client {
            Some(client) => Some(read_credentials(client)),
            None => None,
        }
    }

    /// Whether there is a client.
    pub fn is_initialized(&self) -> (initialized: bool)
        ensures
            initialized == self.client is Some,
    {
        self.client.is_some()
    }

    /// Says whether the client is valid: `checked` is the answer of the
    /// identity check for the credentials of the client, or `None` if no
    /// check was made, as is right where no client is held.
    pub fn is_valid(
        &self,
        checked: Option<Result<CallerIdentityBody, OperationError>>,
    ) -> (verdict: Result<bool, ClientValidationError>)
        ensures
            judges(verdict, self.client, checked),
    {
        if self.client.is_none() {
            return Ok(false);
        }
        match checked {
            None => Err(
                AliyunRequestCommandError::InternalError {
                    message: "no answer of the identity check for the client".to_owned(),
                    source: InternalSource::NoSource,
                },
            ),
            Some(Ok(_)) => Ok(true),
            Some(Err(raw)) => match AliyunRequestCommandError::from_others(classify(raw)) {
                Ok(open) => Err(open),
                Err(_) => Ok(false),
            },
        }
    }

    /// Removes the client, if there is one.
    pub fn clear(&mut self)
        ensures
            final(self).client is None,
    {
        self.client = None;
    }
}

} // verus!
