use alibabacloud::client::AliyunClient;
use aliyun_auth::commands::auth::{
    current_access_key_credential, fulfill_access_key_credentials, has_aliyun_client,
    has_valid_aliyun_client, validate_access_key_credentials, CallerIdentity, QueryError,
};
use aliyun_auth::services::auth::store::{
    AccessKeyAuthStore, AuthStore, QueryCredentialError, SaveCredentialError,
    ACCESS_KEY_CREDENTIAL_STORE_KEY,
};
use aliyun_auth::services::auth::types::{AccessKeyCredentials, CredentialField};
use aliyun_auth::services::auth::AccessKeyAuthService;
use aliyun_auth::services::client::AliyunClientService;
use aliyun_auth::services::error::{
    AliyunRequestCommandError, InternalSource, UnexpectedAliyunRejectionError,
};
use aliyun_auth::services::remote::{
    AliyunRejection, CallerIdentityBody, IdentityType, OperationError, RequestErrorKind,
};
use aliyun_auth::storage::{KeyValueStore, MemoryStore};
use aliyun_auth::types::{BoxedError, JsonValue, SerdeJsonError};

fn refused(code: &str) -> OperationError {
    OperationError::Rejected(AliyunRejection {
        code: code.to_string(),
        host_id: "sts.aliyuncs.com".to_string(),
        message: "refused".to_string(),
        request_id: "A1B2C3".to_string(),
        recommend: String::new(),
    })
}

fn root_account() -> CallerIdentityBody {
    CallerIdentityBody {
        identity_type: IdentityType::Account,
        request_id: "R-2".to_string(),
        account_id: "1234567890".to_string(),
        principal_id: "1234567890".to_string(),
        user_id: "1234567890".to_string(),
        arn: "acs:ram::1234567890:root".to_string(),
        role_id: None,
    }
}

fn empty_service() -> AccessKeyAuthService<AccessKeyAuthStore<MemoryStore>> {
    AccessKeyAuthService::new(AccessKeyAuthStore::new(MemoryStore::new()))
}

fn pair_of(client: &AliyunClient) -> (String, String) {
    (client.access_key_id.clone(), client.access_key_secret.clone())
}

/// What the identity check answers for the credentials of the client that is held.
fn check_held(
    service: &AliyunClientService,
    remote: impl FnOnce(AccessKeyCredentials) -> Result<CallerIdentityBody, OperationError>,
) -> Option<Result<CallerIdentityBody, OperationError>> {
    service.credentials().map(remote)
}

#[test]
fn holder_starts_empty() {
    let service = AliyunClientService::new();
    assert!(!service.is_initialized());
    assert!(service.clone_client().is_none());
    assert!(service.credentials().is_none());
    assert_eq!(service.with_client(|client| pair_of(client)), None);
    assert_eq!(has_aliyun_client(&service), Ok(false));
}

#[test]
fn holder_goes_through_its_states() {
    let mut service = AliyunClientService::new();
    service.clear();
    assert!(!service.is_initialized());

    service.initialize(AliyunClient::new("id".to_string(), "secret".to_string()));
    assert!(service.is_initialized());
    assert_eq!(has_aliyun_client(&service), Ok(true));
    assert_eq!(
        service.with_client(|client| pair_of(client)),
        Some(("id".to_string(), "secret".to_string()))
    );

    service.initialize(AliyunClient::new("id2".to_string(), "secret2".to_string()));
    assert!(service.is_initialized());
    assert_eq!(
        service.with_client(|client| pair_of(client)),
        Some(("id2".to_string(), "secret2".to_string()))
    );

    service.clear();
    assert!(!service.is_initialized());
    assert_eq!(service.with_client(|client| pair_of(client)), None);
    service.clear();
    assert!(!service.is_initialized());
}

#[test]
fn looking_changes_nothing() {
    let mut service = AliyunClientService::new();
    for _ in 0..3 {
        assert!(!service.is_initialized());
        assert_eq!(service.with_client(|client| pair_of(client)), None);
    }
    service.initialize(AliyunClient::new("id".to_string(), "secret".to_string()));
    for _ in 0..3 {
        assert!(service.is_initialized());
        assert_eq!(
            service.with_client(|client| pair_of(client)),
            Some(("id".to_string(), "secret".to_string()))
        );
        assert_eq!(
            service.credentials(),
            Some(AccessKeyCredentials::new("id", "secret"))
        );
        assert!(service.clone_client().is_some());
    }
}

#[test]
fn with_client_hands_the_result_on() {
    let mut service = AliyunClientService::new();
    service.initialize(AliyunClient::new("abc".to_string(), "s".to_string()));
    assert_eq!(service.with_client(|client| client.access_key_id.len()), Some(3));
    assert_eq!(service.with_client(|_| ()), Some(()));
}

#[test]
fn a_copy_holds_the_same_pair() {
    let mut service = AliyunClientService::new();
    service.initialize(AliyunClient::new("id".to_string(), "secret".to_string()));
    let copy = service.clone_client().unwrap();
    assert_eq!(pair_of(&copy), ("id".to_string(), "secret".to_string()));
    service.clear();
    assert_eq!(pair_of(&copy), ("id".to_string(), "secret".to_string()));
    assert!(service.clone_client().is_none());
}

#[test]
fn credentials_are_read_in_their_order() {
    let mut service = AliyunClientService::new();
    service.initialize(AliyunClient::new("the id".to_string(), "the secret".to_string()));
    let credentials = service.credentials().unwrap();
    assert_eq!(credentials.access_key_id, "the id");
    assert_eq!(credentials.access_key_secret, "the secret");
}

#[test]
fn new_client_is_built_from_the_saved_pair() {
    let mut auth_service = empty_service();
    assert!(auth_service.new_client().is_none());
    auth_service
        .auth_store
        .save(AccessKeyCredentials::new("the id", "the secret"))
        .unwrap();
    let client = auth_service.new_client().unwrap();
    assert_eq!(pair_of(&client), ("the id".to_string(), "the secret".to_string()));

    auth_service
        .auth_store
        .store
        .set(ACCESS_KEY_CREDENTIAL_STORE_KEY, JsonValue::Null)
        .unwrap();
    assert!(auth_service.new_client().is_none());
}

#[test]
fn validity_of_the_client_follows_the_check() {
    // no client: not valid, and no error
    let mut service = AliyunClientService::new();
    let checked = check_held(&service, |_| unreachable!("nothing to check"));
    assert_eq!(has_valid_aliyun_client(&service, checked), Ok(false));
    assert_eq!(service.is_valid(None), Ok(false));
    assert_eq!(service.is_valid(Some(Ok(root_account()))), Ok(false));
    assert_eq!(service.is_valid(Some(Err(refused("Throttling.User")))), Ok(false));

    // a client with valid credentials
    service.initialize(AliyunClient::new("YOUR_ID".to_string(), "YOUR_SECRET".to_string()));
    let checked = check_held(&service, |credentials| {
        assert_eq!(credentials, AccessKeyCredentials::new("YOUR_ID", "YOUR_SECRET"));
        Ok(root_account())
    });
    assert_eq!(has_valid_aliyun_client(&service, checked), Ok(true));

    // the credentials were revoked
    let checked = check_held(&service, |_| Err(refused("InvalidAccessKeyId.Inactive")));
    assert_eq!(has_valid_aliyun_client(&service, checked), Ok(false));
    let checked = check_held(&service, |_| Err(refused("SignatureDoesNotMatch")));
    assert_eq!(has_valid_aliyun_client(&service, checked), Ok(false));
}

#[test]
fn an_open_question_is_an_error() {
    let mut service = AliyunClientService::new();
    service.initialize(AliyunClient::new("id".to_string(), "secret".to_string()));
    assert_eq!(
        service.is_valid(Some(Err(refused("Throttling.User")))),
        Err(AliyunRequestCommandError::InternalError {
            message: "unexpected aliyun rejection".to_string(),
            source: InternalSource::UnexpectedRejection(UnexpectedAliyunRejectionError(
                match refused("Throttling.User") {
                    OperationError::Rejected(rejection) => rejection,
                    _ => unreachable!(),
                }
            )),
        })
    );
    assert_eq!(
        service.is_valid(Some(Err(OperationError::RequestFailure {
            message: "timed out".to_string(),
            kind: RequestErrorKind::Timeout,
        }))),
        Err(AliyunRequestCommandError::RequestFailure {
            message: "timed out".to_string(),
            kind: RequestErrorKind::Timeout,
        })
    );
    assert_eq!(
        service.is_valid(Some(Err(OperationError::InternalError {
            message: "bad answer".to_string(),
        }))),
        Err(AliyunRequestCommandError::InternalError {
            message: "bad answer".to_string(),
            source: InternalSource::Operation,
        })
    );
}

#[test]
fn a_client_that_was_not_checked_is_an_open_question() {
    let mut service = AliyunClientService::new();
    service.initialize(AliyunClient::new("id".to_string(), "secret".to_string()));
    let expected = Err(AliyunRequestCommandError::InternalError {
        message: "no answer of the identity check for the client".to_string(),
        source: InternalSource::NoSource,
    });
    assert_eq!(service.is_valid(None), expected);
    assert_eq!(has_valid_aliyun_client(&service, None), expected);
    service.clear();
    assert_eq!(service.is_valid(None), Ok(false));
}

#[test]
fn current_credential_command_maps_absence_to_none() {
    let mut auth_service = empty_service();
    assert_eq!(current_access_key_credential(&auth_service), Ok(None));

    auth_service.auth_store.save(AccessKeyCredentials::new("id", "secret")).unwrap();
    assert_eq!(
        current_access_key_credential(&auth_service),
        Ok(Some(AccessKeyCredentials::new("id", "secret")))
    );

    auth_service
        .auth_store
        .store
        .set(
            ACCESS_KEY_CREDENTIAL_STORE_KEY,
            JsonValue::Array(vec![JsonValue::String("id".to_string())]),
        )
        .unwrap();
    let error = current_access_key_credential(&auth_service).unwrap_err();
    assert_eq!(
        error,
        QueryError::UnderlyingError(QueryCredentialError::DeserializeError(
            SerdeJsonError::InvalidLength
        ))
    );
    assert_eq!(error.message(), "internal query error");
    assert_eq!(
        QueryError::from(QueryCredentialError::NotExist),
        QueryError::UnderlyingError(QueryCredentialError::NotExist)
    );
}

#[test]
fn validate_command_wraps_the_identity() {
    assert_eq!(
        validate_access_key_credentials(Ok(root_account())),
        Ok(CallerIdentity(root_account()))
    );
    assert_eq!(CallerIdentity::from(root_account()), CallerIdentity(root_account()));
    let answer = validate_access_key_credentials(Err(refused("MissingAccessKeyId")));
    match answer {
        Err(AliyunRequestCommandError::Specific(invalid)) => {
            assert_eq!(invalid.data.code, "MissingAccessKeyId")
        }
        other => unreachable!("not invalid: {:?}", other),
    }
    let answer = validate_access_key_credentials(Err(refused("InvalidAccessKeyId.NotFound")));
    match answer {
        Err(AliyunRequestCommandError::Specific(invalid)) => {
            assert_eq!(invalid.data.code, "InvalidAccessKeyId.NotFound")
        }
        other => unreachable!("not invalid: {:?}", other),
    }
}

#[test]
fn fulfill_command_saves_and_builds_the_client() {
    let mut auth_service = empty_service();
    let mut client_service = AliyunClientService::new();
    assert_eq!(current_access_key_credential(&auth_service), Ok(None));

    let answer = fulfill_access_key_credentials(
        AccessKeyCredentials::new("YOUR_ID", "YOUR_SECRET"),
        Ok(root_account()),
        &mut auth_service,
        &mut client_service,
    );
    assert_eq!(answer, Ok(CallerIdentity(root_account())));
    assert_eq!(
        current_access_key_credential(&auth_service),
        Ok(Some(AccessKeyCredentials::new("YOUR_ID", "YOUR_SECRET")))
    );
    assert_eq!(has_aliyun_client(&client_service), Ok(true));
    assert_eq!(
        client_service.with_client(|client| pair_of(client)),
        Some(("YOUR_ID".to_string(), "YOUR_SECRET".to_string()))
    );
}

#[test]
fn fulfill_command_changes_nothing_on_failure() {
    let mut auth_service = empty_service();
    let mut client_service = AliyunClientService::new();
    fulfill_access_key_credentials(
        AccessKeyCredentials::new("old", "pair"),
        Ok(root_account()),
        &mut auth_service,
        &mut client_service,
    )
    .unwrap();

    let answer = fulfill_access_key_credentials(
        AccessKeyCredentials::new("new", "pair"),
        Err(refused("InvalidAccessKeyId.NotFound")),
        &mut auth_service,
        &mut client_service,
    );
    assert!(matches!(answer, Err(AliyunRequestCommandError::Specific(_))));
    let answer = fulfill_access_key_credentials(
        AccessKeyCredentials::new("new", "pair"),
        Err(OperationError::RequestFailure {
            message: "timed out".to_string(),
            kind: RequestErrorKind::Timeout,
        }),
        &mut auth_service,
        &mut client_service,
    );
    assert!(matches!(answer, Err(AliyunRequestCommandError::RequestFailure { .. })));

    assert_eq!(
        current_access_key_credential(&auth_service),
        Ok(Some(AccessKeyCredentials::new("old", "pair")))
    );
    assert_eq!(
        client_service.with_client(|client| pair_of(client)),
        Some(("old".to_string(), "pair".to_string()))
    );
}

#[test]
fn fulfill_command_builds_no_client_where_saving_fails() {
    let mut store = MemoryStore::bounded(0);
    assert!(store.set("theme", JsonValue::Null).is_err());
    let mut auth_service = AccessKeyAuthService::new(AccessKeyAuthStore::new(store));
    let mut client_service = AliyunClientService::new();
    let answer = fulfill_access_key_credentials(
        AccessKeyCredentials::new("id", "secret"),
        Ok(root_account()),
        &mut auth_service,
        &mut client_service,
    );
    match answer {
        Err(AliyunRequestCommandError::InternalError {
            message,
            source: InternalSource::SaveCredential(SaveCredentialError::WriteError(fault)),
        }) => {
            assert_eq!(message, "failed to store credential: the store is full");
            assert_eq!(fault.message, "the store is full");
        }
        other => unreachable!("not a failure to save: {:?}", other),
    }
    assert_eq!(has_aliyun_client(&client_service), Ok(false));
    assert_eq!(current_access_key_credential(&auth_service), Ok(None));
}

#[test]
fn messages_of_the_store_errors() {
    assert_eq!(
        QueryCredentialError::NotExist.message(),
        "access key credential hasn't been saved"
    );
    assert_eq!(
        QueryCredentialError::DeserializeError(SerdeJsonError::InvalidType).message(),
        "failed to deserialize credential using serde_json: invalid type: expected an access key pair"
    );
    assert_eq!(
        QueryCredentialError::DeserializeError(SerdeJsonError::InvalidLength).message(),
        "failed to deserialize credential using serde_json: invalid length: expected two items"
    );
    assert_eq!(
        SerdeJsonError::MissingField(CredentialField::AccessKeyId).message(),
        "missing field access_key_id"
    );
    assert_eq!(
        SerdeJsonError::MissingField(CredentialField::AccessKeySecret).message(),
        "missing field access_key_secret"
    );
    assert_eq!(
        SerdeJsonError::InvalidField(CredentialField::AccessKeySecret).message(),
        "invalid type: expected a text for access_key_secret"
    );
    assert_eq!(
        SaveCredentialError::SerializeError(SerdeJsonError::InvalidType).message(),
        "failed to serialize credential using serde_json: invalid type: expected an access key pair"
    );
    assert_eq!(CredentialField::AccessKeyId.name(), "access_key_id");
    assert_eq!(CredentialField::AccessKeySecret.name(), "access_key_secret");
    let boxed = BoxedError::new("a description".to_string());
    assert_eq!(boxed.description, "a description");
    assert_eq!(boxed.message(), "a description");
}

#[test]
fn json_values_are_copied_in_depth() {
    let value = JsonValue::Object(vec![
        aliyun_auth::types::JsonMember {
            name: "list".to_string(),
            value: JsonValue::Array(vec![
                JsonValue::Null,
                JsonValue::Bool(true),
                JsonValue::Number("-1.5e3".to_string()),
                JsonValue::String("text".to_string()),
                JsonValue::Array(vec![]),
                JsonValue::Object(vec![]),
            ]),
        },
        aliyun_auth::types::JsonMember { name: String::new(), value: JsonValue::Null },
    ]);
    let copy = value.clone();
    assert_eq!(format!("{:?}", copy), format!("{:?}", value));
}

#[test]
fn memory_store_is_a_map() {
    let mut store = MemoryStore::new();
    assert!(store.get("a").is_none());
    assert!(!store.delete("a"));
    store.set("a", JsonValue::Bool(true)).unwrap();
    store.set("b", JsonValue::Bool(false)).unwrap();
    store.set("", JsonValue::Null).unwrap();
    assert!(matches!(store.get("a"), Some(JsonValue::Bool(true))));
    assert!(matches!(store.get("b"), Some(JsonValue::Bool(false))));
    assert!(matches!(store.get(""), Some(JsonValue::Null)));
    store.set("a", JsonValue::Null).unwrap();
    assert!(matches!(store.get("a"), Some(JsonValue::Null)));
    assert!(matches!(store.get("b"), Some(JsonValue::Bool(false))));
    assert!(store.delete("a"));
    assert!(!store.delete("a"));
    assert!(store.get("a").is_none());
    assert!(matches!(store.get("b"), Some(JsonValue::Bool(false))));
    assert!(store.delete(""));
    assert!(store.delete("b"));
    assert!(store.get("b").is_none());
}
